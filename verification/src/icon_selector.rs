use vstd::prelude::*;

verus! {

use crate::style::StyleMode;
use crate::text::push_char;
use crate::text::remove_last_char;
use vstd::string::StrSliceExecFns;
use vstd::string::StringExecFns;

/// Which icon catalog the selector is browsing.
#[derive(Debug, Clone, Copy, PartialEq, Eq, Structural)]
pub enum IconStyle {
    Plain,
    NerdFont,
}

/// One icon of a catalog: its glyph and a display name.
#[derive(Debug, Clone, Copy)]
pub struct IconInfo {
    pub icon: &'static str,
    pub name: &'static str,
}

/// The glyph and name at a position of the emoji catalog.
pub open spec fn spec_plain_icon(i: int) -> (Seq<char>, Seq<char>) {
    if i == 0 {
        ("🤖"@, "Robot (Model)"@)
    } else if i == 1 {
        ("💻"@, "Laptop"@)
    } else if i == 2 {
        ("📁"@, "Folder"@)
    } else if i == 3 {
        ("📂"@, "Open Folder"@)
    } else if i == 4 {
        ("📊"@, "Bar Chart"@)
    } else if i == 5 {
        ("🌿"@, "Branch (Git)"@)
    } else if i == 6 {
        ("🌱"@, "Seedling"@)
    } else if i == 7 {
        ("🔧"@, "Wrench"@)
    } else if i == 8 {
        ("⚡"@, "Lightning"@)
    } else if i == 9 {
        ("⭐"@, "Star"@)
    } else if i == 10 {
        ("✨"@, "Sparkles"@)
    } else if i == 11 {
        ("🔥"@, "Fire"@)
    } else if i == 12 {
        ("💎"@, "Gem"@)
    } else if i == 13 {
        ("✓"@, "Check"@)
    } else if i == 14 {
        ("●"@, "Circle"@)
    } else {
        ("▶"@, "Play"@)
    }
}

/// The glyph and name at a position of the Nerd-Font catalog.
pub open spec fn spec_nerd_icon(i: int) -> (Seq<char>, Seq<char>) {
    if i == 0 {
        ("\u{e26d}"@, "Robot (Model)"@)
    } else if i == 1 {
        ("\u{f02a2}"@, "Git Branch"@)
    } else if i == 2 {
        ("\u{f024b}"@, "Folder"@)
    } else if i == 3 {
        ("\u{f07b}"@, "Folder Open"@)
    } else if i == 4 {
        ("\u{f111}"@, "Circle"@)
    } else if i == 5 {
        ("\u{f135}"@, "Rocket"@)
    } else if i == 6 {
        ("\u{f49b}"@, "Chart"@)
    } else if i == 7 {
        ("\u{f0c9}"@, "List"@)
    } else if i == 8 {
        ("\u{f013}"@, "Cog"@)
    } else if i == 9 {
        ("\u{f015}"@, "Home"@)
    } else if i == 10 {
        ("\u{f0e7}"@, "Lightning"@)
    } else if i == 11 {
        ("\u{f121}"@, "Code"@)
    } else if i == 12 {
        ("\u{f126}"@, "Code Fork"@)
    } else if i == 13 {
        ("\u{f017}"@, "Clock"@)
    } else {
        ("\u{f080}"@, "Bar Chart"@)
    }
}

/// The emoji icon catalog: sixteen entries.
pub fn get_plain_icons() -> (r: Vec<IconInfo>)
    ensures
        r@.len() == 16,
        forall|i: int|
            0 <= i < 16 ==> ((#[trigger] r@[i]).icon@, r@[i].name@) == spec_plain_icon(i),
{
    let mut v: Vec<IconInfo> = Vec::new();
    v.push(IconInfo { icon: "🤖", name: "Robot (Model)" });
    v.push(IconInfo { icon: "💻", name: "Laptop" });
    v.push(IconInfo { icon: "📁", name: "Folder" });
    v.push(IconInfo { icon: "📂", name: "Open Folder" });
    v.push(IconInfo { icon: "📊", name: "Bar Chart" });
    v.push(IconInfo { icon: "🌿", name: "Branch (Git)" });
    v.push(IconInfo { icon: "🌱", name: "Seedling" });
    v.push(IconInfo { icon: "🔧", name: "Wrench" });
    v.push(IconInfo { icon: "⚡", name: "Lightning" });
    v.push(IconInfo { icon: "⭐", name: "Star" });
    v.push(IconInfo { icon: "✨", name: "Sparkles" });
    v.push(IconInfo { icon: "🔥", name: "Fire" });
    v.push(IconInfo { icon: "💎", name: "Gem" });
    v.push(IconInfo { icon: "✓", name: "Check" });
    v.push(IconInfo { icon: "●", name: "Circle" });
    v.push(IconInfo { icon: "▶", name: "Play" });
    v
}

/// The Nerd-Font icon catalog: fifteen entries.
pub fn get_nerd_font_icons() -> (r: Vec<IconInfo>)
    ensures
        r@.len() == 15,
        forall|i: int| 0 <= i < 15 ==> ((#[trigger] r@[i]).icon@, r@[i].name@) == spec_nerd_icon(i),
{
    let mut v: Vec<IconInfo> = Vec::new();
    v.push(IconInfo { icon: "\u{e26d}", name: "Robot (Model)" });
    v.push(IconInfo { icon: "\u{f02a2}", name: "Git Branch" });
    v.push(IconInfo { icon: "\u{f024b}", name: "Folder" });
    v.push(IconInfo { icon: "\u{f07b}", name: "Folder Open" });
    v.push(IconInfo { icon: "\u{f111}", name: "Circle" });
    v.push(IconInfo { icon: "\u{f135}", name: "Rocket" });
    v.push(IconInfo { icon: "\u{f49b}", name: "Chart" });
    v.push(IconInfo { icon: "\u{f0c9}", name: "List" });
    v.push(IconInfo { icon: "\u{f013}", name: "Cog" });
    v.push(IconInfo { icon: "\u{f015}", name: "Home" });
    v.push(IconInfo { icon: "\u{f0e7}", name: "Lightning" });
    v.push(IconInfo { icon: "\u{f121}", name: "Code" });
    v.push(IconInfo { icon: "\u{f126}", name: "Code Fork" });
    v.push(IconInfo { icon: "\u{f017}", name: "Clock" });
    v.push(IconInfo { icon: "\u{f080}", name: "Bar Chart" });
    v
}

/// The glyph the selector stands on, per catalog and selection.
pub open spec fn spec_selected_icon_text(style: IconStyle, sp: int, sn: int) -> Seq<char> {
    match style {
        IconStyle::Plain => spec_plain_icon(sp).0,
        IconStyle::NerdFont => spec_nerd_icon(sn).0,
    }
}

/// One move clamped into a list of `len` entries.
pub open spec fn spec_clamp_move(sel: int, delta: int, len: int) -> int {
    let t = sel + delta;
    if t < 0 {
        0
    } else if t > len - 1 {
        len - 1
    } else {
        t
    }
}

/// The interactive icon selector: a selection per catalog, a toggle
/// between the catalogs, and a free-form custom entry.
#[derive(Debug)]
pub struct IconSelector {
    pub is_open: bool,
    pub icon_style: IconStyle,
    pub selected_plain: usize,
    pub selected_nerd: usize,
    pub custom_input: String,
    pub editing_custom: bool,
    pub current_icon: Option<String>,
}

impl IconSelector {
    /// Well-formed selector state: each selection lies inside its catalog.
    pub open spec fn wf(self) -> bool {
        &&& self.selected_plain < 16
        &&& self.selected_nerd < 15
    }

    /// The icon the current selection stands on.
    pub open spec fn spec_current_of(self) -> Seq<char> {
        spec_selected_icon_text(self.icon_style, self.selected_plain as int, self.selected_nerd as int)
    }
}

impl Default for IconSelector {
    fn default() -> (r: Self)
        ensures
            r.wf(),
            !r.is_open,
            r.icon_style == IconStyle::Plain,
            r.selected_plain == 0,
            r.selected_nerd == 0,
            r.custom_input@.len() == 0,
            !r.editing_custom,
            r.current_icon is None,
    {
        IconSelector {
            is_open: false,
            icon_style: IconStyle::Plain,
            selected_plain: 0,
            selected_nerd: 0,
            custom_input: String::new(),
            editing_custom: false,
            current_icon: None,
        }
    }
}

impl IconSelector {
    fn update_current_icon(&mut self)
        requires
            old(self).wf(),
        ensures
            final(self).wf(),
            *final(self) == (IconSelector {
                current_icon: final(self).current_icon,
                ..*old(self)
            }),
            final(self).current_icon matches Some(s) && s@ == old(self).spec_current_of(),
    {
        match self.icon_style {
            IconStyle::Plain => {
                let icons = get_plain_icons();
                self.current_icon = Some(icons[self.selected_plain].icon.to_owned());
            },
            IconStyle::NerdFont => {
                let icons = get_nerd_font_icons();
                self.current_icon = Some(icons[self.selected_nerd].icon.to_owned());
            },
        }
    }

    /// Opens the selector: the catalog follows the style mode, custom
    /// entry is off and cleared, and the icon under the selection becomes
    /// current.
    pub fn open(&mut self, current_style: StyleMode)
        requires
            old(self).wf(),
        ensures
            final(self).wf(),
            final(self).is_open,
            final(self).icon_style == (if current_style == StyleMode::Plain {
                IconStyle::Plain
            } else {
                IconStyle::NerdFont
            }),
            !final(self).editing_custom,
            final(self).custom_input@.len() == 0,
            final(self).selected_plain == old(self).selected_plain,
            final(self).selected_nerd == old(self).selected_nerd,
            final(self).current_icon matches Some(s) && s@ == final(self).spec_current_of(),
    {
        self.is_open = true;
        self.icon_style = match current_style {
            StyleMode::Plain => IconStyle::Plain,
            StyleMode::NerdFont => IconStyle::NerdFont,
            StyleMode::Powerline => IconStyle::NerdFont,
        };
        self.editing_custom = false;
        self.custom_input = String::new();
        self.update_current_icon();
    }

    /// Closes the selector and leaves custom entry.
    pub fn close(&mut self)
        requires
            old(self).wf(),
        ensures
            final(self).wf(),
            !final(self).is_open,
            !final(self).editing_custom,
            final(self).current_icon == old(self).current_icon,
            final(self).icon_style == old(self).icon_style,
            final(self).selected_plain == old(self).selected_plain,
            final(self).selected_nerd == old(self).selected_nerd,
            final(self).custom_input == old(self).custom_input,
    {
        self.is_open = false;
        self.editing_custom = false;
    }

    /// Switches between the two catalogs; the icon under the other
    /// catalog's selection becomes current.
    pub fn toggle_style(&mut self)
        requires
            old(self).wf(),
        ensures
            final(self).wf(),
            final(self).icon_style == (if old(self).icon_style == IconStyle::Plain {
                IconStyle::NerdFont
            } else {
                IconStyle::Plain
            }),
            final(self).selected_plain == old(self).selected_plain,
            final(self).selected_nerd == old(self).selected_nerd,
            final(self).is_open == old(self).is_open,
            final(self).custom_input == old(self).custom_input,
            final(self).editing_custom == old(self).editing_custom,
            final(self).current_icon matches Some(s) && s@ == final(self).spec_current_of(),
    {
        self.icon_style = match self.icon_style {
            IconStyle::Plain => IconStyle::NerdFont,
            IconStyle::NerdFont => IconStyle::Plain,
        };
        self.update_current_icon();
    }

    /// Begins custom entry with an empty text.
    pub fn start_custom_input(&mut self)
        requires
            old(self).wf(),
        ensures
            final(self).wf(),
            final(self).editing_custom,
            final(self).custom_input@.len() == 0,
            final(self).current_icon == old(self).current_icon,
            final(self).icon_style == old(self).icon_style,
            final(self).selected_plain == old(self).selected_plain,
            final(self).selected_nerd == old(self).selected_nerd,
            final(self).is_open == old(self).is_open,
    {
        self.editing_custom = true;
        self.custom_input = String::new();
    }

    /// Ends custom entry: a non-empty text becomes the current icon and
    /// the call reports success; an empty text changes nothing.
    pub fn finish_custom_input(&mut self) -> (r: bool)
        requires
            old(self).wf(),
        ensures
            final(self).wf(),
            !final(self).editing_custom,
            r == (old(self).custom_input@.len() > 0),
            r ==> (final(self).current_icon matches Some(s) && s@ == old(self).custom_input@),
            !r ==> final(self).current_icon == old(self).current_icon,
            final(self).custom_input == old(self).custom_input,
            final(self).icon_style == old(self).icon_style,
            final(self).selected_plain == old(self).selected_plain,
            final(self).selected_nerd == old(self).selected_nerd,
            final(self).is_open == old(self).is_open,
    {
        self.editing_custom = false;
        if !self.custom_input.as_str().is_empty() {
            self.current_icon = Some(self.custom_input.clone());
            return true;
        }
        false
    }

    /// One typed character extends the custom text while custom entry is
    /// on; otherwise nothing changes.
    pub fn input_char(&mut self, c: char)
        requires
            old(self).wf(),
        ensures
            final(self).wf(),
            old(self).editing_custom ==> final(self).custom_input@ == old(self).custom_input@.push(
                c,
            ),
            !old(self).editing_custom ==> *final(self) == *old(self),
            final(self).editing_custom == old(self).editing_custom,
            final(self).current_icon == old(self).current_icon,
            final(self).icon_style == old(self).icon_style,
            final(self).selected_plain == old(self).selected_plain,
            final(self).selected_nerd == old(self).selected_nerd,
            final(self).is_open == old(self).is_open,
    {
        if self.editing_custom {
            push_char(&mut self.custom_input, c);
        }
    }

    /// One erased character shortens the custom text while custom entry is
    /// on; otherwise nothing changes.
    pub fn backspace(&mut self)
        requires
            old(self).wf(),
        ensures
            final(self).wf(),
            old(self).editing_custom ==> final(self).custom_input@ == (if old(
                self,
            ).custom_input@.len() > 0 {
                old(self).custom_input@.drop_last()
            } else {
                old(self).custom_input@
            }),
            !old(self).editing_custom ==> *final(self) == *old(self),
            final(self).editing_custom == old(self).editing_custom,
            final(self).current_icon == old(self).current_icon,
            final(self).icon_style == old(self).icon_style,
            final(self).selected_plain == old(self).selected_plain,
            final(self).selected_nerd == old(self).selected_nerd,
            final(self).is_open == old(self).is_open,
    {
        if self.editing_custom {
            self.custom_input = remove_last_char(self.custom_input.as_str());
        }
    }

    /// One move over the active catalog, clamped at its ends; the icon
    /// under the new selection becomes current. During custom entry
    /// nothing changes.
    pub fn move_selection(&mut self, delta: i32)
        requires
            old(self).wf(),
        ensures
            final(self).wf(),
            old(self).editing_custom ==> *final(self) == *old(self),
            !old(self).editing_custom ==> {
                &&& old(self).icon_style == IconStyle::Plain ==> {
                    &&& final(self).selected_plain as int == spec_clamp_move(
                        old(self).selected_plain as int,
                        delta as int,
                        16,
                    )
                    &&& final(self).selected_nerd == old(self).selected_nerd
                }
                &&& old(self).icon_style == IconStyle::NerdFont ==> {
                    &&& final(self).selected_nerd as int == spec_clamp_move(
                        old(self).selected_nerd as int,
                        delta as int,
                        15,
                    )
                    &&& final(self).selected_plain == old(self).selected_plain
                }
                &&& final(self).current_icon matches Some(s) && s@ == final(self).spec_current_of()
                &&& final(self).icon_style == old(self).icon_style
                &&& final(self).is_open == old(self).is_open
                &&& final(self).editing_custom == old(self).editing_custom
            },
    {
        if self.editing_custom {
            return ;
        }
        match self.icon_style {
            IconStyle::Plain => {
                let t: i64 = (self.selected_plain as i64) + (delta as i64);
                let new_selection: usize = if t < 0 {
                    0
                } else if t > 15 {
                    15
                } else {
                    t as usize
                };
                self.selected_plain = new_selection;
            },
            IconStyle::NerdFont => {
                let t: i64 = (self.selected_nerd as i64) + (delta as i64);
                let new_selection: usize = if t < 0 {
                    0
                } else if t > 14 {
                    14
                } else {
                    t as usize
                };
                self.selected_nerd = new_selection;
            },
        }
        self.update_current_icon();
    }

    /// The icon the selector currently stands on, if any.
    pub fn get_selected_icon(&self) -> (r: Option<String>)
        ensures
            (r is Some) == (self.current_icon is Some),
            r matches Some(s) ==> s@ == self.current_icon->0@,
    {
        match &self.current_icon {
            Some(s) => Some(s.clone()),
            None => None,
        }
    }
}

} // verus!
