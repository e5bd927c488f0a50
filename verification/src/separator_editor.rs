use vstd::prelude::*;

verus! {

use crate::name_input::spec_is_control;
use crate::text::push_char;
use crate::text::remove_last_char;
use crate::text::str_eq;
use vstd::string::StrSliceExecFns;
use vstd::string::StringExecFns;

/// A ready-made separator: a short name, the separator text itself, and a
/// description.
#[derive(Debug, Clone, Copy)]
pub struct SeparatorPreset {
    pub name: &'static str,
    pub value: &'static str,
    pub description: &'static str,
}

/// The name, text and description of the preset at a catalog position.
pub open spec fn spec_preset(i: int) -> (Seq<char>, Seq<char>, Seq<char>) {
    if i == 0 {
        ("Pipe"@, " | "@, "Classic pipe"@)
    } else if i == 1 {
        ("Thin"@, " │ "@, "Thin vertical line"@)
    } else if i == 2 {
        ("Arrow"@, "\u{e0b0}"@, "Powerline arrow"@)
    } else if i == 3 {
        ("Space"@, "  "@, "Double space"@)
    } else {
        ("Dot"@, " • "@, "Middle dot"@)
    }
}

/// The position of the first preset whose text equals the given one.
pub open spec fn spec_preset_match(s: Seq<char>) -> Option<int> {
    if s == " | "@ {
        Some(0int)
    } else if s == " │ "@ {
        Some(1int)
    } else if s == "\u{e0b0}"@ {
        Some(2int)
    } else if s == "  "@ {
        Some(3int)
    } else if s == " • "@ {
        Some(4int)
    } else {
        None
    }
}

/// One move over the preset list: from a selection, one step clamped at
/// the ends; from none, the first entry moving down, the last moving up.
pub open spec fn spec_preset_move(cur: Option<usize>, delta: int) -> int {
    match cur {
        Some(i) => {
            let t = i + delta;
            if t < 0 {
                0
            } else if t > 4 {
                4
            } else {
                t
            }
        },
        None => if delta > 0 {
            0
        } else {
            4
        },
    }
}

/// The interactive separator editor: a free-form entry and a selection
/// over the preset catalog.
#[derive(Debug)]
pub struct SeparatorEditor {
    pub is_open: bool,
    pub input: String,
    pub selected_preset: Option<usize>,
}

impl Default for SeparatorEditor {
    fn default() -> (r: Self)
        ensures
            r.wf(),
            !r.is_open,
            r.input@.len() == 0,
            r.selected_preset is None,
    {
        SeparatorEditor { is_open: false, input: String::new(), selected_preset: None }
    }
}

impl SeparatorEditor {
    /// Well-formed editor state: a selection lies inside the catalog.
    pub open spec fn wf(self) -> bool {
        self.selected_preset matches Some(i) ==> i < 5
    }

    /// The preset catalog: five entries.
    pub fn presets() -> (r: Vec<SeparatorPreset>)
        ensures
            r@.len() == 5,
            forall|i: int|
                0 <= i < 5 ==> ((#[trigger] r@[i]).name@, r@[i].value@, r@[i].description@)
                    == spec_preset(i),
    {
        let mut v: Vec<SeparatorPreset> = Vec::new();
        v.push(SeparatorPreset { name: "Pipe", value: " | ", description: "Classic pipe" });
        v.push(SeparatorPreset { name: "Thin", value: " │ ", description: "Thin vertical line" });
        v.push(SeparatorPreset { name: "Arrow", value: "\u{e0b0}", description: "Powerline arrow" });
        v.push(SeparatorPreset { name: "Space", value: "  ", description: "Double space" });
        v.push(SeparatorPreset { name: "Dot", value: " • ", description: "Middle dot" });
        v
    }

    /// Opens the editor on the current separator; when that text is one of
    /// the presets, that preset is selected.
    pub fn open(&mut self, current_separator: &str)
        ensures
            final(self).wf(),
            final(self).is_open,
            final(self).input@ == current_separator@,
            (final(self).selected_preset is Some) == (spec_preset_match(current_separator@)
                is Some),
            final(self).selected_preset matches Some(i) ==> i as int == spec_preset_match(
                current_separator@,
            )->0,
    {
        self.is_open = true;
        self.input = current_separator.to_owned();
        if str_eq(current_separator, " | ") {
            self.selected_preset = Some(0);
        } else if str_eq(current_separator, " │ ") {
            self.selected_preset = Some(1);
        } else if str_eq(current_separator, "\u{e0b0}") {
            self.selected_preset = Some(2);
        } else if str_eq(current_separator, "  ") {
            self.selected_preset = Some(3);
        } else if str_eq(current_separator, " • ") {
            self.selected_preset = Some(4);
        } else {
            self.selected_preset = None;
        }
    }

    /// Closes the editor and discards its state.
    pub fn close(&mut self)
        ensures
            final(self).wf(),
            !final(self).is_open,
            final(self).input@.len() == 0,
            final(self).selected_preset is None,
    {
        self.is_open = false;
        self.input = String::new();
        self.selected_preset = None;
    }

    /// One typed character extends the entry when it is no control
    /// character, and drops any preset selection.
    pub fn input_char(&mut self, c: char)
        requires
            old(self).wf(),
        ensures
            final(self).wf(),
            final(self).input@ == (if !spec_is_control(c) {
                old(self).input@.push(c)
            } else {
                old(self).input@
            }),
            final(self).selected_preset == (if !spec_is_control(c) {
                None::<usize>
            } else {
                old(self).selected_preset
            }),
            final(self).is_open == old(self).is_open,
    {
        let u = c as u32;
        let control = u < 0x20 || u == 0x7f || (0x80 <= u && u <= 0x9f);
        if !control {
            push_char(&mut self.input, c);
            self.selected_preset = None;
        }
    }

    /// One erased character shortens the entry and drops any preset
    /// selection.
    pub fn backspace(&mut self)
        ensures
            final(self).wf(),
            final(self).input@ == (if old(self).input@.len() > 0 {
                old(self).input@.drop_last()
            } else {
                old(self).input@
            }),
            final(self).selected_preset is None,
            final(self).is_open == old(self).is_open,
    {
        self.input = remove_last_char(self.input.as_str());
        self.selected_preset = None;
    }

    /// Clears the entry and drops any preset selection.
    pub fn clear_input(&mut self)
        ensures
            final(self).wf(),
            final(self).input@.len() == 0,
            final(self).selected_preset is None,
            final(self).is_open == old(self).is_open,
    {
        self.input = String::new();
        self.selected_preset = None;
    }

    /// One move over the preset catalog; the reached preset's text becomes
    /// the entry.
    pub fn move_preset_selection(&mut self, delta: i32)
        requires
            old(self).wf(),
        ensures
            final(self).wf(),
            final(self).selected_preset matches Some(i) && i as int == spec_preset_move(
                old(self).selected_preset,
                delta as int,
            ),
            final(self).input@ == spec_preset(
                spec_preset_move(old(self).selected_preset, delta as int),
            ).1,
            final(self).is_open == old(self).is_open,
    {
        let presets = Self::presets();
        let new_idx: usize = match self.selected_preset {
            Some(current) => {
                let t: i64 = (current as i64) + (delta as i64);
                if t < 0 {
                    0
                } else if t > 4 {
                    4
                } else {
                    t as usize
                }
            },
            None => if delta > 0 {
                0
            } else {
                4
            },
        };
        self.selected_preset = Some(new_idx);
        self.input = presets[new_idx].value.to_owned();
    }

    /// The separator text entered so far.
    pub fn get_separator(&self) -> (r: String)
        ensures
            r@ == self.input@,
    {
        self.input.clone()
    }
}

} // verus!
