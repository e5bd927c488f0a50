use vstd::prelude::*;

verus! {

/// Global rendering strategy for the status line.
#[derive(Debug, Clone, Copy, PartialEq, Eq, Structural)]
pub enum StyleMode {
    /// Plain text, emoji icons, simple separators.
    Plain,
    /// Nerd-Font glyph icons.
    NerdFont,
    /// Background-color blocks with arrow transitions.
    Powerline,
}

impl Default for StyleMode {
    fn default() -> (r: Self)
        ensures
            r == StyleMode::NerdFont,
    {
        StyleMode::NerdFont
    }
}

/// A terminal color in one of three representations: one of the 16 standard
/// ANSI colors, a 256-palette index, or a true-color RGB triple.
#[derive(Debug, Clone, Copy, PartialEq, Eq, Structural)]
pub enum AnsiColor {
    Color16 { c16: u8 },
    Color256 { c256: u8 },
    Rgb { r: u8, g: u8, b: u8 },
}

impl AnsiColor {
    pub fn c16(code: u8) -> (r: Self)
        ensures
            r == (AnsiColor::Color16 { c16: code }),
    {
        AnsiColor::Color16 { c16: code }
    }

    pub fn c256(code: u8) -> (r: Self)
        ensures
            r == (AnsiColor::Color256 { c256: code }),
    {
        AnsiColor::Color256 { c256: code }
    }

    pub fn rgb(r: u8, g: u8, b: u8) -> (c: Self)
        ensures
            c == (AnsiColor::Rgb { r, g, b }),
    {
        AnsiColor::Rgb { r, g, b }
    }
}

/// The persisted shape of a color: a record of optional numeric fields whose
/// names, not their values, say which representation is stored. A
/// sixteen-color value sets only `c16`, a palette color only `c256`, a
/// true-color value only `r`, `g` and `b`.
#[derive(Debug, Clone, Copy, PartialEq, Eq, Structural)]
pub struct ColorFields {
    pub c16: Option<u8>,
    pub c256: Option<u8>,
    pub r: Option<u8>,
    pub g: Option<u8>,
    pub b: Option<u8>,
}

impl AnsiColor {
    /// The field-name-tagged record this color is persisted as.
    pub fn to_fields(&self) -> (f: ColorFields)
        ensures
            f == spec_color_to_fields(*self),
    {
        match *self {
            AnsiColor::Color16 { c16 } => ColorFields {
                c16: Some(c16),
                c256: None,
                r: None,
                g: None,
                b: None,
            },
            AnsiColor::Color256 { c256 } => ColorFields {
                c16: None,
                c256: Some(c256),
                r: None,
                g: None,
                b: None,
            },
            AnsiColor::Rgb { r, g, b } => ColorFields {
                c16: None,
                c256: None,
                r: Some(r),
                g: Some(g),
                b: Some(b),
            },
        }
    }

    /// Reads a color back from a persisted record. The representations are
    /// tried in a fixed order -- `c16`, then `c256`, then the RGB triple --
    /// so a record that names more than one wins by that order.
    pub fn from_fields(f: &ColorFields) -> (r: Option<Self>)
        ensures
            r == spec_color_from_fields(*f),
    {
        match f.c16 {
            Some(code) => Some(AnsiColor::Color16 { c16: code }),
            None => match f.c256 {
                Some(code) => Some(AnsiColor::Color256 { c256: code }),
                None => match (f.r, f.g, f.b) {
                    (Some(r), Some(g), Some(b)) => Some(AnsiColor::Rgb { r, g, b }),
                    _ => None,
                },
            },
        }
    }
}

pub open spec fn spec_color_to_fields(c: AnsiColor) -> ColorFields {
    match c {
        AnsiColor::Color16 { c16 } => ColorFields {
            c16: Some(c16),
            c256: None,
            r: None,
            g: None,
            b: None,
        },
        AnsiColor::Color256 { c256 } => ColorFields {
            c16: None,
            c256: Some(c256),
            r: None,
            g: None,
            b: None,
        },
        AnsiColor::Rgb { r, g, b } => ColorFields {
            c16: None,
            c256: None,
            r: Some(r),
            g: Some(g),
            b: Some(b),
        },
    }
}

pub open spec fn spec_color_from_fields(f: ColorFields) -> Option<AnsiColor> {
    if f.c16 is Some {
        Some(AnsiColor::Color16 { c16: f.c16->0 })
    } else if f.c256 is Some {
        Some(AnsiColor::Color256 { c256: f.c256->0 })
    } else if f.r is Some && f.g is Some && f.b is Some {
        Some(AnsiColor::Rgb { r: f.r->0, g: f.g->0, b: f.b->0 })
    } else {
        None
    }
}

/// Writing any color to its persisted record and reading it back yields the
/// same color: the field names alone disambiguate the three representations.
pub proof fn lemma_color_fields_round_trip(c: AnsiColor)
    ensures
        spec_color_from_fields(spec_color_to_fields(c)) == Some(c),
{
}

/// The two icons a segment can show: an emoji or plain-text form, and a
/// Nerd-Font glyph. Which one is active is a function of the style mode.
#[derive(Debug)]
pub struct IconConfig {
    pub plain: String,
    pub nerd_font: String,
}

/// The icon text that a style mode selects from an icon pair.
pub open spec fn spec_icon_for_mode(ic: IconConfig, mode: StyleMode) -> Seq<char> {
    match mode {
        StyleMode::Plain => ic.plain@,
        StyleMode::NerdFont => ic.nerd_font@,
        StyleMode::Powerline => ic.nerd_font@,
    }
}

impl IconConfig {
    pub fn new(plain: &str, nerd_font: &str) -> (r: Self)
        ensures
            r.plain@ == plain@,
            r.nerd_font@ == nerd_font@,
    {
        IconConfig { plain: plain.to_owned(), nerd_font: nerd_font.to_owned() }
    }

    /// The icon for the given style mode: the plain form in plain mode, the
    /// Nerd-Font glyph otherwise.
    pub fn get(&self, mode: StyleMode) -> (r: &str)
        ensures
            r@ == spec_icon_for_mode(*self, mode),
    {
        match mode {
            StyleMode::Plain => self.plain.as_str(),
            StyleMode::NerdFont => self.nerd_font.as_str(),
            StyleMode::Powerline => self.nerd_font.as_str(),
        }
    }
}

impl Clone for IconConfig {
    fn clone(&self) -> (r: Self)
        ensures
            r == *self,
    {
        let r = IconConfig { plain: self.plain.clone(), nerd_font: self.nerd_font.clone() };
        proof {
            assert(r == *self);
        }
        r
    }
}

impl Default for IconConfig {
    fn default() -> (r: Self)
        ensures
            r.plain@ == Seq::<char>::empty(),
            r.nerd_font@ == Seq::<char>::empty(),
    {
        IconConfig { plain: String::new(), nerd_font: String::new() }
    }
}

/// Independent optional colors for a segment's icon, text and background;
/// an unset color inherits the terminal default.
#[derive(Debug, Clone, Copy, PartialEq, Eq, Structural)]
pub struct ColorConfig {
    pub icon: Option<AnsiColor>,
    pub text: Option<AnsiColor>,
    pub background: Option<AnsiColor>,
}

impl ColorConfig {
    pub fn new(icon: AnsiColor, text: AnsiColor) -> (r: Self)
        ensures
            r == (ColorConfig { icon: Some(icon), text: Some(text), background: None }),
    {
        ColorConfig { icon: Some(icon), text: Some(text), background: None }
    }

    pub fn with_background(self, bg: AnsiColor) -> (r: Self)
        ensures
            r == (ColorConfig { background: Some(bg), ..self }),
    {
        ColorConfig { background: Some(bg), ..self }
    }
}

impl Default for ColorConfig {
    fn default() -> (r: Self)
        ensures
            r == (ColorConfig { icon: None, text: None, background: None }),
    {
        ColorConfig { icon: None, text: None, background: None }
    }
}

/// Text attributes of a segment.
#[derive(Debug, Clone, Copy, PartialEq, Eq, Structural)]
pub struct TextStyleConfig {
    pub text_bold: bool,
}

impl Default for TextStyleConfig {
    fn default() -> (r: Self)
        ensures
            r == (TextStyleConfig { text_bold: false }),
    {
        TextStyleConfig { text_bold: false }
    }
}

} // verus!
