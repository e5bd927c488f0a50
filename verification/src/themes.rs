use vstd::prelude::*;

verus! {

use crate::config::CxLineConfig;
use crate::config::SegmentItemConfig;
use crate::config::SegmentsConfig;
use crate::segment::SegmentId;
use crate::style::AnsiColor;
use crate::style::ColorConfig;
use crate::style::IconConfig;
use crate::style::StyleMode;
use crate::style::TextStyleConfig;
use crate::text::str_eq;
use vstd::string::StringExecFns;

/// A segment configuration with the given id, icons, colors and boldness,
/// enabled.
pub open spec fn seg_like(
    s: SegmentItemConfig,
    id: SegmentId,
    plain: Seq<char>,
    nerd: Seq<char>,
    icon: Option<AnsiColor>,
    text: Option<AnsiColor>,
    bg: Option<AnsiColor>,
    bold: bool,
) -> bool {
    &&& s.id == id
    &&& s.enabled
    &&& s.icon.plain@ == plain
    &&& s.icon.nerd_font@ == nerd
    &&& s.colors == (ColorConfig { icon, text, background: bg })
    &&& s.styles == (TextStyleConfig { text_bold: bold })
}

pub open spec fn spec_c16(n: u8) -> Option<AnsiColor> {
    Some(AnsiColor::Color16 { c16: n })
}

pub open spec fn spec_c256(n: u8) -> Option<AnsiColor> {
    Some(AnsiColor::Color256 { c256: n })
}

pub open spec fn spec_rgb(r: u8, g: u8, b: u8) -> Option<AnsiColor> {
    Some(AnsiColor::Rgb { r, g, b })
}

pub open spec fn spec_default_model_seg(s: SegmentItemConfig) -> bool {
    seg_like(s, SegmentId::Model, "🤖"@, "\u{e26d}"@, spec_c16(14), spec_c16(14), None, false)
}

pub open spec fn spec_default_directory_seg(s: SegmentItemConfig) -> bool {
    seg_like(
        s,
        SegmentId::Directory,
        "📁"@,
        "\u{f024b}"@,
        spec_c16(11),
        spec_c16(10),
        None,
        false,
    )
}

pub open spec fn spec_default_git_seg(s: SegmentItemConfig) -> bool {
    seg_like(s, SegmentId::Git, "🌿"@, "\u{f02a2}"@, spec_c16(12), spec_c16(12), None, false)
}

pub open spec fn spec_default_context_seg(s: SegmentItemConfig) -> bool {
    seg_like(s, SegmentId::Context, "⚡️"@, "\u{f49b}"@, spec_c16(13), spec_c16(13), None, false)
}

pub open spec fn spec_default_usage_seg(s: SegmentItemConfig) -> bool {
    seg_like(s, SegmentId::Usage, "📊"@, "\u{f0a9e}"@, spec_c16(14), spec_c16(14), None, false)
}

pub open spec fn spec_default_segments(s: SegmentsConfig) -> bool {
    &&& spec_default_model_seg(s.model)
    &&& spec_default_directory_seg(s.directory)
    &&& spec_default_git_seg(s.git)
    &&& spec_default_context_seg(s.context)
    &&& spec_default_usage_seg(s.usage)
}

pub open spec fn spec_default_content(c: CxLineConfig) -> bool {
    &&& c.style == StyleMode::Plain
    &&& c.separator@ == " │ "@
    &&& spec_default_segments(c.segments)
}

pub open spec fn spec_cometix_content(c: CxLineConfig) -> bool {
    &&& c.style == StyleMode::NerdFont
    &&& c.separator@ == " │ "@
    &&& seg_like(
        c.segments.model,
        SegmentId::Model,
        "🤖"@,
        "\u{e26d}"@,
        spec_c16(14),
        spec_c16(14),
        None,
        true,
    )
    &&& seg_like(
        c.segments.directory,
        SegmentId::Directory,
        "📁"@,
        "\u{f024b}"@,
        spec_c16(11),
        spec_c16(10),
        None,
        true,
    )
    &&& seg_like(
        c.segments.git,
        SegmentId::Git,
        "🌿"@,
        "\u{f02a2}"@,
        spec_c16(12),
        spec_c16(12),
        None,
        true,
    )
    &&& seg_like(
        c.segments.context,
        SegmentId::Context,
        "⚡️"@,
        "\u{f49b}"@,
        spec_c16(13),
        spec_c16(13),
        None,
        true,
    )
    &&& seg_like(
        c.segments.usage,
        SegmentId::Usage,
        "📊"@,
        "\u{f0a9e}"@,
        spec_c16(14),
        spec_c16(14),
        None,
        false,
    )
}

pub open spec fn spec_minimal_content(c: CxLineConfig) -> bool {
    &&& c.style == StyleMode::Plain
    &&& c.separator@ == " │ "@
    &&& seg_like(
        c.segments.model,
        SegmentId::Model,
        "✽"@,
        "\u{f2d0}"@,
        spec_c16(14),
        spec_c16(14),
        None,
        false,
    )
    &&& seg_like(
        c.segments.directory,
        SegmentId::Directory,
        "◐"@,
        "\u{f024b}"@,
        spec_c16(11),
        spec_c16(10),
        None,
        false,
    )
    &&& seg_like(
        c.segments.git,
        SegmentId::Git,
        "※"@,
        "\u{f02a2}"@,
        spec_c16(12),
        spec_c16(12),
        None,
        false,
    )
    &&& seg_like(
        c.segments.context,
        SegmentId::Context,
        "◐"@,
        "\u{f49b}"@,
        spec_c16(13),
        spec_c16(13),
        None,
        false,
    )
    &&& seg_like(
        c.segments.usage,
        SegmentId::Usage,
        "📊"@,
        "\u{f0a9e}"@,
        spec_c16(14),
        spec_c16(14),
        None,
        false,
    )
}

pub open spec fn spec_gruvbox_content(c: CxLineConfig) -> bool {
    &&& c.style == StyleMode::NerdFont
    &&& c.separator@ == " │ "@
    &&& seg_like(
        c.segments.model,
        SegmentId::Model,
        "🤖"@,
        "\u{e26d}"@,
        spec_c256(208),
        spec_c256(208),
        None,
        true,
    )
    &&& seg_like(
        c.segments.directory,
        SegmentId::Directory,
        "📁"@,
        "\u{f024b}"@,
        spec_c256(142),
        spec_c256(142),
        None,
        true,
    )
    &&& seg_like(
        c.segments.git,
        SegmentId::Git,
        "🌿"@,
        "\u{f02a2}"@,
        spec_c256(109),
        spec_c256(109),
        None,
        true,
    )
    &&& seg_like(
        c.segments.context,
        SegmentId::Context,
        "⚡️"@,
        "\u{f49b}"@,
        spec_c16(5),
        spec_c16(5),
        None,
        true,
    )
    &&& seg_like(
        c.segments.usage,
        SegmentId::Usage,
        "📊"@,
        "\u{f0a9e}"@,
        spec_c16(14),
        spec_c16(14),
        None,
        false,
    )
}

/// A Powerline theme's five segments: the default icon pairs, a foreground
/// color used for both icon and text, and a background color, not bold.
pub open spec fn spec_powerline_segments(
    s: SegmentsConfig,
    fg_model: Option<AnsiColor>,
    bg_model: Option<AnsiColor>,
    fg_dir: Option<AnsiColor>,
    bg_dir: Option<AnsiColor>,
    fg_git: Option<AnsiColor>,
    bg_git: Option<AnsiColor>,
    fg_context: Option<AnsiColor>,
    bg_context: Option<AnsiColor>,
    fg_usage: Option<AnsiColor>,
    bg_usage: Option<AnsiColor>,
) -> bool {
    &&& seg_like(s.model, SegmentId::Model, "🤖"@, "\u{e26d}"@, fg_model, fg_model, bg_model, false)
    &&& seg_like(
        s.directory,
        SegmentId::Directory,
        "📁"@,
        "\u{f024b}"@,
        fg_dir,
        fg_dir,
        bg_dir,
        false,
    )
    &&& seg_like(s.git, SegmentId::Git, "🌿"@, "\u{f02a2}"@, fg_git, fg_git, bg_git, false)
    &&& seg_like(
        s.context,
        SegmentId::Context,
        "⚡️"@,
        "\u{f49b}"@,
        fg_context,
        fg_context,
        bg_context,
        false,
    )
    &&& seg_like(
        s.usage,
        SegmentId::Usage,
        "📊"@,
        "\u{f0a9e}"@,
        fg_usage,
        fg_usage,
        bg_usage,
        false,
    )
}

pub open spec fn spec_nord_content(c: CxLineConfig) -> bool {
    &&& c.style == StyleMode::Powerline
    &&& c.separator@ == "\u{e0b0}"@
    &&& spec_powerline_segments(
        c.segments,
        spec_rgb(46, 52, 64),
        spec_rgb(136, 192, 208),
        spec_rgb(46, 52, 64),
        spec_rgb(163, 190, 140),
        spec_rgb(46, 52, 64),
        spec_rgb(129, 161, 193),
        spec_rgb(46, 52, 64),
        spec_rgb(180, 142, 173),
        spec_rgb(46, 52, 64),
        spec_rgb(235, 203, 139),
    )
}

pub open spec fn spec_powerline_dark_content(c: CxLineConfig) -> bool {
    &&& c.style == StyleMode::Powerline
    &&& c.separator@ == "\u{e0b0}"@
    &&& spec_powerline_segments(
        c.segments,
        spec_rgb(255, 255, 255),
        spec_rgb(45, 45, 45),
        spec_rgb(255, 255, 255),
        spec_rgb(139, 69, 19),
        spec_rgb(255, 255, 255),
        spec_rgb(64, 64, 64),
        spec_rgb(209, 213, 219),
        spec_rgb(55, 65, 81),
        spec_rgb(209, 213, 219),
        spec_rgb(45, 50, 59),
    )
}

pub open spec fn spec_powerline_light_content(c: CxLineConfig) -> bool {
    &&& c.style == StyleMode::Powerline
    &&& c.separator@ == "\u{e0b0}"@
    &&& spec_powerline_segments(
        c.segments,
        spec_rgb(0, 0, 0),
        spec_rgb(135, 206, 235),
        spec_rgb(255, 255, 255),
        spec_rgb(255, 107, 71),
        spec_rgb(255, 255, 255),
        spec_rgb(79, 179, 217),
        spec_rgb(255, 255, 255),
        spec_rgb(107, 114, 128),
        spec_rgb(255, 255, 255),
        spec_rgb(40, 167, 69),
    )
}

pub open spec fn spec_powerline_rose_pine_content(c: CxLineConfig) -> bool {
    &&& c.style == StyleMode::Powerline
    &&& c.separator@ == "\u{e0b0}"@
    &&& spec_powerline_segments(
        c.segments,
        spec_rgb(235, 188, 186),
        spec_rgb(25, 23, 36),
        spec_rgb(196, 167, 231),
        spec_rgb(38, 35, 58),
        spec_rgb(156, 207, 216),
        spec_rgb(31, 29, 46),
        spec_rgb(224, 222, 244),
        spec_rgb(82, 79, 103),
        spec_rgb(246, 193, 119),
        spec_rgb(35, 33, 54),
    )
}

pub open spec fn spec_powerline_tokyo_night_content(c: CxLineConfig) -> bool {
    &&& c.style == StyleMode::Powerline
    &&& c.separator@ == "\u{e0b0}"@
    &&& spec_powerline_segments(
        c.segments,
        spec_rgb(252, 167, 234),
        spec_rgb(25, 27, 41),
        spec_rgb(130, 170, 255),
        spec_rgb(47, 51, 77),
        spec_rgb(195, 232, 141),
        spec_rgb(30, 32, 48),
        spec_rgb(192, 202, 245),
        spec_rgb(61, 89, 161),
        spec_rgb(224, 175, 104),
        spec_rgb(36, 40, 59),
    )
}

pub open spec fn is_default_theme(c: CxLineConfig) -> bool {
    c.enabled && c.theme@ == "default"@ && spec_default_content(c)
}

pub open spec fn is_cometix_theme(c: CxLineConfig) -> bool {
    c.enabled && c.theme@ == "cometix"@ && spec_cometix_content(c)
}

/// Whether a name is in the built-in theme catalog.
pub open spec fn spec_is_builtin_name(n: Seq<char>) -> bool {
    ||| n == "default"@
    ||| n == "cometix"@
    ||| n == "minimal"@
    ||| n == "gruvbox"@
    ||| n == "nord"@
    ||| n == "powerline-dark"@
    ||| n == "powerline-light"@
    ||| n == "powerline-rose-pine"@
    ||| n == "powerline-tokyo-night"@
}

/// The style-affecting content that each built-in name stands for.
pub open spec fn spec_builtin_content(n: Seq<char>, c: CxLineConfig) -> bool {
    &&& n == "default"@ ==> spec_default_content(c)
    &&& n == "cometix"@ ==> spec_cometix_content(c)
    &&& n == "minimal"@ ==> spec_minimal_content(c)
    &&& n == "gruvbox"@ ==> spec_gruvbox_content(c)
    &&& n == "nord"@ ==> spec_nord_content(c)
    &&& n == "powerline-dark"@ ==> spec_powerline_dark_content(c)
    &&& n == "powerline-light"@ ==> spec_powerline_light_content(c)
    &&& n == "powerline-rose-pine"@ ==> spec_powerline_rose_pine_content(c)
    &&& n == "powerline-tokyo-night"@ ==> spec_powerline_tokyo_night_content(c)
}

/// The nine catalog names are pairwise distinct: they differ in their first
/// character, or, within the powerline family, in the character after the
/// family prefix.
proof fn lemma_builtin_names_distinct()
    ensures
        "default"@ != "cometix"@,
        "default"@ != "minimal"@,
        "default"@ != "gruvbox"@,
        "default"@ != "nord"@,
        "default"@ != "powerline-dark"@,
        "default"@ != "powerline-light"@,
        "default"@ != "powerline-rose-pine"@,
        "default"@ != "powerline-tokyo-night"@,
        "cometix"@ != "minimal"@,
        "cometix"@ != "gruvbox"@,
        "cometix"@ != "nord"@,
        "cometix"@ != "powerline-dark"@,
        "cometix"@ != "powerline-light"@,
        "cometix"@ != "powerline-rose-pine"@,
        "cometix"@ != "powerline-tokyo-night"@,
        "minimal"@ != "gruvbox"@,
        "minimal"@ != "nord"@,
        "minimal"@ != "powerline-dark"@,
        "minimal"@ != "powerline-light"@,
        "minimal"@ != "powerline-rose-pine"@,
        "minimal"@ != "powerline-tokyo-night"@,
        "gruvbox"@ != "nord"@,
        "gruvbox"@ != "powerline-dark"@,
        "gruvbox"@ != "powerline-light"@,
        "gruvbox"@ != "powerline-rose-pine"@,
        "gruvbox"@ != "powerline-tokyo-night"@,
        "nord"@ != "powerline-dark"@,
        "nord"@ != "powerline-light"@,
        "nord"@ != "powerline-rose-pine"@,
        "nord"@ != "powerline-tokyo-night"@,
        "powerline-dark"@ != "powerline-light"@,
        "powerline-dark"@ != "powerline-rose-pine"@,
        "powerline-dark"@ != "powerline-tokyo-night"@,
        "powerline-light"@ != "powerline-rose-pine"@,
        "powerline-light"@ != "powerline-tokyo-night"@,
        "powerline-rose-pine"@ != "powerline-tokyo-night"@,
{
    reveal_strlit("default");
    reveal_strlit("cometix");
    reveal_strlit("minimal");
    reveal_strlit("gruvbox");
    reveal_strlit("nord");
    reveal_strlit("powerline-dark");
    reveal_strlit("powerline-light");
    reveal_strlit("powerline-rose-pine");
    reveal_strlit("powerline-tokyo-night");
    assert("default"@[0] == 'd');
    assert("cometix"@[0] == 'c');
    assert("minimal"@[0] == 'm');
    assert("gruvbox"@[0] == 'g');
    assert("nord"@[0] == 'n');
    assert("powerline-dark"@[0] == 'p');
    assert("powerline-light"@[0] == 'p');
    assert("powerline-rose-pine"@[0] == 'p');
    assert("powerline-tokyo-night"@[0] == 'p');
    assert("powerline-dark"@[10] == 'd');
    assert("powerline-light"@[10] == 'l');
    assert("powerline-rose-pine"@[10] == 'r');
    assert("powerline-tokyo-night"@[10] == 't');
}

fn seg_item(
    id: SegmentId,
    plain: &str,
    nerd: &str,
    icon: Option<AnsiColor>,
    text: Option<AnsiColor>,
    bg: Option<AnsiColor>,
    bold: bool,
) -> (s: SegmentItemConfig)
    ensures
        seg_like(s, id, plain@, nerd@, icon, text, bg, bold),
{
    SegmentItemConfig {
        id,
        enabled: true,
        icon: IconConfig::new(plain, nerd),
        colors: ColorConfig { icon, text, background: bg },
        styles: TextStyleConfig { text_bold: bold },
    }
}

fn powerline_theme(
    name: &str,
    fg_model: Option<AnsiColor>,
    bg_model: Option<AnsiColor>,
    fg_dir: Option<AnsiColor>,
    bg_dir: Option<AnsiColor>,
    fg_git: Option<AnsiColor>,
    bg_git: Option<AnsiColor>,
    fg_context: Option<AnsiColor>,
    bg_context: Option<AnsiColor>,
    fg_usage: Option<AnsiColor>,
    bg_usage: Option<AnsiColor>,
) -> (c: CxLineConfig)
    ensures
        c.enabled,
        c.theme@ == name@,
        c.style == StyleMode::Powerline,
        c.separator@ == "\u{e0b0}"@,
        spec_powerline_segments(
            c.segments,
            fg_model,
            bg_model,
            fg_dir,
            bg_dir,
            fg_git,
            bg_git,
            fg_context,
            bg_context,
            fg_usage,
            bg_usage,
        ),
{
    CxLineConfig {
        enabled: true,
        theme: name.to_owned(),
        style: StyleMode::Powerline,
        separator: "\u{e0b0}".to_owned(),
        segments: SegmentsConfig {
            model: seg_item(SegmentId::Model, "🤖", "\u{e26d}", fg_model, fg_model, bg_model, false),
            directory: seg_item(
                SegmentId::Directory,
                "📁",
                "\u{f024b}",
                fg_dir,
                fg_dir,
                bg_dir,
                false,
            ),
            git: seg_item(SegmentId::Git, "🌿", "\u{f02a2}", fg_git, fg_git, bg_git, false),
            context: seg_item(
                SegmentId::Context,
                "⚡️",
                "\u{f49b}",
                fg_context,
                fg_context,
                bg_context,
                false,
            ),
            usage: seg_item(
                SegmentId::Usage,
                "📊",
                "\u{f0a9e}",
                fg_usage,
                fg_usage,
                bg_usage,
                false,
            ),
        },
    }
}

/// The built-in theme catalog.
pub struct ThemePresets;

impl ThemePresets {
    /// The names of the built-in presets.
    pub fn theme_names() -> (r: Vec<&'static str>)
        ensures
            r@.len() == 9,
            forall|i: int| 0 <= i < 9 ==> spec_is_builtin_name(#[trigger] r@[i]@),
            r@[0]@ == "default"@,
            r@[1]@ == "cometix"@,
            r@[2]@ == "minimal"@,
            r@[3]@ == "gruvbox"@,
            r@[4]@ == "nord"@,
            r@[5]@ == "powerline-dark"@,
            r@[6]@ == "powerline-light"@,
            r@[7]@ == "powerline-rose-pine"@,
            r@[8]@ == "powerline-tokyo-night"@,
    {
        let mut v: Vec<&'static str> = Vec::new();
        v.push("default");
        v.push("cometix");
        v.push("minimal");
        v.push("gruvbox");
        v.push("nord");
        v.push("powerline-dark");
        v.push("powerline-light");
        v.push("powerline-rose-pine");
        v.push("powerline-tokyo-night");
        v
    }

    pub fn get_default() -> (c: CxLineConfig)
        ensures
            is_default_theme(c),
    {
        CxLineConfig {
            enabled: true,
            theme: "default".to_owned(),
            style: StyleMode::Plain,
            separator: " │ ".to_owned(),
            segments: SegmentsConfig {
                model: seg_item(
                    SegmentId::Model,
                    "🤖",
                    "\u{e26d}",
                    Some(AnsiColor::c16(14)),
                    Some(AnsiColor::c16(14)),
                    None,
                    false,
                ),
                directory: seg_item(
                    SegmentId::Directory,
                    "📁",
                    "\u{f024b}",
                    Some(AnsiColor::c16(11)),
                    Some(AnsiColor::c16(10)),
                    None,
                    false,
                ),
                git: seg_item(
                    SegmentId::Git,
                    "🌿",
                    "\u{f02a2}",
                    Some(AnsiColor::c16(12)),
                    Some(AnsiColor::c16(12)),
                    None,
                    false,
                ),
                context: seg_item(
                    SegmentId::Context,
                    "⚡️",
                    "\u{f49b}",
                    Some(AnsiColor::c16(13)),
                    Some(AnsiColor::c16(13)),
                    None,
                    false,
                ),
                usage: seg_item(
                    SegmentId::Usage,
                    "📊",
                    "\u{f0a9e}",
                    Some(AnsiColor::c16(14)),
                    Some(AnsiColor::c16(14)),
                    None,
                    false,
                ),
            },
        }
    }

    pub fn get_cometix() -> (c: CxLineConfig)
        ensures
            is_cometix_theme(c),
    {
        CxLineConfig {
            enabled: true,
            theme: "cometix".to_owned(),
            style: StyleMode::NerdFont,
            separator: " │ ".to_owned(),
            segments: SegmentsConfig {
                model: seg_item(
                    SegmentId::Model,
                    "🤖",
                    "\u{e26d}",
                    Some(AnsiColor::c16(14)),
                    Some(AnsiColor::c16(14)),
                    None,
                    true,
                ),
                directory: seg_item(
                    SegmentId::Directory,
                    "📁",
                    "\u{f024b}",
                    Some(AnsiColor::c16(11)),
                    Some(AnsiColor::c16(10)),
                    None,
                    true,
                ),
                git: seg_item(
                    SegmentId::Git,
                    "🌿",
                    "\u{f02a2}",
                    Some(AnsiColor::c16(12)),
                    Some(AnsiColor::c16(12)),
                    None,
                    true,
                ),
                context: seg_item(
                    SegmentId::Context,
                    "⚡️",
                    "\u{f49b}",
                    Some(AnsiColor::c16(13)),
                    Some(AnsiColor::c16(13)),
                    None,
                    true,
                ),
                usage: seg_item(
                    SegmentId::Usage,
                    "📊",
                    "\u{f0a9e}",
                    Some(AnsiColor::c16(14)),
                    Some(AnsiColor::c16(14)),
                    None,
                    false,
                ),
            },
        }
    }

    pub fn get_minimal() -> (c: CxLineConfig)
        ensures
            c.enabled,
            c.theme@ == "minimal"@,
            spec_minimal_content(c),
    {
        CxLineConfig {
            enabled: true,
            theme: "minimal".to_owned(),
            style: StyleMode::Plain,
            separator: " │ ".to_owned(),
            segments: SegmentsConfig {
                model: seg_item(
                    SegmentId::Model,
                    "✽",
                    "\u{f2d0}",
                    Some(AnsiColor::c16(14)),
                    Some(AnsiColor::c16(14)),
                    None,
                    false,
                ),
                directory: seg_item(
                    SegmentId::Directory,
                    "◐",
                    "\u{f024b}",
                    Some(AnsiColor::c16(11)),
                    Some(AnsiColor::c16(10)),
                    None,
                    false,
                ),
                git: seg_item(
                    SegmentId::Git,
                    "※",
                    "\u{f02a2}",
                    Some(AnsiColor::c16(12)),
                    Some(AnsiColor::c16(12)),
                    None,
                    false,
                ),
                context: seg_item(
                    SegmentId::Context,
                    "◐",
                    "\u{f49b}",
                    Some(AnsiColor::c16(13)),
                    Some(AnsiColor::c16(13)),
                    None,
                    false,
                ),
                usage: seg_item(
                    SegmentId::Usage,
                    "📊",
                    "\u{f0a9e}",
                    Some(AnsiColor::c16(14)),
                    Some(AnsiColor::c16(14)),
                    None,
                    false,
                ),
            },
        }
    }

    pub fn get_gruvbox() -> (c: CxLineConfig)
        ensures
            c.enabled,
            c.theme@ == "gruvbox"@,
            spec_gruvbox_content(c),
    {
        CxLineConfig {
            enabled: true,
            theme: "gruvbox".to_owned(),
            style: StyleMode::NerdFont,
            separator: " │ ".to_owned(),
            segments: SegmentsConfig {
                model: seg_item(
                    SegmentId::Model,
                    "🤖",
                    "\u{e26d}",
                    Some(AnsiColor::c256(208)),
                    Some(AnsiColor::c256(208)),
                    None,
                    true,
                ),
                directory: seg_item(
                    SegmentId::Directory,
                    "📁",
                    "\u{f024b}",
                    Some(AnsiColor::c256(142)),
                    Some(AnsiColor::c256(142)),
                    None,
                    true,
                ),
                git: seg_item(
                    SegmentId::Git,
                    "🌿",
                    "\u{f02a2}",
                    Some(AnsiColor::c256(109)),
                    Some(AnsiColor::c256(109)),
                    None,
                    true,
                ),
                context: seg_item(
                    SegmentId::Context,
                    "⚡️",
                    "\u{f49b}",
                    Some(AnsiColor::c16(5)),
                    Some(AnsiColor::c16(5)),
                    None,
                    true,
                ),
                usage: seg_item(
                    SegmentId::Usage,
                    "📊",
                    "\u{f0a9e}",
                    Some(AnsiColor::c16(14)),
                    Some(AnsiColor::c16(14)),
                    None,
                    false,
                ),
            },
        }
    }

    pub fn get_nord() -> (c: CxLineConfig)
        ensures
            c.enabled,
            c.theme@ == "nord"@,
            spec_nord_content(c),
    {
        powerline_theme(
            "nord",
            Some(AnsiColor::rgb(46, 52, 64)),
            Some(AnsiColor::rgb(136, 192, 208)),
            Some(AnsiColor::rgb(46, 52, 64)),
            Some(AnsiColor::rgb(163, 190, 140)),
            Some(AnsiColor::rgb(46, 52, 64)),
            Some(AnsiColor::rgb(129, 161, 193)),
            Some(AnsiColor::rgb(46, 52, 64)),
            Some(AnsiColor::rgb(180, 142, 173)),
            Some(AnsiColor::rgb(46, 52, 64)),
            Some(AnsiColor::rgb(235, 203, 139)),
        )
    }

    pub fn get_powerline_dark() -> (c: CxLineConfig)
        ensures
            c.enabled,
            c.theme@ == "powerline-dark"@,
            spec_powerline_dark_content(c),
    {
        powerline_theme(
            "powerline-dark",
            Some(AnsiColor::rgb(255, 255, 255)),
            Some(AnsiColor::rgb(45, 45, 45)),
            Some(AnsiColor::rgb(255, 255, 255)),
            Some(AnsiColor::rgb(139, 69, 19)),
            Some(AnsiColor::rgb(255, 255, 255)),
            Some(AnsiColor::rgb(64, 64, 64)),
            Some(AnsiColor::rgb(209, 213, 219)),
            Some(AnsiColor::rgb(55, 65, 81)),
            Some(AnsiColor::rgb(209, 213, 219)),
            Some(AnsiColor::rgb(45, 50, 59)),
        )
    }

    pub fn get_powerline_light() -> (c: CxLineConfig)
        ensures
            c.enabled,
            c.theme@ == "powerline-light"@,
            spec_powerline_light_content(c),
    {
        powerline_theme(
            "powerline-light",
            Some(AnsiColor::rgb(0, 0, 0)),
            Some(AnsiColor::rgb(135, 206, 235)),
            Some(AnsiColor::rgb(255, 255, 255)),
            Some(AnsiColor::rgb(255, 107, 71)),
            Some(AnsiColor::rgb(255, 255, 255)),
            Some(AnsiColor::rgb(79, 179, 217)),
            Some(AnsiColor::rgb(255, 255, 255)),
            Some(AnsiColor::rgb(107, 114, 128)),
            Some(AnsiColor::rgb(255, 255, 255)),
            Some(AnsiColor::rgb(40, 167, 69)),
        )
    }

    pub fn get_powerline_rose_pine() -> (c: CxLineConfig)
        ensures
            c.enabled,
            c.theme@ == "powerline-rose-pine"@,
            spec_powerline_rose_pine_content(c),
    {
        powerline_theme(
            "powerline-rose-pine",
            Some(AnsiColor::rgb(235, 188, 186)),
            Some(AnsiColor::rgb(25, 23, 36)),
            Some(AnsiColor::rgb(196, 167, 231)),
            Some(AnsiColor::rgb(38, 35, 58)),
            Some(AnsiColor::rgb(156, 207, 216)),
            Some(AnsiColor::rgb(31, 29, 46)),
            Some(AnsiColor::rgb(224, 222, 244)),
            Some(AnsiColor::rgb(82, 79, 103)),
            Some(AnsiColor::rgb(246, 193, 119)),
            Some(AnsiColor::rgb(35, 33, 54)),
        )
    }

    pub fn get_powerline_tokyo_night() -> (c: CxLineConfig)
        ensures
            c.enabled,
            c.theme@ == "powerline-tokyo-night"@,
            spec_powerline_tokyo_night_content(c),
    {
        powerline_theme(
            "powerline-tokyo-night",
            Some(AnsiColor::rgb(252, 167, 234)),
            Some(AnsiColor::rgb(25, 27, 41)),
            Some(AnsiColor::rgb(130, 170, 255)),
            Some(AnsiColor::rgb(47, 51, 77)),
            Some(AnsiColor::rgb(195, 232, 141)),
            Some(AnsiColor::rgb(30, 32, 48)),
            Some(AnsiColor::rgb(192, 202, 245)),
            Some(AnsiColor::rgb(61, 89, 161)),
            Some(AnsiColor::rgb(224, 175, 104)),
            Some(AnsiColor::rgb(36, 40, 59)),
        )
    }

    /// The built-in preset under the given name, `None` for a name outside
    /// the catalog.
    pub fn get_builtin(theme_name: &str) -> (r: Option<CxLineConfig>)
        ensures
            (r is Some) == spec_is_builtin_name(theme_name@),
            r matches Some(c) ==> c.enabled && c.theme@ == theme_name@ && spec_builtin_content(
                theme_name@,
                c,
            ),
    {
        proof {
            lemma_builtin_names_distinct();
        }
        if str_eq(theme_name, "default") {
            Some(Self::get_default())
        } else if str_eq(theme_name, "cometix") {
            Some(Self::get_cometix())
        } else if str_eq(theme_name, "minimal") {
            Some(Self::get_minimal())
        } else if str_eq(theme_name, "gruvbox") {
            Some(Self::get_gruvbox())
        } else if str_eq(theme_name, "nord") {
            Some(Self::get_nord())
        } else if str_eq(theme_name, "powerline-dark") {
            Some(Self::get_powerline_dark())
        } else if str_eq(theme_name, "powerline-light") {
            Some(Self::get_powerline_light())
        } else if str_eq(theme_name, "powerline-rose-pine") {
            Some(Self::get_powerline_rose_pine())
        } else if str_eq(theme_name, "powerline-tokyo-night") {
            Some(Self::get_powerline_tokyo_night())
        } else {
            None
        }
    }

    /// Resolves a theme name against the built-in catalog; a name outside
    /// the catalog resolves to the default preset.
    pub fn get_theme(theme_name: &str) -> (r: CxLineConfig)
        ensures
            r.enabled,
            spec_is_builtin_name(theme_name@) ==> r.theme@ == theme_name@ && spec_builtin_content(
                theme_name@,
                r,
            ),
            !spec_is_builtin_name(theme_name@) ==> is_default_theme(r),
    {
        match Self::get_builtin(theme_name) {
            Some(c) => c,
            None => Self::get_default(),
        }
    }
}

} // verus!
