use cxline::config::CxLineConfig;
use cxline::segment::SegmentData;
use cxline::segment::SegmentId;
use cxline::style::AnsiColor;
use cxline::style::ColorConfig;
use cxline::style::ColorFields;
use cxline::style::IconConfig;
use cxline::style::StyleMode;
use cxline::themes::ThemePresets;

#[test]
fn color_constructors() {
    assert_eq!(AnsiColor::c16(3), AnsiColor::Color16 { c16: 3 });
    assert_eq!(AnsiColor::c256(200), AnsiColor::Color256 { c256: 200 });
    assert_eq!(AnsiColor::rgb(1, 2, 3), AnsiColor::Rgb { r: 1, g: 2, b: 3 });
}

#[test]
fn color_fields_round_trip() {
    for color in [
        AnsiColor::Color16 { c16: 0 },
        AnsiColor::Color16 { c16: 15 },
        AnsiColor::Color256 { c256: 208 },
        AnsiColor::Rgb { r: 46, g: 52, b: 64 },
    ] {
        assert_eq!(AnsiColor::from_fields(&color.to_fields()), Some(color));
    }
}

#[test]
fn color_fields_disambiguation() {
    let empty = ColorFields { c16: None, c256: None, r: None, g: None, b: None };
    assert_eq!(AnsiColor::from_fields(&empty), None);
    // a lone pair of RGB fields is not a color
    let partial = ColorFields { c16: None, c256: None, r: Some(1), g: Some(2), b: None };
    assert_eq!(AnsiColor::from_fields(&partial), None);
    // the field names pick the representation, in a fixed order
    let both = ColorFields { c16: Some(3), c256: Some(7), r: None, g: None, b: None };
    assert_eq!(AnsiColor::from_fields(&both), Some(AnsiColor::Color16 { c16: 3 }));
}

#[test]
fn icon_config_per_mode() {
    let ic = IconConfig::new("🤖", "\u{e26d}");
    assert_eq!(ic.get(StyleMode::Plain), "🤖");
    assert_eq!(ic.get(StyleMode::NerdFont), "\u{e26d}");
    assert_eq!(ic.get(StyleMode::Powerline), "\u{e26d}");
}

#[test]
fn color_config_builders() {
    let cc = ColorConfig::new(AnsiColor::c16(1), AnsiColor::c16(2)).with_background(
        AnsiColor::c16(3),
    );
    assert_eq!(cc.icon, Some(AnsiColor::Color16 { c16: 1 }));
    assert_eq!(cc.text, Some(AnsiColor::Color16 { c16: 2 }));
    assert_eq!(cc.background, Some(AnsiColor::Color16 { c16: 3 }));
}

#[test]
fn builtin_theme_catalog() {
    assert_eq!(ThemePresets::theme_names().len(), 9);
    assert!(ThemePresets::get_builtin("nord").is_some());
    assert!(ThemePresets::get_builtin("no-such-theme").is_none());
    let nord = ThemePresets::get_theme("nord");
    assert_eq!(nord.style, StyleMode::Powerline);
    assert_eq!(nord.separator, "\u{e0b0}");
    assert_eq!(nord.theme, "nord");
    let fallback = ThemePresets::get_theme("no-such-theme");
    assert_eq!(fallback.theme, "default");
    assert_eq!(fallback.style, StyleMode::Plain);
}

#[test]
fn default_config_is_cometix() {
    let config = CxLineConfig::default();
    assert_eq!(config.theme, "cometix");
    assert_eq!(config.style, StyleMode::NerdFont);
    assert!(config.enabled);
    assert!(config.segments.model.styles.text_bold);
    assert!(!config.segments.usage.styles.text_bold);
}

#[test]
fn apply_theme_overwrites_style_fields() {
    let mut config = CxLineConfig::default();
    config.enabled = false;
    config.apply_theme("gruvbox");
    assert_eq!(config.theme, "gruvbox");
    assert_eq!(config.style, StyleMode::NerdFont);
    assert_eq!(
        config.segments.model.colors.text,
        Some(AnsiColor::Color256 { c256: 208 }),
    );
    // the master switch is not a style field: it stays
    assert!(!config.enabled);
    // an unknown name applies the default preset under that name
    config.apply_theme("wat");
    assert_eq!(config.theme, "wat");
    assert_eq!(config.style, StyleMode::Plain);
}

#[test]
fn segment_config_lookup() {
    let mut config = CxLineConfig::default();
    assert_eq!(config.get_segment_config(SegmentId::Model).id, SegmentId::Model);
    assert_eq!(config.get_segment_config(SegmentId::Usage).id, SegmentId::Usage);
    let mut git = config.get_segment_config(SegmentId::Git).clone();
    git.enabled = false;
    git.styles.text_bold = false;
    config.set_segment_config(SegmentId::Git, git);
    assert!(!config.get_segment_config(SegmentId::Git).enabled);
    assert!(config.get_segment_config(SegmentId::Model).enabled);
}

#[test]
fn metadata_insert_and_replace() {
    let data = SegmentData::new("x").with_metadata("k", "1").with_metadata("j", "2");
    assert_eq!(data.metadata_get("k").unwrap(), "1");
    assert_eq!(data.metadata_get("j").unwrap(), "2");
    assert!(data.metadata_get("missing").is_none());
    let data = data.with_metadata("k", "3");
    assert_eq!(data.metadata_get("k").unwrap(), "3");
    assert_eq!(data.metadata.len(), 2);
}

#[test]
fn stock_icons() {
    assert_eq!(cxline::icons::model().plain, "🤖");
    assert_eq!(cxline::icons::directory().nerd_font, "\u{f07c}");
    assert_eq!(cxline::icons::git().plain, "🔀");
    assert_eq!(cxline::icons::context().nerd_font, "\u{f080}");
    assert_eq!(cxline::icons::usage().plain, "⏱");
}
