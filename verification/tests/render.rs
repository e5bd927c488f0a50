use cxline::config::CxLineConfig;
use cxline::renderer::StatusLineRenderer;
use cxline::segment::SegmentData;
use cxline::segment::SegmentId;
use cxline::statusline::StatusLineContext;
use cxline::statusline::build_statusline;
use cxline::style::AnsiColor;
use cxline::style::StyleMode;
use cxline::themes::ThemePresets;

fn two_segment_config(theme: &str) -> CxLineConfig {
    let mut config = ThemePresets::get_theme(theme);
    let mut git = config.get_segment_config(SegmentId::Git).clone();
    git.enabled = false;
    config.set_segment_config(SegmentId::Git, git);
    let mut context = config.get_segment_config(SegmentId::Context).clone();
    context.enabled = false;
    config.set_segment_config(SegmentId::Context, context);
    let mut usage = config.get_segment_config(SegmentId::Usage).clone();
    usage.enabled = false;
    config.set_segment_config(SegmentId::Usage, usage);
    config
}

#[test]
fn plain_render_two_segments() {
    let config = two_segment_config("default");
    let mut renderer = StatusLineRenderer::new(&config);
    renderer.add_segment(SegmentId::Model, SegmentData::new("gpt"));
    renderer.add_segment(SegmentId::Directory, SegmentData::new("codex"));
    let spans = renderer.render_line();
    // icon, primary, separator, icon, primary
    assert_eq!(spans.len(), 5);
    assert_eq!(spans[0].text, "🤖 ");
    assert_eq!(spans[1].text, "gpt");
    assert_eq!(spans[2].text, " │ ");
    assert!(spans[2].style.dim);
    assert_eq!(spans[3].text, "📁 ");
    assert_eq!(spans[4].text, "codex");
    assert_eq!(spans[1].style.fg, Some(AnsiColor::Color16 { c16: 14 }));
    assert_eq!(spans[1].style.bg, None);
}

#[test]
fn plain_render_uses_configured_separator() {
    let mut config = two_segment_config("default");
    config.separator = " • ".to_string();
    let mut renderer = StatusLineRenderer::new(&config);
    renderer.add_segment(SegmentId::Model, SegmentData::new("gpt"));
    renderer.add_segment(SegmentId::Directory, SegmentData::new("codex"));
    let spans = renderer.render_line();
    assert_eq!(spans[2].text, " • ");
}

#[test]
fn plain_render_skips_disabled_segment() {
    let config = two_segment_config("default");
    let mut renderer = StatusLineRenderer::new(&config);
    renderer.add_segment(SegmentId::Model, SegmentData::new("gpt"));
    renderer.add_segment(SegmentId::Git, SegmentData::new("main"));
    let spans = renderer.render_line();
    assert_eq!(spans.len(), 2);
    assert_eq!(spans[1].text, "gpt");
}

#[test]
fn plain_render_secondary_and_bold() {
    let config = ThemePresets::get_theme("cometix");
    let mut renderer = StatusLineRenderer::new(&config);
    renderer.add_segment(
        SegmentId::Git,
        SegmentData::new("main").with_secondary("✓ ↑1"),
    );
    let spans = renderer.render_line();
    assert_eq!(spans.len(), 3);
    assert_eq!(spans[1].text, "main");
    assert!(spans[1].style.bold);
    assert_eq!(spans[2].text, " ✓ ↑1");
    assert!(spans[2].style.bold);
}

#[test]
fn dynamic_icon_overrides_configured_icon() {
    let config = ThemePresets::get_theme("default");
    let mut renderer = StatusLineRenderer::new(&config);
    renderer.add_segment(
        SegmentId::Usage,
        SegmentData::new("51%").with_metadata("dynamic_icon", "\u{f0aa1}"),
    );
    let spans = renderer.render_line();
    assert_eq!(spans[0].text, "\u{f0aa1} ");
}

#[test]
fn empty_dynamic_icon_falls_back_to_configured() {
    let config = ThemePresets::get_theme("default");
    let mut renderer = StatusLineRenderer::new(&config);
    renderer.add_segment(
        SegmentId::Usage,
        SegmentData::new("51%").with_metadata("dynamic_icon", ""),
    );
    let spans = renderer.render_line();
    assert_eq!(spans[0].text, "📊 ");
}

#[test]
fn powerline_two_segments_one_arrow() {
    let config = two_segment_config("nord");
    assert_eq!(config.style, StyleMode::Powerline);
    let mut renderer = StatusLineRenderer::new(&config);
    renderer.add_segment(SegmentId::Model, SegmentData::new("gpt"));
    renderer.add_segment(SegmentId::Directory, SegmentData::new("codex"));
    let spans = renderer.render_line();
    let arrows: Vec<_> = spans.iter().filter(|s| s.text == "\u{e0b0}").collect();
    assert_eq!(arrows.len(), 1);
    // the arrow bridges the two background colors
    assert_eq!(arrows[0].style.fg, Some(AnsiColor::Rgb { r: 136, g: 192, b: 208 }));
    assert_eq!(arrows[0].style.bg, Some(AnsiColor::Rgb { r: 163, g: 190, b: 140 }));
}

#[test]
fn powerline_single_segment_no_arrow() {
    let config = two_segment_config("nord");
    let mut renderer = StatusLineRenderer::new(&config);
    renderer.add_segment(SegmentId::Model, SegmentData::new("gpt"));
    let spans = renderer.render_line();
    assert!(spans.iter().all(|s| s.text != "\u{e0b0}"));
}

#[test]
fn powerline_segment_span_shape() {
    let config = two_segment_config("nord");
    let mut renderer = StatusLineRenderer::new(&config);
    renderer.add_segment(SegmentId::Model, SegmentData::new("gpt"));
    let spans = renderer.render_line();
    // padding, icon, primary, padding
    assert_eq!(spans.len(), 4);
    assert_eq!(spans[0].text, " ");
    assert_eq!(spans[0].style.bg, Some(AnsiColor::Rgb { r: 136, g: 192, b: 208 }));
    assert_eq!(spans[1].text, "\u{e26d} ");
    assert_eq!(spans[2].text, "gpt");
    assert_eq!(spans[3].text, " ");
}

#[test]
fn build_statusline_full_line() {
    let config = ThemePresets::get_theme("default");
    let ctx = StatusLineContext::new("gpt-5", "/home/user/projects/codex")
        .with_context(Some(500000), Some(1000000))
        .with_rate_limit(Some(420), None)
        .with_git_preview("main", "✓", 0, 0);
    let renderer = build_statusline(&config, &ctx);
    let ids: Vec<SegmentId> = renderer.segments.iter().map(|p| p.0).collect();
    assert_eq!(
        ids,
        vec![
            SegmentId::Model,
            SegmentId::Directory,
            SegmentId::Git,
            SegmentId::Context,
            SegmentId::Usage,
        ],
    );
    let spans = renderer.render_line();
    let line: String = spans.iter().map(|s| s.text.as_str()).collect::<Vec<_>>().join("");
    assert!(line.contains("gpt-5"));
    assert!(line.contains("codex"));
    assert!(line.contains("main"));
    assert!(line.contains("50% · 500.0k tokens"));
    assert!(line.contains("42%"));
}

#[test]
fn build_statusline_omits_absent_segments() {
    let config = ThemePresets::get_theme("default");
    let ctx = StatusLineContext::new("gpt", "/tmp");
    let renderer = build_statusline(&config, &ctx);
    let ids: Vec<SegmentId> = renderer.segments.iter().map(|p| p.0).collect();
    // no version-control snapshot and no rate limit: those segments are absent
    assert_eq!(ids, vec![SegmentId::Model, SegmentId::Directory, SegmentId::Context]);
}
