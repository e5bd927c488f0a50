use cxline::segments::context::ContextSegment;
use cxline::segments::context::format_tokens;
use cxline::segments::directory::DirectorySegment;
use cxline::segments::directory::extract_directory_name;
use cxline::segments::git::GitSegment;
use cxline::segments::git::GitStatus;
use cxline::segments::git::parse_git_status;
use cxline::segments::model::ModelSegment;
use cxline::segments::usage::UsageSegment;
use cxline::segments::usage::get_circle_icon;
use cxline::statusline::StatusLineContext;

#[test]
fn test_format_tokens() {
    assert_eq!(format_tokens(500), "500");
    assert_eq!(format_tokens(1500), "1.5k");
    assert_eq!(format_tokens(150000), "150.0k");
    assert_eq!(format_tokens(1500000), "1.5M");
}

#[test]
fn format_tokens_edges() {
    assert_eq!(format_tokens(0), "0");
    assert_eq!(format_tokens(999), "999");
    assert_eq!(format_tokens(1000), "1.0k");
    assert_eq!(format_tokens(999999), "1000.0k");
    assert_eq!(format_tokens(1000000), "1.0M");
    assert_eq!(format_tokens(-42), "-42");
}

#[test]
fn test_extract_directory_name() {
    assert_eq!(extract_directory_name("/home/user/projects/codex"), "codex");
    assert_eq!(extract_directory_name("/home/user"), "user");
    assert_eq!(extract_directory_name("/"), "/");
    assert_eq!(extract_directory_name("some/path"), "path");
}

#[test]
fn directory_name_edges() {
    assert_eq!(extract_directory_name(""), "");
    assert_eq!(extract_directory_name("///"), "/");
    assert_eq!(extract_directory_name("usr/"), "usr");
    assert_eq!(extract_directory_name("a"), "a");
}

#[test]
fn test_get_circle_icon() {
    assert_eq!(get_circle_icon(0), "\u{f0a9e}");
    assert_eq!(get_circle_icon(50), "\u{f0aa1}");
    assert_eq!(get_circle_icon(100), "\u{f0aa5}");
}

#[test]
fn circle_icon_buckets() {
    assert_eq!(get_circle_icon(12), "\u{f0a9e}");
    assert_eq!(get_circle_icon(13), "\u{f0a9f}");
    assert_eq!(get_circle_icon(25), "\u{f0a9f}");
    assert_eq!(get_circle_icon(26), "\u{f0aa0}");
    assert_eq!(get_circle_icon(37), "\u{f0aa0}");
    assert_eq!(get_circle_icon(38), "\u{f0aa1}");
    assert_eq!(get_circle_icon(51), "\u{f0aa2}");
    assert_eq!(get_circle_icon(62), "\u{f0aa2}");
    assert_eq!(get_circle_icon(63), "\u{f0aa3}");
    assert_eq!(get_circle_icon(75), "\u{f0aa3}");
    assert_eq!(get_circle_icon(76), "\u{f0aa4}");
    assert_eq!(get_circle_icon(87), "\u{f0aa4}");
    assert_eq!(get_circle_icon(88), "\u{f0aa5}");
    // the three probes of the utilization range map to distinct glyphs
    assert_ne!(get_circle_icon(0), get_circle_icon(50));
    assert_ne!(get_circle_icon(50), get_circle_icon(100));
    assert_ne!(get_circle_icon(0), get_circle_icon(100));
}

#[test]
fn context_segment_full() {
    let ctx = StatusLineContext::new("gpt", "/tmp").with_context(Some(500000), Some(1000000));
    let data = ContextSegment.collect(&ctx).unwrap();
    assert_eq!(data.primary, "50% · 500.0k tokens");
    assert_eq!(data.secondary, "");
    assert_eq!(data.metadata_get("percent").unwrap(), "50");
    assert_eq!(data.metadata_get("tokens").unwrap(), "500000");
    assert_eq!(data.metadata_get("type").unwrap(), "full");
}

#[test]
fn context_segment_placeholder() {
    let ctx = StatusLineContext::new("gpt", "/tmp");
    let data = ContextSegment.collect(&ctx).unwrap();
    assert_eq!(data.primary, "- · - tokens");
    assert_eq!(data.metadata_get("percent").unwrap(), "-");
    assert_eq!(data.metadata_get("tokens").unwrap(), "-");
    assert_eq!(data.metadata_get("type").unwrap(), "placeholder");
}

#[test]
fn context_segment_tokens_only() {
    let ctx = StatusLineContext::new("gpt", "/tmp").with_context(Some(1500), None);
    let data = ContextSegment.collect(&ctx).unwrap();
    assert_eq!(data.primary, "1.5k tokens");
    assert_eq!(data.metadata_get("type").unwrap(), "tokens");
    assert!(data.metadata_get("percent").is_none());
}

#[test]
fn context_segment_zero_window() {
    let ctx = StatusLineContext::new("gpt", "/tmp").with_context(Some(1500), Some(0));
    let data = ContextSegment.collect(&ctx).unwrap();
    assert_eq!(data.primary, "1.5k tokens");
}

#[test]
fn directory_segment_collect() {
    let ctx = StatusLineContext::new("gpt", "/home/user/projects/codex");
    let data = DirectorySegment.collect(&ctx).unwrap();
    assert_eq!(data.primary, "codex");
    assert_eq!(data.metadata_get("full_path").unwrap(), "/home/user/projects/codex");
    let empty = StatusLineContext::new("gpt", "");
    assert!(DirectorySegment.collect(&empty).is_none());
}

#[test]
fn model_segment_collect() {
    let ctx = StatusLineContext::new("gpt-5", "/tmp");
    let data = ModelSegment.collect(&ctx).unwrap();
    assert_eq!(data.primary, "gpt-5");
    let unnamed = StatusLineContext::new("", "/tmp");
    assert!(ModelSegment.collect(&unnamed).is_none());
}

#[test]
fn usage_segment_collect() {
    let ctx = StatusLineContext::new("gpt", "/tmp").with_rate_limit(
        Some(505),
        Some("3pm".to_string()),
    );
    let data = UsageSegment.collect(&ctx).unwrap();
    assert_eq!(data.primary, "51%");
    assert_eq!(data.secondary, "· 3pm");
    assert_eq!(data.metadata_get("percent").unwrap(), "50.5");
    assert_eq!(data.metadata_get("dynamic_icon").unwrap(), "\u{f0aa1}");
    assert_eq!(data.metadata_get("resets_at").unwrap(), "3pm");
    let quiet = StatusLineContext::new("gpt", "/tmp");
    assert!(UsageSegment.collect(&quiet).is_none());
}

#[test]
fn git_segment_collect_preview() {
    let ctx = StatusLineContext::new("gpt", "/tmp").with_git_preview("main", "✓", 2, 0);
    let data = GitSegment.collect(&ctx).unwrap();
    assert_eq!(data.primary, "main");
    assert_eq!(data.secondary, "✓ ↑2");
    assert_eq!(data.metadata_get("branch").unwrap(), "main");
    assert_eq!(data.metadata_get("status").unwrap(), "✓");
    assert_eq!(data.metadata_get("ahead").unwrap(), "2");
    assert_eq!(data.metadata_get("behind").unwrap(), "0");
}

#[test]
fn git_segment_blank_preview() {
    let ctx = StatusLineContext::new("gpt", "/tmp").with_git_preview("", "", 0, 0);
    assert!(GitSegment.collect(&ctx).is_none());
    let none = StatusLineContext::new("gpt", "/tmp");
    assert!(GitSegment.collect(&none).is_none());
}

#[test]
fn git_segment_ahead_behind() {
    let ctx = StatusLineContext::new("gpt", "/tmp").with_git_preview("dev", "●", 1, 3);
    let data = GitSegment.collect(&ctx).unwrap();
    assert_eq!(data.secondary, "● ↑1 ↓3");
}

#[test]
fn parse_git_status_cases() {
    assert_eq!(parse_git_status(""), GitStatus::Clean);
    assert_eq!(parse_git_status("  \n"), GitStatus::Clean);
    assert_eq!(parse_git_status(" M file.rs\n"), GitStatus::Dirty);
    assert_eq!(parse_git_status("UU conflicted.rs\n"), GitStatus::Conflicts);
    assert_eq!(parse_git_status("AA both.rs\n"), GitStatus::Conflicts);
    assert_eq!(parse_git_status("DD gone.rs\n"), GitStatus::Conflicts);
}
