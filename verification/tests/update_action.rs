use cxline::update_action::UpdateAction;
use cxline::update_action::detect_update_action;

#[test]
fn detects_update_action_without_env_mutation() {
    // Default to npm when no manager is detected
    assert_eq!(
        detect_update_action(false, false),
        Some(UpdateAction::NpmGlobalLatest)
    );
    // npm managed
    assert_eq!(
        detect_update_action(true, false),
        Some(UpdateAction::NpmGlobalLatest)
    );
    // bun managed
    assert_eq!(
        detect_update_action(false, true),
        Some(UpdateAction::BunGlobalLatest)
    );
    // npm takes precedence over bun
    assert_eq!(
        detect_update_action(true, true),
        Some(UpdateAction::NpmGlobalLatest)
    );
}

#[test]
fn command_args_per_action() {
    let (cmd, args) = UpdateAction::NpmGlobalLatest.command_args();
    assert_eq!(cmd, "npm");
    assert_eq!(args, vec!["install", "-g", "@cometix/codex"]);
    let (cmd, args) = UpdateAction::BunGlobalLatest.command_args();
    assert_eq!(cmd, "bun");
    assert_eq!(args, vec!["install", "-g", "@cometix/codex"]);
}

#[test]
fn command_str_is_shell_quoted_line() {
    // every word of the command is shell-safe, so the quoted line is the
    // plain words joined by spaces
    assert_eq!(
        UpdateAction::NpmGlobalLatest.command_str(),
        "npm install -g @cometix/codex"
    );
    assert_eq!(
        UpdateAction::BunGlobalLatest.command_str(),
        "bun install -g @cometix/codex"
    );
}
