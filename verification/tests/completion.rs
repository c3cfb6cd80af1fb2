//! Slash completion and idle suggestions.

use cairn_tui::completion::{
    completion_wants_trailing_space, compute_idle_suggestion, default_empty_suggestion,
    fuzzy_score, slash_completion_help, slash_completions, slash_ghost_suffix, SLASH_COMMANDS,
};
use cairn_tui::text::format_thought_label;
use cairn_tui::OutputLine;
use std::time::Duration;

fn line(type_: &str, content: &str, tool: &str) -> OutputLine {
    OutputLine {
        type_: type_.into(),
        content: content.into(),
        tool_name: tool.into(),
        duration: String::new(),
    }
}

fn base() -> Vec<String> {
    vec![
        "/auth".into(),
        "/clear".into(),
        "/help".into(),
        "/model".into(),
        "/provider".into(),
        "/reset".into(),
        "/resume".into(),
        "/delete".into(),
        "/suggestions".into(),
        "/theme".into(),
        "/thinking".into(),
        "/mouse".into(),
        "/copy".into(),
        "/select".into(),
    ]
}

fn all() -> Vec<String> {
    SLASH_COMMANDS.iter().map(|(c, _)| (*c).into()).collect()
}

fn ms(d: Duration) -> u64 {
    d.as_millis() as u64
}

#[test]
fn completion_suggestion_from_recent_user_and_tools() {
    let lines = vec![
        line("user", "please run the tests", ""),
        line("tool_use", r#"{"command":"cargo test"}"#, "shell"),
        line("tool_result", "ok", "shell"),
    ];
    let s = compute_idle_suggestion(&lines);
    assert!(
        s.to_ascii_lowercase().contains("command output"),
        "expected ready prompt about shell output, got {s}"
    );
    // Ready prompt, not a meta instruction to the user.
    assert!(!s.to_ascii_lowercase().starts_with("inspect"));
    assert!(!s.to_ascii_lowercase().starts_with("review"));
    assert!(!s.to_ascii_lowercase().starts_with("try again"));
}

#[test]
fn completion_suggestion_default_when_empty() {
    let s = compute_idle_suggestion(&[]);
    assert_eq!(s, default_empty_suggestion());
    assert!(
        s.chars()
            .next()
            .map(|c| c.is_ascii_uppercase())
            .unwrap_or(false),
        "ready prompts should read as imperative agent requests"
    );
}

#[test]
fn completion_suggestion_after_error_is_sendable_retry() {
    let lines = vec![line("error", "LLM error: boom", "")];
    let s = compute_idle_suggestion(&lines);
    assert!(s.to_ascii_lowercase().contains("retry"));
    assert!(!s.contains("/provider"));
}

#[test]
fn completion_fuzzy_matches_skipped_characters() {
    // The whole point: `/mdl` is not a prefix of anything.
    let c = slash_completions("/mdl", &base(), &[], &[], &[], &[]);
    assert_eq!(c, vec!["/model".to_string()]);
    let c = slash_completions("/thnk", &base(), &[], &[], &[], &[]);
    assert_eq!(c, vec!["/thinking".to_string()]);
}

#[test]
fn completion_fuzzy_rejects_out_of_order_and_absent_characters() {
    assert!(slash_completions("/ldom", &base(), &[], &[], &[], &[]).is_empty());
    assert!(slash_completions("/zzz", &base(), &[], &[], &[], &[]).is_empty());
}

#[test]
fn completion_tighter_matches_rank_first() {
    // /compact, /copy and /cost all prefix-match; the shortest wins.
    let c = slash_completions("/co", &all(), &[], &[], &[], &[]);
    assert_eq!(c.first().map(String::as_str), Some("/copy"), "{c:?}");
    assert!(c.contains(&"/compact".to_string()), "{c:?}");
}

#[test]
fn completion_fuzzy_ranks_arguments_too() {
    let models = vec!["opus-5".into(), "grok-4.5".into()];
    let c = slash_completions("/model g45", &base(), &models, &[], &[], &[]);
    assert_eq!(c, vec!["/model grok-4.5".to_string()]);
}

#[test]
fn completion_fuzzy_score_orders_prefix_above_subsequence() {
    let prefix = fuzzy_score("/model", "/mod").unwrap();
    let scattered = fuzzy_score("/model", "/mdl").unwrap();
    assert!(prefix > scattered, "{prefix} vs {scattered}");
    assert_eq!(fuzzy_score("/model", "/xyz"), None);
    // An empty query matches everything, so a bare `/` opens the full list.
    assert_eq!(fuzzy_score("/model", ""), Some(0));
}

#[test]
fn completion_bare_slash_lists_every_command_in_declared_order() {
    let c = slash_completions("/", &all(), &[], &[], &[], &[]);
    assert_eq!(c, all());
}

#[test]
fn completion_every_command_has_help_text() {
    for (cmd, help) in &SLASH_COMMANDS {
        assert!(!help.is_empty(), "{cmd} has no help text");
        assert_eq!(slash_completion_help(cmd), Some(*help));
    }
}

#[test]
fn completion_help_describes_argument_completions() {
    assert_eq!(
        slash_completion_help("/auth login"),
        Some("Sign in to a provider")
    );
    assert_eq!(slash_completion_help("/auth login xai"), Some("provider"));
    assert_eq!(slash_completion_help("/model grok-4.5"), Some("model"));
    assert_eq!(slash_completion_help("/theme dune"), Some("theme"));
    assert_eq!(
        slash_completion_help("/resume abc12345"),
        Some("session id")
    );
    assert_eq!(slash_completion_help("/thinking on"), Some("Enable"));
    assert_eq!(slash_completion_help("/mouse off"), Some("Disable"));
    assert_eq!(
        slash_completion_help("/reset list"),
        Some("List banked rate-limit resets")
    );
    assert_eq!(
        slash_completion_help("/reset apply"),
        Some("Apply a banked rate-limit reset")
    );
    assert_eq!(
        slash_completion_help("/reset status"),
        Some("Show rate-limit reset status")
    );
    assert_eq!(slash_completion_help("not a command"), None);
}

#[test]
fn completion_completes_suggestions_toggle() {
    let c = slash_completions("/sugg", &base(), &[], &[], &[], &[]);
    assert_eq!(c, vec!["/suggestions".to_string()]);
    let c = slash_completions("/suggestions ", &base(), &[], &[], &[], &[]);
    assert!(c.iter().any(|x| x == "/suggestions on"));
    assert!(c.iter().any(|x| x == "/suggestions off"));
}

#[test]
fn completion_completes_mouse_toggle() {
    let c = slash_completions("/mo", &base(), &[], &[], &[], &[]);
    // /model and /mouse both match /mo
    assert!(
        c.iter().any(|x| x == "/mouse") || c.iter().any(|x| x == "/model"),
        "{c:?}"
    );
    let c = slash_completions("/mouse ", &base(), &[], &[], &[], &[]);
    assert!(c.iter().any(|x| x == "/mouse on"));
    assert!(c.iter().any(|x| x == "/mouse off"));
}

#[test]
fn completion_thought_label_formats_duration() {
    assert_eq!(format_thought_label(None), "Thought");
    assert_eq!(
        format_thought_label(Some(ms(Duration::from_millis(40)))),
        "Thought briefly"
    );
    assert_eq!(
        format_thought_label(Some(ms(Duration::from_secs(3)))),
        "Thought for 3s"
    );
    assert_eq!(
        format_thought_label(Some(ms(Duration::from_secs(65)))),
        "Thought for 1m 5s"
    );
}

#[test]
fn completion_completes_thinking_toggle() {
    let c = slash_completions("/thin", &base(), &[], &[], &[], &[]);
    assert_eq!(c, vec!["/thinking".to_string()]);
    let c = slash_completions("/thinking ", &base(), &[], &[], &[], &[]);
    assert!(c.iter().any(|x| x == "/thinking on"));
    assert!(c.iter().any(|x| x == "/thinking off"));
}

#[test]
fn completion_completes_root_command_prefix() {
    let c = slash_completions("/mo", &base(), &[], &[], &[], &[]);
    assert!(c.contains(&"/model".to_string()), "{c:?}");
    assert!(c.contains(&"/mouse".to_string()), "{c:?}");
    let c = slash_completions("/mod", &base(), &[], &[], &[], &[]);
    assert_eq!(c, vec!["/model".to_string()]);
}

#[test]
fn completion_ghost_suffix_for_partial_command() {
    assert_eq!(slash_ghost_suffix("/e", "/exit").as_deref(), Some("xit"));
    assert_eq!(
        slash_ghost_suffix("/auth lo", "/auth login").as_deref(),
        Some("gin")
    );
    assert_eq!(slash_ghost_suffix("/exit", "/exit"), None);
    assert_eq!(slash_ghost_suffix("/z", "/exit"), None);
}

#[test]
fn completion_completes_auth_subcommands() {
    let c = slash_completions("/auth ", &base(), &[], &[], &[], &[]);
    assert!(c.iter().any(|x| x == "/auth login"));
    assert!(c.iter().any(|x| x == "/auth status"));
    let c = slash_completions("/auth lo", &base(), &[], &[], &[], &[]);
    assert_eq!(
        c,
        vec!["/auth login".to_string(), "/auth logout".to_string()]
    );
}

#[test]
fn completion_completes_auth_login_provider() {
    let providers = vec!["anthropic".into(), "xai".into()];
    let c = slash_completions("/auth login ", &base(), &[], &providers, &[], &[]);
    assert!(c.iter().any(|x| x == "/auth login xai"));
    let c = slash_completions("/auth login x", &base(), &[], &providers, &[], &[]);
    assert_eq!(c, vec!["/auth login xai".to_string()]);
}

#[test]
fn completion_completes_reset_subcommands() {
    let c = slash_completions("/re", &base(), &[], &[], &[], &[]);
    assert!(c.contains(&"/reset".to_string()), "{c:?}");
    let c = slash_completions("/reset ", &base(), &[], &[], &[], &[]);
    assert!(c.iter().any(|x| x == "/reset list"));
    assert!(c.iter().any(|x| x == "/reset apply"));
    let c = slash_completions("/reset a", &base(), &[], &[], &[], &[]);
    assert_eq!(c, vec!["/reset apply".to_string()]);
}

#[test]
fn completion_completes_models_and_themes() {
    let models = vec!["grok-4.5:high".into(), "grok-4.3".into()];
    let c = slash_completions("/model grok-4.5", &base(), &models, &[], &[], &[]);
    assert_eq!(c, vec!["/model grok-4.5:high".to_string()]);
    let themes = vec!["dark".into(), "dune".into()];
    let c = slash_completions("/theme d", &base(), &[], &[], &themes, &[]);
    assert!(c.iter().any(|x| x == "/theme dark"));
    assert!(c.iter().any(|x| x == "/theme dune"));
}

#[test]
fn completion_completes_session_ids_for_resume() {
    let sessions = vec!["abcdef12".into(), "abcdef99".into(), "deadbeef".into()];
    let c = slash_completions("/resume abc", &base(), &[], &[], &[], &sessions);
    assert_eq!(
        c,
        vec![
            "/resume abcdef12".to_string(),
            "/resume abcdef99".to_string()
        ]
    );
}

#[test]
fn completion_trailing_space_helpers() {
    assert!(completion_wants_trailing_space("/auth login"));
    assert!(!completion_wants_trailing_space("/auth login xai"));
    assert!(!completion_wants_trailing_space("/help"));
}
