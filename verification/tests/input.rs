//! Keys, pasting and the permission prompt.

use cairn_tui::host::{Credentials, Host, Platform, Provider};
use cairn_tui::keys::{KeyCode, KeyEvent};
use cairn_tui::llm::ModelInfo;
use cairn_tui::request::Request;
use cairn_tui::text::{
    char_width, display_width, format_elapsed_compact, pad_to_display_width,
    sanitize_paste_for_composer,
};
use cairn_tui::theme::Theme;
use cairn_tui::Tui;
use std::sync::atomic::Ordering;
use std::sync::mpsc;
use std::time::Duration;

fn model(id: &str) -> ModelInfo {
    ModelInfo { id: id.into(), name: id.into(), max_ctx: 8192 }
}

fn credentials(provider: &str, needs_credential: bool) -> Credentials {
    Credentials {
        provider: provider.into(),
        needs_credential,
        usable_credential: !needs_credential,
        requires_api_key: needs_credential,
        supports_oauth: false,
        config_has_api_key: false,
        env_var: None,
        env_key_set: false,
    }
}

fn theme(name: &str) -> Theme {
    Theme { name: name.into(), label: name.into() }
}

fn host() -> Host {
    Host {
        providers: vec![
            Provider {
                name: "anthropic".into(),
                models: vec![model("opus")],
                default_model: "opus".into(),
            },
            Provider {
                name: "ollama".into(),
                models: vec![model("llama3.2"), model("mistral")],
                default_model: "llama3.2".into(),
            },
        ],
        credentials: vec![credentials("anthropic", true), credentials("ollama", false)],
        unlisted: credentials("", true),
        themes: vec![theme("dark"), theme("dune")],
        default_theme: theme("dark"),
        sessions: vec![],
        sessions_dir: "/tmp/sessions".into(),
        fresh_session_id: "fresh".into(),
        now_ns: 1_000_000_000,
        unix_secs: 1_700_000_000,
        term_lines: None,
        platform: Platform::Unix,
        cost_text: "$0.00".into(),
        cost_positive: false,
    }
}

/// Does what the UI has asked for, as a program around it would.
fn settle(tui: &mut Tui) {
    for request in tui.take_requests() {
        match request {
            Request::Agent(command) => {
                if let Some(tx) = &tui.links.agent_tx {
                    tx.send(command).unwrap();
                }
            }
            Request::Permission(decision) => {
                if let Some(tx) = &tui.links.perm_tx {
                    tx.send(decision).unwrap();
                }
            }
            Request::SetCancel(on) => {
                if let Some(flag) = &tui.links.cancel_flag {
                    flag.store(on, Ordering::Relaxed);
                }
            }
            Request::SaveProviderModel { provider, model } => {
                tui.apply_provider_model_selection(provider, model, Ok(()));
                settle(tui);
            }
            _ => {}
        }
    }
}

fn press(tui: &mut Tui, code: KeyCode) -> bool {
    let goes_on = tui.handle_key(KeyEvent::plain(code));
    settle(tui);
    goes_on
}

fn press_control(tui: &mut Tui, code: KeyCode) -> bool {
    let goes_on = tui.handle_key(KeyEvent::with_control(code));
    settle(tui);
    goes_on
}

fn prompt_tui() -> (Tui, mpsc::Receiver<String>) {
    let mut tui = Tui::new("test", "model", "provider", ".", host());
    let (tx, rx) = mpsc::channel();
    tui.set_perm_tx(tx);
    tui.permission.show_permission_prompt = true;
    tui.permission.perm_tool_name = "shell".into();
    tui.permission.perm_tool_input = r#"{"command":"echo hi"}"#.into();
    tui.permission.perm_selection = 0;
    (tui, rx)
}

fn ms(d: Duration) -> u64 {
    d.as_millis() as u64
}

#[test]
fn input_question_mark_toggles_shortcuts_when_composer_empty() {
    let mut tui = Tui::new("test", "model", "provider", ".", host());
    assert!(!tui.prompts.show_shortcuts);

    press(&mut tui, KeyCode::Char('?'));
    assert!(tui.prompts.show_shortcuts);
    assert!(tui.composer.input_buf.is_empty(), "must not type ? into the prompt");

    press(&mut tui, KeyCode::Char('?'));
    assert!(!tui.prompts.show_shortcuts);
}

#[test]
fn input_question_mark_types_when_composer_has_text() {
    let mut tui = Tui::new("test", "model", "provider", ".", host());
    tui.composer.input_buf = "what".into();
    tui.composer.cursor = tui.composer.input_buf.len();

    press(&mut tui, KeyCode::Char('?'));

    assert!(!tui.prompts.show_shortcuts);
    assert_eq!(tui.composer.input_buf, "what?");
}

#[test]
fn input_esc_closes_shortcuts_panel() {
    let mut tui = Tui::new("test", "model", "provider", ".", host());
    tui.prompts.show_shortcuts = true;

    press(&mut tui, KeyCode::Esc);

    assert!(!tui.prompts.show_shortcuts);
}

#[test]
fn input_bare_up_scrolls_when_transcript_overflows_instead_of_history() {
    let mut tui = Tui::new("test", "model", "provider", ".", host());
    tui.composer.history = vec!["first".into(), "second".into()];
    tui.composer.hist_idx = tui.composer.history.len();
    // Simulate a painted frame where the body is taller than the viewport.
    tui.scroll.last_body_wrapped = 100;
    tui.scroll.last_body_h = 20;
    tui.scroll.transcript_follow = true;
    tui.scroll.transcript_rowoff = 80;

    press(&mut tui, KeyCode::Up);

    assert!(
        !tui.scroll.transcript_follow,
        "Up should leave follow mode when content overflows"
    );
    assert!(
        tui.scroll.transcript_rowoff < 80,
        "Up should move rowoff toward older content"
    );
    assert!(
        tui.composer.input_buf.is_empty(),
        "Up must not load prompt history while chat can scroll"
    );
}

#[test]
fn input_bare_up_uses_history_when_transcript_fits() {
    let mut tui = Tui::new("test", "model", "provider", ".", host());
    tui.composer.history = vec!["prior prompt".into()];
    tui.composer.hist_idx = tui.composer.history.len();
    tui.scroll.last_body_wrapped = 10;
    tui.scroll.last_body_h = 40;
    tui.scroll.transcript_follow = true;

    press(&mut tui, KeyCode::Up);

    assert_eq!(tui.composer.input_buf, "prior prompt");
    assert_eq!(tui.composer.hist_idx, 0);
}

#[test]
fn input_ctrl_p_always_walks_prompt_history() {
    let mut tui = Tui::new("test", "model", "provider", ".", host());
    tui.composer.history = vec!["a".into(), "b".into()];
    tui.composer.hist_idx = tui.composer.history.len();
    tui.scroll.last_body_wrapped = 100;
    tui.scroll.last_body_h = 20;
    tui.scroll.transcript_follow = true;

    press_control(&mut tui, KeyCode::Char('p'));

    assert_eq!(tui.composer.input_buf, "b");
    assert_eq!(tui.composer.hist_idx, 1);
}

#[test]
fn input_cursor_and_edits_follow_unicode_character_boundaries() {
    let mut tui = Tui::new("test", "test-model", "test-provider", ".", host());
    tui.composer.input_buf = "é界🙂".into();
    tui.composer.cursor = tui.composer.input_buf.len();

    press(&mut tui, KeyCode::Left);
    assert_eq!(tui.composer.cursor, "é界".len());
    press(&mut tui, KeyCode::Left);
    assert_eq!(tui.composer.cursor, "é".len());
    press(&mut tui, KeyCode::Right);
    assert_eq!(tui.composer.cursor, "é界".len());

    press(&mut tui, KeyCode::Backspace);
    assert_eq!(tui.composer.input_buf, "é🙂");
    assert_eq!(tui.composer.cursor, "é".len());
    press(&mut tui, KeyCode::Delete);
    assert_eq!(tui.composer.input_buf, "é");

    press(&mut tui, KeyCode::Char('界'));
    press(&mut tui, KeyCode::Char('🙂'));
    assert_eq!(tui.composer.input_buf, "é界🙂");
    assert_eq!(tui.composer.cursor, tui.composer.input_buf.len());
}

#[test]
fn input_format_elapsed_compact_units() {
    assert_eq!(format_elapsed_compact(ms(Duration::from_secs(0))), "0s");
    assert_eq!(format_elapsed_compact(ms(Duration::from_secs(9))), "9s");
    assert_eq!(format_elapsed_compact(ms(Duration::from_secs(65))), "1m 05s");
    assert_eq!(format_elapsed_compact(ms(Duration::from_secs(600))), "10m 00s");
}

#[test]
fn input_rock_emoji_is_double_width_for_welcome_pad() {
    // U+1FAA8 ROCK must count as 2 cols or the welcome right border slips.
    assert_eq!(char_width('🪨'), 2);
    // "  " (2) + rock (2) + " Cairn" (6) = 10
    assert_eq!(display_width("  🪨 Cairn"), 10);
    let padded = pad_to_display_width("  🪨 Cairn Code v0.1.0", 40);
    assert_eq!(display_width(&padded), 40);
}

#[test]
fn input_ctrl_c_arms_exit_without_transcript_noise() {
    let mut tui = Tui::new("test", "model", "provider", ".", host());
    assert!(tui.composer.input_buf.is_empty());
    assert!(press_control(&mut tui, KeyCode::Char('c')));
    assert!(tui.ctrl_c_exit_armed);
    assert!(
        !tui.chat.output_lines
            .iter()
            .any(|l| l.content.contains("Ctrl+C")),
        "exit hint belongs in the footer, not the transcript"
    );
}

#[test]
fn input_number_keys_one_two_three_confirm_without_text_field() {
    for (key, expected) in [
        (KeyCode::Char('1'), "allow"),
        (KeyCode::Char('2'), "always_allow"),
        (KeyCode::Char('3'), "deny"),
    ] {
        let (mut tui, rx) = prompt_tui();
        // Typing on Yes/Always/No must not populate discuss feedback.
        press(&mut tui, KeyCode::Char('x'));
        assert!(
            tui.permission.perm_discuss_buf.is_empty(),
            "options 1-3 must not accept inline text"
        );
        press(&mut tui, key);
        assert!(!tui.permission.show_permission_prompt);
        assert_eq!(rx.try_recv().unwrap(), expected);
    }
}

#[test]
fn input_key_four_selects_discuss_and_allows_inline_feedback() {
    let (mut tui, rx) = prompt_tui();
    press(&mut tui, KeyCode::Char('4'));
    assert!(tui.permission.show_permission_prompt);
    assert_eq!(tui.permission.perm_selection, 3);
    assert!(tui.permission_discuss_active());

    for ch in ['u', 's', 'e', ' ', 'g', 'i', 't'] {
        press(&mut tui, KeyCode::Char(ch));
    }
    assert_eq!(tui.permission.perm_discuss_buf, "use git");

    press(&mut tui, KeyCode::Enter);
    assert!(!tui.permission.show_permission_prompt);
    assert_eq!(rx.try_recv().unwrap(), "discuss:use git");
}

#[test]
fn input_discuss_enter_without_text_sends_bare_discuss() {
    let (mut tui, rx) = prompt_tui();
    press(&mut tui, KeyCode::Char('4'));
    press(&mut tui, KeyCode::Enter);
    assert_eq!(rx.try_recv().unwrap(), "discuss");
}

#[test]
fn input_leaving_discuss_clears_draft_feedback() {
    let (mut tui, _rx) = prompt_tui();
    press(&mut tui, KeyCode::Char('4'));
    press(&mut tui, KeyCode::Char('x'));
    assert_eq!(tui.permission.perm_discuss_buf, "x");
    press(&mut tui, KeyCode::Up);
    assert_eq!(tui.permission.perm_selection, 2);
    assert!(
        tui.permission.perm_discuss_buf.is_empty(),
        "draft must not linger on No/Yes options"
    );
    assert!(!tui.permission_discuss_active());
}

#[test]
fn input_paste_only_into_discuss_not_other_options() {
    let (mut tui, _rx) = prompt_tui();
    assert!(!tui.handle_paste("nope"));
    assert!(tui.permission.perm_discuss_buf.is_empty());
    tui.set_perm_selection(3);
    assert!(tui.handle_paste("hello"));
    assert_eq!(tui.permission.perm_discuss_buf, "hello");
}

#[test]
fn input_paste_inserts_emoji_and_unicode_at_cursor() {
    let mut tui = Tui::new("test", "model", "provider", ".", host());
    tui.composer.input_buf = "hi ".into();
    tui.composer.cursor = tui.composer.input_buf.len();
    assert!(tui.handle_paste("🪨 world 🙂"));
    assert_eq!(tui.composer.input_buf, "hi 🪨 world 🙂");
    assert_eq!(tui.composer.cursor, tui.composer.input_buf.len());
}

#[test]
fn input_paste_mid_buffer_and_multiline() {
    let mut tui = Tui::new("test", "model", "provider", ".", host());
    tui.composer.input_buf = "ab".into();
    tui.composer.cursor = 1; // between a and b
    assert!(tui.handle_paste("X\nY"));
    assert_eq!(tui.composer.input_buf, "aX\nYb");
    assert_eq!(tui.composer.cursor, "aX\nY".len());
}

#[test]
fn input_paste_strips_csi_keeps_text() {
    let cleaned = sanitize_paste_for_composer("hello\x1b[31mred\x1b[0m 🪨");
    assert!(cleaned.contains("hello"));
    assert!(cleaned.contains("red"));
    assert!(cleaned.contains('🪨'));
    assert!(!cleaned.contains('\u{001b}'));
}

#[test]
fn input_paste_ignored_while_model_picker_open() {
    let mut tui = Tui::new("test", "model", "provider", ".", host());
    tui.pickers.show_model_picker = true;
    assert!(!tui.handle_paste("should not land"));
    assert!(tui.composer.input_buf.is_empty());
}
