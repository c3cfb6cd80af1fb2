//! The UI as a whole.

use cairn_tui::completion::{
    completion_wants_trailing_space, compute_idle_suggestion, default_empty_suggestion,
    fuzzy_score, slash_completion_help, slash_completions, slash_ghost_suffix, SLASH_COMMANDS,
};
use cairn_tui::host::{Credentials, Host, Platform, Provider};
use cairn_tui::keys::{KeyCode, KeyEvent};
use cairn_tui::llm::{ImageBlock, ModelInfo, UserBlocks};
use cairn_tui::request::Request;
use cairn_tui::state::State;
use cairn_tui::text::{
    char_width, display_width, format_elapsed_compact, format_thought_label, pad_to_display_width,
    sanitize_paste_for_composer, truncate_summary,
};
use cairn_tui::theme::{clone_theme, Theme};
use cairn_tui::tool_display::{
    compact_tool_arg_hint, compact_tool_result_display, format_permission_tool_input,
    infer_tool_display_kind, permission_risk_warning, PERM_PREVIEW_MAX_LINES, PERM_VALUE_MAX_COLS,
};
use cairn_tui::wire::{base64_encode, encode_user_json_cmd};
use cairn_tui::{sanitize_terminal_output, OutputLine, Tui};
use std::sync::atomic::{AtomicBool, Ordering};
use std::sync::{mpsc, Arc};
use std::time::Duration;

fn model(id: &str) -> ModelInfo {
    ModelInfo { id: id.into(), name: id.into(), max_ctx: 8192 }
}

fn credentials(provider: &str, needs_credential: bool) -> Credentials {
    Credentials {
        provider: provider.into(),
        needs_credential,
        usable_credential: !needs_credential,
        requires_api_key: needs_credential,
        supports_oauth: false,
        config_has_api_key: false,
        env_var: None,
        env_key_set: false,
    }
}

fn theme(name: &str) -> Theme {
    Theme { name: name.into(), label: name.into() }
}

fn host() -> Host {
    Host {
        providers: vec![
            Provider {
                name: "anthropic".into(),
                models: vec![model("opus")],
                default_model: "opus".into(),
            },
            Provider {
                name: "ollama".into(),
                models: vec![model("llama3.2"), model("mistral")],
                default_model: "llama3.2".into(),
            },
        ],
        credentials: vec![credentials("anthropic", true), credentials("ollama", false)],
        unlisted: credentials("", true),
        themes: vec![theme("dark"), theme("dune")],
        default_theme: theme("dark"),
        sessions: vec![],
        sessions_dir: "/tmp/sessions".into(),
        fresh_session_id: "fresh".into(),
        now_ns: 1_000_000_000,
        unix_secs: 1_700_000_000,
        term_lines: None,
        platform: Platform::Unix,
        cost_text: "$0.00".into(),
        cost_positive: false,
    }
}

/// Does what the UI has asked for, as a program around it would.
fn settle(tui: &mut Tui) {
    for request in tui.take_requests() {
        match request {
            Request::Agent(command) => {
                if let Some(tx) = &tui.links.agent_tx {
                    tx.send(command).unwrap();
                }
            }
            Request::Permission(decision) => {
                if let Some(tx) = &tui.links.perm_tx {
                    tx.send(decision).unwrap();
                }
            }
            Request::SetCancel(on) => {
                if let Some(flag) = &tui.links.cancel_flag {
                    flag.store(on, Ordering::Relaxed);
                }
            }
            Request::SaveProviderModel { provider, model } => {
                tui.apply_provider_model_selection(provider, model, Ok(()));
                settle(tui);
            }
            _ => {}
        }
    }
}

fn press(tui: &mut Tui, code: KeyCode) -> bool {
    let goes_on = tui.handle_key(KeyEvent::plain(code));
    settle(tui);
    goes_on
}

fn press_control(tui: &mut Tui, code: KeyCode) -> bool {
    let goes_on = tui.handle_key(KeyEvent::with_control(code));
    settle(tui);
    goes_on
}

fn tui_with_history() -> Tui {
    let mut tui = Tui::new("test", "opus", "anthropic", ".", host());
    tui.chat.output_lines.push(OutputLine {
        type_: "user".into(),
        content: "inspect private source".into(),
        tool_name: String::new(),
        duration: String::new(),
    });
    tui
}

fn assert_last_save_error(tui: &Tui, context: &str) {
    let line = tui.chat.output_lines.last().unwrap();
    assert_eq!(line.type_, "error");
    assert!(line.content.contains(context), "{}", line.content);
    assert!(
        line.content.contains("permission denied"),
        "{}",
        line.content
    );
    assert!(!line.content.contains(" set to:"));
}

fn prompt_tui() -> (Tui, mpsc::Receiver<String>) {
    let mut tui = Tui::new("test", "model", "provider", ".", host());
    let (tx, rx) = mpsc::channel();
    tui.set_perm_tx(tx);
    tui.permission.show_permission_prompt = true;
    tui.permission.perm_tool_name = "shell".into();
    tui.permission.perm_tool_input = r#"{"command":"echo hi"}"#.into();
    tui.permission.perm_selection = 0;
    (tui, rx)
}

fn ms(d: Duration) -> u64 {
    d.as_millis() as u64
}

fn line(type_: &str, content: &str, tool: &str) -> OutputLine {
    OutputLine {
        type_: type_.into(),
        content: content.into(),
        tool_name: tool.into(),
        duration: String::new(),
    }
}

fn base() -> Vec<String> {
    vec![
        "/auth".into(),
        "/clear".into(),
        "/help".into(),
        "/model".into(),
        "/provider".into(),
        "/reset".into(),
        "/resume".into(),
        "/delete".into(),
        "/suggestions".into(),
        "/theme".into(),
        "/thinking".into(),
        "/mouse".into(),
        "/copy".into(),
        "/select".into(),
    ]
}

fn all() -> Vec<String> {
    SLASH_COMMANDS.iter().map(|(c, _)| (*c).into()).collect()
}

fn assert_unicode_boundaries(max_chars: usize) {
    for boundary_char in ['🙂', '界', 'é'] {
        let prefix = "a".repeat(max_chars - 1);
        let summary = format!("{prefix}{boundary_char}tail");
        assert_eq!(
            truncate_summary(&summary, max_chars),
            format!("{prefix}{boundary_char}…")
        );
    }
}

#[test]
fn tui_strips_osc_clipboard_title_and_hyperlink_payloads() {
    let input = [
        "before",
        "\u{001b}]52;c;YXR0YWNrZXItY29udHJvbGxlZA==\u{0007}",
        "\u{001b}]0;forged title\u{001b}\\",
        "\u{001b}]8;;https://evil.example/\u{001b}\\link text\u{001b}]8;;\u{001b}\\",
        "after",
    ]
    .concat();

    assert_eq!(sanitize_terminal_output(&input), "beforelink textafter");
    assert_eq!(
        sanitize_terminal_output("safe\u{001b}]52;c;unterminated payload"),
        "safe"
    );
}

#[test]
fn tui_strips_csi_other_escape_sequences_and_their_payloads() {
    let input = [
        "plain ",
        "\u{001b}[31mred\u{001b}[0m",
        "\u{009b}2J",
        " visible",
        "\u{001b}P1;2|dcs payload\u{001b}\\",
        " end",
    ]
    .concat();

    assert_eq!(sanitize_terminal_output(&input), "plain red visible end");
}

#[test]
fn tui_strips_c0_c1_controls_and_eight_bit_control_strings() {
    let input = "a\u{0000}b\u{0007}c\u{0008}d\r e\u{007f}f\u{0085}g\u{001b}";
    assert_eq!(sanitize_terminal_output(input), "abcd efg");
    assert_eq!(
        sanitize_terminal_output("left\u{009d}52;c;secret\u{009c}right"),
        "leftright"
    );
}

#[test]
fn tui_preserves_normal_unicode_newlines_and_tabs() {
    let input = "Grüße from 東京 🏔️\n\tcafé\n";
    assert_eq!(sanitize_terminal_output(input), input);
}

#[test]
fn tui_base64_encode_known_vectors() {
    assert_eq!(base64_encode(b""), "");
    assert_eq!(base64_encode(b"f"), "Zg==");
    assert_eq!(base64_encode(b"fo"), "Zm8=");
    assert_eq!(base64_encode(b"foo"), "Zm9v");
    assert_eq!(base64_encode(b"foobar"), "Zm9vYmFy");
}

#[test]
fn tui_encode_user_json_cmd_roundtrips_shape() {
    let cmd = encode_user_json_cmd(
        "see this",
        &[ImageBlock {
            media_type: "image/png".into(),
            data_base64: "Zm9v".into(),
        }],
    );
    assert!(cmd.starts_with("__user_json__:"));
    let json = cmd.trim_start_matches("__user_json__:");
    let v: serde_json::Value = serde_json::from_str(json).unwrap();
    assert_eq!(v["text"], "see this");
    assert_eq!(v["images"][0]["media_type"], "image/png");
    assert_eq!(v["images"][0]["data"], "Zm9v");
}

#[test]
fn tui_display_label_covers_text_and_images() {
    assert_eq!(UserBlocks::text_only("hi").display_label(), "hi");
    assert_eq!(
        UserBlocks {
            text: String::new(),
            images: vec![ImageBlock {
                media_type: "image/png".into(),
                data_base64: "x".into(),
            }],
        }
        .display_label(),
        "[image]"
    );
    assert_eq!(
        UserBlocks {
            text: "look".into(),
            images: vec![
                ImageBlock {
                    media_type: "image/png".into(),
                    data_base64: "a".into(),
                },
                ImageBlock {
                    media_type: "image/jpeg".into(),
                    data_base64: "b".into(),
                },
            ],
        }
        .display_label(),
        "look\n[2 images]"
    );
}

#[test]
fn tui_suggestion_from_recent_user_and_tools() {
    let lines = vec![
        line("user", "please run the tests", ""),
        line("tool_use", r#"{"command":"cargo test"}"#, "shell"),
        line("tool_result", "ok", "shell"),
    ];
    let s = compute_idle_suggestion(&lines);
    assert!(
        s.to_ascii_lowercase().contains("command output"),
        "expected ready prompt about shell output, got {s}"
    );
    // Ready prompt, not a meta instruction to the user.
    assert!(!s.to_ascii_lowercase().starts_with("inspect"));
    assert!(!s.to_ascii_lowercase().starts_with("review"));
    assert!(!s.to_ascii_lowercase().starts_with("try again"));
}

#[test]
fn tui_suggestion_default_when_empty() {
    let s = compute_idle_suggestion(&[]);
    assert_eq!(s, default_empty_suggestion());
    assert!(
        s.chars()
            .next()
            .map(|c| c.is_ascii_uppercase())
            .unwrap_or(false),
        "ready prompts should read as imperative agent requests"
    );
}

#[test]
fn tui_suggestion_after_error_is_sendable_retry() {
    let lines = vec![line("error", "LLM error: boom", "")];
    let s = compute_idle_suggestion(&lines);
    assert!(s.to_ascii_lowercase().contains("retry"));
    assert!(!s.contains("/provider"));
}

#[test]
fn tui_cross_provider_switch_requires_confirmation_when_history_exists() {
    let mut tui = tui_with_history();
    tui.pickers.show_provider_picker = true;
    tui.pickers.provider_picker_list = vec!["ollama".into()];
    tui.pickers.provider_picker_sel = 0;

    press(&mut tui, KeyCode::Enter);

    assert_eq!(tui.account.provider, "anthropic");
    assert_eq!(tui.prompts.confirm_history_provider.as_deref(), Some("ollama"));
    assert_eq!(
        tui.prompts.confirm_history_sel, 0,
        "confirmation must default to cancel"
    );

    press(&mut tui, KeyCode::Enter);
    assert_eq!(
        tui.account.provider, "anthropic",
        "default confirmation action must cancel"
    );
}

#[test]
fn tui_provider_command_uses_the_same_confirmation() {
    let mut tui = tui_with_history();

    tui.handle_command("/provider ollama");

    settle(&mut tui);

    assert_eq!(tui.account.provider, "anthropic");
    assert_eq!(tui.prompts.confirm_history_provider.as_deref(), Some("ollama"));
}

#[test]
fn tui_confirmed_cross_provider_switch_proceeds() {
    let mut tui = tui_with_history();
    tui.pickers.show_provider_picker = true;
    tui.pickers.provider_picker_list = vec!["ollama".into()];
    tui.pickers.provider_picker_sel = 0;

    press(&mut tui, KeyCode::Enter);
    press(&mut tui, KeyCode::Right);
    press(&mut tui, KeyCode::Enter);

    assert_eq!(
        tui.account.provider, "anthropic",
        "provider stays committed until model selection"
    );
    assert_eq!(tui.account.pending_provider_selection.as_deref(), Some("ollama"));
    assert!(tui.pickers.show_model_picker);

    press(&mut tui, KeyCode::Enter);
    assert_eq!(tui.account.provider, "ollama");
    assert!(tui.account.pending_provider_selection.is_none());
}

#[test]
fn tui_same_provider_or_empty_history_does_not_require_confirmation() {
    let tui = tui_with_history();
    assert!(!tui.provider_switch_needs_confirmation("anthropic"));

    let empty = Tui::new("test", "opus", "anthropic", ".", host());
    assert!(!empty.provider_switch_needs_confirmation("ollama"));
}

#[test]
fn tui_selecting_current_provider_preserves_current_model_selection() {
    let mut tui = Tui::new("test", "mistral", "ollama", ".", host());

    tui.begin_provider_selection("ollama".into());

    assert!(tui.account.pending_provider_selection.is_none());
    assert!(tui.pickers.show_model_picker);
    assert_eq!(tui.pickers.picker_models[tui.pickers.picker_sel].id, "mistral");
}

#[test]
fn tui_cancelling_provider_model_picker_keeps_committed_provider_and_model() {
    let mut tui = tui_with_history();
    tui.pickers.show_provider_picker = true;
    tui.pickers.provider_picker_list = vec!["ollama".into()];

    press(&mut tui, KeyCode::Enter);
    press(&mut tui, KeyCode::Right);
    press(&mut tui, KeyCode::Enter);
    assert!(tui.pickers.show_model_picker);

    press(&mut tui, KeyCode::Esc);

    assert_eq!(tui.account.provider, "anthropic");
    assert_eq!(tui.account.model, "opus");
    assert!(tui.account.pending_provider_selection.is_none());
}

#[test]
fn tui_direct_model_command_switches_agent_model() {
    let mut tui = Tui::new("test", "old-model", "ollama", ".", host());
    let (tx, rx) = mpsc::channel();
    tui.links.agent_tx = Some(tx);

    tui.handle_command("/model new-model");

    settle(&mut tui);

    assert_eq!(tui.account.model, "new-model");
    assert_eq!(
        rx.recv_timeout(Duration::from_secs(1)).unwrap(),
        "__switch__:ollama:new-model"
    );
}

#[test]
fn tui_provider_model_write_failure_does_not_switch_or_claim_success() {
    let mut tui = Tui::new("test", "old-model", "ollama", ".", host());
    let (tx, rx) = mpsc::channel();
    tui.links.agent_tx = Some(tx);

    tui.apply_provider_model_selection(
        "openai".into(),
        "new-model".into(),
        Err("disk full".into()),
    );

    assert_eq!(tui.account.provider, "ollama");
    assert_eq!(tui.account.model, "old-model");
    assert!(rx.try_recv().is_err());
    let line = tui.chat.output_lines.last().unwrap();
    assert_eq!(line.type_, "error");
    assert!(line.content.contains("provider and model selection"));
    assert!(line.content.contains("disk full"));
    assert!(!line.content.contains("Provider set to"));
}

#[test]
fn tui_interrupt_waits_for_worker_done_before_becoming_idle() {
    let mut tui = Tui::new("test", "llama3.2", "ollama", ".", host());
    let cancelled = Arc::new(AtomicBool::new(false));
    let (tx, rx) = mpsc::channel();
    tui.links.cancel_flag = Some(cancelled.clone());
    tui.links.agent_tx = Some(tx);
    tui.chat.state = State::Running;

    assert!(tui.handle_ctrl_c());

    settle(&mut tui);

    assert!(cancelled.load(Ordering::Relaxed));
    assert!(matches!(tui.chat.state, State::Running));
    assert!(
        rx.try_recv().is_err(),
        "cancellation must not leave a stale command queued"
    );
}

#[test]
fn tui_theme_write_failure_restores_previous_theme_and_reports_error() {
    let mut tui = Tui::new("test", "model", "provider", ".", host());
    let previous = clone_theme(&tui.looks.theme);
    let selected = tui.host.theme_or_default("dune");
    tui.looks.theme = clone_theme(&selected);

    tui.apply_theme_preference(selected, clone_theme(&previous), Err("permission denied".into()));

    assert_eq!(tui.looks.theme.name, previous.name);
    assert_last_save_error(&tui, "theme preference");
}

#[test]
fn tui_thinking_write_failure_preserves_state_and_reports_error() {
    let mut tui = Tui::new("test", "model", "provider", ".", host());
    assert!(!tui.looks.show_thinking);

    tui.apply_thinking_preference(true, Err("permission denied".into()));

    assert!(!tui.looks.show_thinking);
    assert_last_save_error(&tui, "thinking preference");
}

#[test]
fn tui_suggestions_write_failure_preserves_state_and_reports_error() {
    let mut tui = Tui::new("test", "model", "provider", ".", host());
    assert!(!tui.looks.show_suggestions);

    tui.apply_suggestions_preference(true, Err("permission denied".into()));

    assert!(!tui.looks.show_suggestions);
    assert_last_save_error(&tui, "suggestions preference");
}

#[test]
fn tui_exit_commands_stop_the_event_loop() {
    for command in ["/exit", "/quit", "/q"] {
        let mut tui = Tui::new("test", "test-model", "test-provider", ".", host());
        tui.composer.input_buf = command.into();
        tui.composer.cursor = tui.composer.input_buf.len();

        assert!(
            !press(&mut tui, KeyCode::Enter),
            "{command} should request normal event-loop termination"
        );
    }
}

#[test]
fn tui_question_mark_toggles_shortcuts_when_composer_empty() {
    let mut tui = Tui::new("test", "model", "provider", ".", host());
    assert!(!tui.prompts.show_shortcuts);

    press(&mut tui, KeyCode::Char('?'));
    assert!(tui.prompts.show_shortcuts);
    assert!(tui.composer.input_buf.is_empty(), "must not type ? into the prompt");

    press(&mut tui, KeyCode::Char('?'));
    assert!(!tui.prompts.show_shortcuts);
}

#[test]
fn tui_question_mark_types_when_composer_has_text() {
    let mut tui = Tui::new("test", "model", "provider", ".", host());
    tui.composer.input_buf = "what".into();
    tui.composer.cursor = tui.composer.input_buf.len();

    press(&mut tui, KeyCode::Char('?'));

    assert!(!tui.prompts.show_shortcuts);
    assert_eq!(tui.composer.input_buf, "what?");
}

#[test]
fn tui_esc_closes_shortcuts_panel() {
    let mut tui = Tui::new("test", "model", "provider", ".", host());
    tui.prompts.show_shortcuts = true;

    press(&mut tui, KeyCode::Esc);

    assert!(!tui.prompts.show_shortcuts);
}

#[test]
fn tui_bare_up_scrolls_when_transcript_overflows_instead_of_history() {
    let mut tui = Tui::new("test", "model", "provider", ".", host());
    tui.composer.history = vec!["first".into(), "second".into()];
    tui.composer.hist_idx = tui.composer.history.len();
    // Simulate a painted frame where the body is taller than the viewport.
    tui.scroll.last_body_wrapped = 100;
    tui.scroll.last_body_h = 20;
    tui.scroll.transcript_follow = true;
    tui.scroll.transcript_rowoff = 80;

    press(&mut tui, KeyCode::Up);

    assert!(
        !tui.scroll.transcript_follow,
        "Up should leave follow mode when content overflows"
    );
    assert!(
        tui.scroll.transcript_rowoff < 80,
        "Up should move rowoff toward older content"
    );
    assert!(
        tui.composer.input_buf.is_empty(),
        "Up must not load prompt history while chat can scroll"
    );
}

#[test]
fn tui_bare_up_uses_history_when_transcript_fits() {
    let mut tui = Tui::new("test", "model", "provider", ".", host());
    tui.composer.history = vec!["prior prompt".into()];
    tui.composer.hist_idx = tui.composer.history.len();
    tui.scroll.last_body_wrapped = 10;
    tui.scroll.last_body_h = 40;
    tui.scroll.transcript_follow = true;

    press(&mut tui, KeyCode::Up);

    assert_eq!(tui.composer.input_buf, "prior prompt");
    assert_eq!(tui.composer.hist_idx, 0);
}

#[test]
fn tui_ctrl_p_always_walks_prompt_history() {
    let mut tui = Tui::new("test", "model", "provider", ".", host());
    tui.composer.history = vec!["a".into(), "b".into()];
    tui.composer.hist_idx = tui.composer.history.len();
    tui.scroll.last_body_wrapped = 100;
    tui.scroll.last_body_h = 20;
    tui.scroll.transcript_follow = true;

    press_control(&mut tui, KeyCode::Char('p'));

    assert_eq!(tui.composer.input_buf, "b");
    assert_eq!(tui.composer.hist_idx, 1);
}

#[test]
fn tui_cursor_and_edits_follow_unicode_character_boundaries() {
    let mut tui = Tui::new("test", "test-model", "test-provider", ".", host());
    tui.composer.input_buf = "é界🙂".into();
    tui.composer.cursor = tui.composer.input_buf.len();

    press(&mut tui, KeyCode::Left);
    assert_eq!(tui.composer.cursor, "é界".len());
    press(&mut tui, KeyCode::Left);
    assert_eq!(tui.composer.cursor, "é".len());
    press(&mut tui, KeyCode::Right);
    assert_eq!(tui.composer.cursor, "é界".len());

    press(&mut tui, KeyCode::Backspace);
    assert_eq!(tui.composer.input_buf, "é🙂");
    assert_eq!(tui.composer.cursor, "é".len());
    press(&mut tui, KeyCode::Delete);
    assert_eq!(tui.composer.input_buf, "é");

    press(&mut tui, KeyCode::Char('界'));
    press(&mut tui, KeyCode::Char('🙂'));
    assert_eq!(tui.composer.input_buf, "é界🙂");
    assert_eq!(tui.composer.cursor, tui.composer.input_buf.len());
}

#[test]
fn tui_help_command_opens_overlay_without_transcript_dump() {
    let mut tui = Tui::new("test", "model", "provider", ".", host());
    let before = tui.chat.output_lines.len();
    tui.handle_command("/help");
    settle(&mut tui);
    assert!(tui.prompts.show_help);
    assert_eq!(
        tui.chat.output_lines.len(),
        before,
        "/help must not dump into the transcript"
    );
}

#[test]
fn tui_esc_and_enter_close_help_overlay() {
    let mut tui = Tui::new("test", "model", "provider", ".", host());
    tui.prompts.show_help = true;
    press(&mut tui, KeyCode::Esc);
    assert!(!tui.prompts.show_help);

    tui.prompts.show_help = true;
    press(&mut tui, KeyCode::Enter);
    assert!(!tui.prompts.show_help);
}

#[test]
fn tui_format_elapsed_compact_units() {
    assert_eq!(format_elapsed_compact(ms(Duration::from_secs(0))), "0s");
    assert_eq!(format_elapsed_compact(ms(Duration::from_secs(9))), "9s");
    assert_eq!(format_elapsed_compact(ms(Duration::from_secs(65))), "1m 05s");
    assert_eq!(format_elapsed_compact(ms(Duration::from_secs(600))), "10m 00s");
}

#[test]
fn tui_rock_emoji_is_double_width_for_welcome_pad() {
    // U+1FAA8 ROCK must count as 2 cols or the welcome right border slips.
    assert_eq!(char_width('🪨'), 2);
    // "  " (2) + rock (2) + " Cairn" (6) = 10
    assert_eq!(display_width("  🪨 Cairn"), 10);
    let padded = pad_to_display_width("  🪨 Cairn Code v0.1.0", 40);
    assert_eq!(display_width(&padded), 40);
}

#[test]
fn tui_ctrl_c_arms_exit_without_transcript_noise() {
    let mut tui = Tui::new("test", "model", "provider", ".", host());
    assert!(tui.composer.input_buf.is_empty());
    assert!(press_control(&mut tui, KeyCode::Char('c')));
    assert!(tui.ctrl_c_exit_armed);
    assert!(
        !tui.chat.output_lines
            .iter()
            .any(|l| l.content.contains("Ctrl+C")),
        "exit hint belongs in the footer, not the transcript"
    );
}

#[test]
fn tui_number_keys_one_two_three_confirm_without_text_field() {
    for (key, expected) in [
        (KeyCode::Char('1'), "allow"),
        (KeyCode::Char('2'), "always_allow"),
        (KeyCode::Char('3'), "deny"),
    ] {
        let (mut tui, rx) = prompt_tui();
        // Typing on Yes/Always/No must not populate discuss feedback.
        press(&mut tui, KeyCode::Char('x'));
        assert!(
            tui.permission.perm_discuss_buf.is_empty(),
            "options 1-3 must not accept inline text"
        );
        press(&mut tui, key);
        assert!(!tui.permission.show_permission_prompt);
        assert_eq!(rx.try_recv().unwrap(), expected);
    }
}

#[test]
fn tui_key_four_selects_discuss_and_allows_inline_feedback() {
    let (mut tui, rx) = prompt_tui();
    press(&mut tui, KeyCode::Char('4'));
    assert!(tui.permission.show_permission_prompt);
    assert_eq!(tui.permission.perm_selection, 3);
    assert!(tui.permission_discuss_active());

    for ch in ['u', 's', 'e', ' ', 'g', 'i', 't'] {
        press(&mut tui, KeyCode::Char(ch));
    }
    assert_eq!(tui.permission.perm_discuss_buf, "use git");

    press(&mut tui, KeyCode::Enter);
    assert!(!tui.permission.show_permission_prompt);
    assert_eq!(rx.try_recv().unwrap(), "discuss:use git");
}

#[test]
fn tui_discuss_enter_without_text_sends_bare_discuss() {
    let (mut tui, rx) = prompt_tui();
    press(&mut tui, KeyCode::Char('4'));
    press(&mut tui, KeyCode::Enter);
    assert_eq!(rx.try_recv().unwrap(), "discuss");
}

#[test]
fn tui_leaving_discuss_clears_draft_feedback() {
    let (mut tui, _rx) = prompt_tui();
    press(&mut tui, KeyCode::Char('4'));
    press(&mut tui, KeyCode::Char('x'));
    assert_eq!(tui.permission.perm_discuss_buf, "x");
    press(&mut tui, KeyCode::Up);
    assert_eq!(tui.permission.perm_selection, 2);
    assert!(
        tui.permission.perm_discuss_buf.is_empty(),
        "draft must not linger on No/Yes options"
    );
    assert!(!tui.permission_discuss_active());
}

#[test]
fn tui_paste_only_into_discuss_not_other_options() {
    let (mut tui, _rx) = prompt_tui();
    assert!(!tui.handle_paste("nope"));
    assert!(tui.permission.perm_discuss_buf.is_empty());
    tui.set_perm_selection(3);
    assert!(tui.handle_paste("hello"));
    assert_eq!(tui.permission.perm_discuss_buf, "hello");
}

#[test]
fn tui_paste_inserts_emoji_and_unicode_at_cursor() {
    let mut tui = Tui::new("test", "model", "provider", ".", host());
    tui.composer.input_buf = "hi ".into();
    tui.composer.cursor = tui.composer.input_buf.len();
    assert!(tui.handle_paste("🪨 world 🙂"));
    assert_eq!(tui.composer.input_buf, "hi 🪨 world 🙂");
    assert_eq!(tui.composer.cursor, tui.composer.input_buf.len());
}

#[test]
fn tui_paste_mid_buffer_and_multiline() {
    let mut tui = Tui::new("test", "model", "provider", ".", host());
    tui.composer.input_buf = "ab".into();
    tui.composer.cursor = 1; // between a and b
    assert!(tui.handle_paste("X\nY"));
    assert_eq!(tui.composer.input_buf, "aX\nYb");
    assert_eq!(tui.composer.cursor, "aX\nY".len());
}

#[test]
fn tui_paste_strips_csi_keeps_text() {
    let cleaned = sanitize_paste_for_composer("hello\x1b[31mred\x1b[0m 🪨");
    assert!(cleaned.contains("hello"));
    assert!(cleaned.contains("red"));
    assert!(cleaned.contains('🪨'));
    assert!(!cleaned.contains('\u{001b}'));
}

#[test]
fn tui_paste_ignored_while_model_picker_open() {
    let mut tui = Tui::new("test", "model", "provider", ".", host());
    tui.pickers.show_model_picker = true;
    assert!(!tui.handle_paste("should not land"));
    assert!(tui.composer.input_buf.is_empty());
}

#[test]
fn tui_fuzzy_matches_skipped_characters() {
    // The whole point: `/mdl` is not a prefix of anything.
    let c = slash_completions("/mdl", &base(), &[], &[], &[], &[]);
    assert_eq!(c, vec!["/model".to_string()]);
    let c = slash_completions("/thnk", &base(), &[], &[], &[], &[]);
    assert_eq!(c, vec!["/thinking".to_string()]);
}

#[test]
fn tui_fuzzy_rejects_out_of_order_and_absent_characters() {
    assert!(slash_completions("/ldom", &base(), &[], &[], &[], &[]).is_empty());
    assert!(slash_completions("/zzz", &base(), &[], &[], &[], &[]).is_empty());
}

#[test]
fn tui_tighter_matches_rank_first() {
    // /compact, /copy and /cost all prefix-match; the shortest wins.
    let c = slash_completions("/co", &all(), &[], &[], &[], &[]);
    assert_eq!(c.first().map(String::as_str), Some("/copy"), "{c:?}");
    assert!(c.contains(&"/compact".to_string()), "{c:?}");
}

#[test]
fn tui_fuzzy_ranks_arguments_too() {
    let models = vec!["opus-5".into(), "grok-4.5".into()];
    let c = slash_completions("/model g45", &base(), &models, &[], &[], &[]);
    assert_eq!(c, vec!["/model grok-4.5".to_string()]);
}

#[test]
fn tui_fuzzy_score_orders_prefix_above_subsequence() {
    let prefix = fuzzy_score("/model", "/mod").unwrap();
    let scattered = fuzzy_score("/model", "/mdl").unwrap();
    assert!(prefix > scattered, "{prefix} vs {scattered}");
    assert_eq!(fuzzy_score("/model", "/xyz"), None);
    // An empty query matches everything, so a bare `/` opens the full list.
    assert_eq!(fuzzy_score("/model", ""), Some(0));
}

#[test]
fn tui_bare_slash_lists_every_command_in_declared_order() {
    let c = slash_completions("/", &all(), &[], &[], &[], &[]);
    assert_eq!(c, all());
}

#[test]
fn tui_every_command_has_help_text() {
    for (cmd, help) in &SLASH_COMMANDS {
        assert!(!help.is_empty(), "{cmd} has no help text");
        assert_eq!(slash_completion_help(cmd), Some(*help));
    }
}

#[test]
fn tui_help_describes_argument_completions() {
    assert_eq!(
        slash_completion_help("/auth login"),
        Some("Sign in to a provider")
    );
    assert_eq!(slash_completion_help("/auth login xai"), Some("provider"));
    assert_eq!(slash_completion_help("/model grok-4.5"), Some("model"));
    assert_eq!(slash_completion_help("/theme dune"), Some("theme"));
    assert_eq!(
        slash_completion_help("/resume abc12345"),
        Some("session id")
    );
    assert_eq!(slash_completion_help("/thinking on"), Some("Enable"));
    assert_eq!(slash_completion_help("/mouse off"), Some("Disable"));
    assert_eq!(
        slash_completion_help("/reset list"),
        Some("List banked rate-limit resets")
    );
    assert_eq!(
        slash_completion_help("/reset apply"),
        Some("Apply a banked rate-limit reset")
    );
    assert_eq!(
        slash_completion_help("/reset status"),
        Some("Show rate-limit reset status")
    );
    assert_eq!(slash_completion_help("not a command"), None);
}

#[test]
fn tui_completes_suggestions_toggle() {
    let c = slash_completions("/sugg", &base(), &[], &[], &[], &[]);
    assert_eq!(c, vec!["/suggestions".to_string()]);
    let c = slash_completions("/suggestions ", &base(), &[], &[], &[], &[]);
    assert!(c.iter().any(|x| x == "/suggestions on"));
    assert!(c.iter().any(|x| x == "/suggestions off"));
}

#[test]
fn tui_completes_mouse_toggle() {
    let c = slash_completions("/mo", &base(), &[], &[], &[], &[]);
    // /model and /mouse both match /mo
    assert!(
        c.iter().any(|x| x == "/mouse") || c.iter().any(|x| x == "/model"),
        "{c:?}"
    );
    let c = slash_completions("/mouse ", &base(), &[], &[], &[], &[]);
    assert!(c.iter().any(|x| x == "/mouse on"));
    assert!(c.iter().any(|x| x == "/mouse off"));
}

#[test]
fn tui_thought_label_formats_duration() {
    assert_eq!(format_thought_label(None), "Thought");
    assert_eq!(
        format_thought_label(Some(ms(Duration::from_millis(40)))),
        "Thought briefly"
    );
    assert_eq!(
        format_thought_label(Some(ms(Duration::from_secs(3)))),
        "Thought for 3s"
    );
    assert_eq!(
        format_thought_label(Some(ms(Duration::from_secs(65)))),
        "Thought for 1m 5s"
    );
}

#[test]
fn tui_completes_thinking_toggle() {
    let c = slash_completions("/thin", &base(), &[], &[], &[], &[]);
    assert_eq!(c, vec!["/thinking".to_string()]);
    let c = slash_completions("/thinking ", &base(), &[], &[], &[], &[]);
    assert!(c.iter().any(|x| x == "/thinking on"));
    assert!(c.iter().any(|x| x == "/thinking off"));
}

#[test]
fn tui_completes_root_command_prefix() {
    let c = slash_completions("/mo", &base(), &[], &[], &[], &[]);
    assert!(c.contains(&"/model".to_string()), "{c:?}");
    assert!(c.contains(&"/mouse".to_string()), "{c:?}");
    let c = slash_completions("/mod", &base(), &[], &[], &[], &[]);
    assert_eq!(c, vec!["/model".to_string()]);
}

#[test]
fn tui_ghost_suffix_for_partial_command() {
    assert_eq!(slash_ghost_suffix("/e", "/exit").as_deref(), Some("xit"));
    assert_eq!(
        slash_ghost_suffix("/auth lo", "/auth login").as_deref(),
        Some("gin")
    );
    assert_eq!(slash_ghost_suffix("/exit", "/exit"), None);
    assert_eq!(slash_ghost_suffix("/z", "/exit"), None);
}

#[test]
fn tui_completes_auth_subcommands() {
    let c = slash_completions("/auth ", &base(), &[], &[], &[], &[]);
    assert!(c.iter().any(|x| x == "/auth login"));
    assert!(c.iter().any(|x| x == "/auth status"));
    let c = slash_completions("/auth lo", &base(), &[], &[], &[], &[]);
    assert_eq!(
        c,
        vec!["/auth login".to_string(), "/auth logout".to_string()]
    );
}

#[test]
fn tui_completes_auth_login_provider() {
    let providers = vec!["anthropic".into(), "xai".into()];
    let c = slash_completions("/auth login ", &base(), &[], &providers, &[], &[]);
    assert!(c.iter().any(|x| x == "/auth login xai"));
    let c = slash_completions("/auth login x", &base(), &[], &providers, &[], &[]);
    assert_eq!(c, vec!["/auth login xai".to_string()]);
}

#[test]
fn tui_completes_reset_subcommands() {
    let c = slash_completions("/re", &base(), &[], &[], &[], &[]);
    assert!(c.contains(&"/reset".to_string()), "{c:?}");
    let c = slash_completions("/reset ", &base(), &[], &[], &[], &[]);
    assert!(c.iter().any(|x| x == "/reset list"));
    assert!(c.iter().any(|x| x == "/reset apply"));
    let c = slash_completions("/reset a", &base(), &[], &[], &[], &[]);
    assert_eq!(c, vec!["/reset apply".to_string()]);
}

#[test]
fn tui_completes_models_and_themes() {
    let models = vec!["grok-4.5:high".into(), "grok-4.3".into()];
    let c = slash_completions("/model grok-4.5", &base(), &models, &[], &[], &[]);
    assert_eq!(c, vec!["/model grok-4.5:high".to_string()]);
    let themes = vec!["dark".into(), "dune".into()];
    let c = slash_completions("/theme d", &base(), &[], &[], &themes, &[]);
    assert!(c.iter().any(|x| x == "/theme dark"));
    assert!(c.iter().any(|x| x == "/theme dune"));
}

#[test]
fn tui_completes_session_ids_for_resume() {
    let sessions = vec!["abcdef12".into(), "abcdef99".into(), "deadbeef".into()];
    let c = slash_completions("/resume abc", &base(), &[], &[], &[], &sessions);
    assert_eq!(
        c,
        vec![
            "/resume abcdef12".to_string(),
            "/resume abcdef99".to_string()
        ]
    );
}

#[test]
fn tui_trailing_space_helpers() {
    assert!(completion_wants_trailing_space("/auth login"));
    assert!(!completion_wants_trailing_space("/auth login xai"));
    assert!(!completion_wants_trailing_space("/help"));
}

#[test]
fn tui_list_summary_truncates_unicode_at_60_characters() {
    assert_unicode_boundaries(60);
}

#[test]
fn tui_picker_summary_truncates_unicode_at_50_characters() {
    assert_unicode_boundaries(50);
}

#[test]
fn tui_compact_file_read_is_summary_only() {
    let mut body = String::new();
    for i in 151..=188 {
        body.push_str(&format!("{i}:line {i}\n"));
    }
    body.push_str("\nREADME.md:151 (showing lines 151-188 of 188)");
    let out = compact_tool_result_display("file_read", &body);
    assert_eq!(out, "README.md:151 (showing lines 151-188 of 188)");
    assert_eq!(out.lines().count(), 1);
}

#[test]
fn tui_compact_glob_is_match_count() {
    let mut body = String::new();
    for i in 0..15 {
        body.push_str(&format!("src/f{i}.rs\n"));
    }
    body.push_str("… and 24 more (39 total)");
    let out = compact_tool_result_display("glob", &body);
    assert_eq!(out, "39 matches");
}

#[test]
fn tui_infer_kind_from_content_when_name_lost() {
    let body = "1:x\n\nfoo.rs:1 (showing lines 1-1 of 10)";
    assert_eq!(infer_tool_display_kind("tool", body), "file_read");
    assert_eq!(
        infer_tool_display_kind("tool", "a.rs\nb.rs\n2 result(s)"),
        "glob"
    );
}

#[test]
fn tui_compact_tool_arg_hint_extracts_pattern() {
    let h = compact_tool_arg_hint(r#"{"pattern":"src/**/*.rs"}"#);
    assert!(h.contains("pattern=src/**/*.rs"), "{h}");
}

#[test]
fn tui_compact_tool_arg_hint_preserves_array_boundaries() {
    let hint = compact_tool_arg_hint(r#"{"args":["status","path with spaces",""]}"#);
    assert_eq!(hint, r#"args="status" "path with spaces" """#);
}

#[test]
fn tui_git_permission_warning_classifies_shell_equivalent_risk() {
    let warning = permission_risk_warning("git").unwrap();
    assert!(warning.contains("Shell-equivalent risk"));
    assert!(permission_risk_warning("go").is_none());
}

#[test]
fn tui_permission_preview_shows_structured_fields() {
    let input = r#"{"file_path":"src/tools/file_edit.rs","old_string":"a","new_string":"b","replace_all":true}"#;
    let lines = format_permission_tool_input(input);
    assert_eq!(
        lines,
        vec![
            "file_path: src/tools/file_edit.rs".to_string(),
            "old_string: a".to_string(),
            "new_string: b".to_string(),
            "replace_all: true".to_string(),
        ]
    );
}

#[test]
fn tui_permission_preview_truncates_large_file_edit_payload() {
    let big = "x".repeat(400);
    let input = format!(
        r#"{{"file_path":"src/tools/file_edit.rs","old_string":"keep","new_string":"{big}"}}"#
    );
    let lines = format_permission_tool_input(&input);
    assert!(
        lines.iter().any(|l| l.starts_with("file_path:")),
        "{lines:?}"
    );
    let new_line = lines
        .iter()
        .find(|l| l.starts_with("new_string:"))
        .expect("new_string row");
    assert!(
        new_line.ends_with('…'),
        "expected truncated new_string, got {new_line}"
    );
    assert!(
        display_width(new_line) <= "new_string: ".len() + PERM_VALUE_MAX_COLS + 2,
        "preview line too wide: {} cols ({new_line})",
        display_width(new_line)
    );
    // Full payload must never appear as a single raw JSON dump.
    let joined = lines.join("\n");
    assert!(
        !joined.contains(&big),
        "raw multi-KB value leaked into chrome"
    );
    assert!(lines.len() <= PERM_PREVIEW_MAX_LINES + 1);
}

#[test]
fn tui_permission_preview_collapses_newlines_in_values() {
    let input = r#"{"file_path":"a.rs","old_string":"line1\nline2","new_string":"x"}"#;
    let lines = format_permission_tool_input(input);
    let old = lines
        .iter()
        .find(|l| l.starts_with("old_string:"))
        .expect("old_string");
    assert!(old.contains('↵'), "{old}");
    assert!(!old.contains('\n'), "{old}");
}
