//! Slash commands and what they confirm, save and open.

use cairn_tui::host::{Credentials, Host, Platform, Provider};
use cairn_tui::keys::{KeyCode, KeyEvent};
use cairn_tui::llm::ModelInfo;
use cairn_tui::request::Request;
use cairn_tui::state::State;
use cairn_tui::theme::{clone_theme, Theme};
use cairn_tui::{OutputLine, Tui};
use std::sync::atomic::{AtomicBool, Ordering};
use std::sync::{mpsc, Arc};
use std::time::Duration;

fn model(id: &str) -> ModelInfo {
    ModelInfo { id: id.into(), name: id.into(), max_ctx: 8192 }
}

fn credentials(provider: &str, needs_credential: bool) -> Credentials {
    Credentials {
        provider: provider.into(),
        needs_credential,
        usable_credential: !needs_credential,
        requires_api_key: needs_credential,
        supports_oauth: false,
        config_has_api_key: false,
        env_var: None,
        env_key_set: false,
    }
}

fn theme(name: &str) -> Theme {
    Theme { name: name.into(), label: name.into() }
}

fn host() -> Host {
    Host {
        providers: vec![
            Provider {
                name: "anthropic".into(),
                models: vec![model("opus")],
                default_model: "opus".into(),
            },
            Provider {
                name: "ollama".into(),
                models: vec![model("llama3.2"), model("mistral")],
                default_model: "llama3.2".into(),
            },
        ],
        credentials: vec![credentials("anthropic", true), credentials("ollama", false)],
        unlisted: credentials("", true),
        themes: vec![theme("dark"), theme("dune")],
        default_theme: theme("dark"),
        sessions: vec![],
        sessions_dir: "/tmp/sessions".into(),
        fresh_session_id: "fresh".into(),
        now_ns: 1_000_000_000,
        unix_secs: 1_700_000_000,
        term_lines: None,
        platform: Platform::Unix,
        cost_text: "$0.00".into(),
        cost_positive: false,
    }
}

/// Does what the UI has asked for, as a program around it would.
fn settle(tui: &mut Tui) {
    for request in tui.take_requests() {
        match request {
            Request::Agent(command) => {
                if let Some(tx) = &tui.links.agent_tx {
                    tx.send(command).unwrap();
                }
            }
            Request::Permission(decision) => {
                if let Some(tx) = &tui.links.perm_tx {
                    tx.send(decision).unwrap();
                }
            }
            Request::SetCancel(on) => {
                if let Some(flag) = &tui.links.cancel_flag {
                    flag.store(on, Ordering::Relaxed);
                }
            }
            Request::SaveProviderModel { provider, model } => {
                tui.apply_provider_model_selection(provider, model, Ok(()));
                settle(tui);
            }
            _ => {}
        }
    }
}

fn press(tui: &mut Tui, code: KeyCode) -> bool {
    let goes_on = tui.handle_key(KeyEvent::plain(code));
    settle(tui);
    goes_on
}

fn tui_with_history() -> Tui {
    let mut tui = Tui::new("test", "opus", "anthropic", ".", host());
    tui.chat.output_lines.push(OutputLine {
        type_: "user".into(),
        content: "inspect private source".into(),
        tool_name: String::new(),
        duration: String::new(),
    });
    tui
}

fn assert_last_save_error(tui: &Tui, context: &str) {
    let line = tui.chat.output_lines.last().unwrap();
    assert_eq!(line.type_, "error");
    assert!(line.content.contains(context), "{}", line.content);
    assert!(
        line.content.contains("permission denied"),
        "{}",
        line.content
    );
    assert!(!line.content.contains(" set to:"));
}

#[test]
fn commands_cross_provider_switch_requires_confirmation_when_history_exists() {
    let mut tui = tui_with_history();
    tui.pickers.show_provider_picker = true;
    tui.pickers.provider_picker_list = vec!["ollama".into()];
    tui.pickers.provider_picker_sel = 0;

    press(&mut tui, KeyCode::Enter);

    assert_eq!(tui.account.provider, "anthropic");
    assert_eq!(tui.prompts.confirm_history_provider.as_deref(), Some("ollama"));
    assert_eq!(
        tui.prompts.confirm_history_sel, 0,
        "confirmation must default to cancel"
    );

    press(&mut tui, KeyCode::Enter);
    assert_eq!(
        tui.account.provider, "anthropic",
        "default confirmation action must cancel"
    );
}

#[test]
fn commands_provider_command_uses_the_same_confirmation() {
    let mut tui = tui_with_history();

    tui.handle_command("/provider ollama");

    settle(&mut tui);

    assert_eq!(tui.account.provider, "anthropic");
    assert_eq!(tui.prompts.confirm_history_provider.as_deref(), Some("ollama"));
}

#[test]
fn commands_confirmed_cross_provider_switch_proceeds() {
    let mut tui = tui_with_history();
    tui.pickers.show_provider_picker = true;
    tui.pickers.provider_picker_list = vec!["ollama".into()];
    tui.pickers.provider_picker_sel = 0;

    press(&mut tui, KeyCode::Enter);
    press(&mut tui, KeyCode::Right);
    press(&mut tui, KeyCode::Enter);

    assert_eq!(
        tui.account.provider, "anthropic",
        "provider stays committed until model selection"
    );
    assert_eq!(tui.account.pending_provider_selection.as_deref(), Some("ollama"));
    assert!(tui.pickers.show_model_picker);

    press(&mut tui, KeyCode::Enter);
    assert_eq!(tui.account.provider, "ollama");
    assert!(tui.account.pending_provider_selection.is_none());
}

#[test]
fn commands_same_provider_or_empty_history_does_not_require_confirmation() {
    let tui = tui_with_history();
    assert!(!tui.provider_switch_needs_confirmation("anthropic"));

    let empty = Tui::new("test", "opus", "anthropic", ".", host());
    assert!(!empty.provider_switch_needs_confirmation("ollama"));
}

#[test]
fn commands_selecting_current_provider_preserves_current_model_selection() {
    let mut tui = Tui::new("test", "mistral", "ollama", ".", host());

    tui.begin_provider_selection("ollama".into());

    assert!(tui.account.pending_provider_selection.is_none());
    assert!(tui.pickers.show_model_picker);
    assert_eq!(tui.pickers.picker_models[tui.pickers.picker_sel].id, "mistral");
}

#[test]
fn commands_cancelling_provider_model_picker_keeps_committed_provider_and_model() {
    let mut tui = tui_with_history();
    tui.pickers.show_provider_picker = true;
    tui.pickers.provider_picker_list = vec!["ollama".into()];

    press(&mut tui, KeyCode::Enter);
    press(&mut tui, KeyCode::Right);
    press(&mut tui, KeyCode::Enter);
    assert!(tui.pickers.show_model_picker);

    press(&mut tui, KeyCode::Esc);

    assert_eq!(tui.account.provider, "anthropic");
    assert_eq!(tui.account.model, "opus");
    assert!(tui.account.pending_provider_selection.is_none());
}

#[test]
fn commands_direct_model_command_switches_agent_model() {
    let mut tui = Tui::new("test", "old-model", "ollama", ".", host());
    let (tx, rx) = mpsc::channel();
    tui.links.agent_tx = Some(tx);

    tui.handle_command("/model new-model");

    settle(&mut tui);

    assert_eq!(tui.account.model, "new-model");
    assert_eq!(
        rx.recv_timeout(Duration::from_secs(1)).unwrap(),
        "__switch__:ollama:new-model"
    );
}

#[test]
fn commands_provider_model_write_failure_does_not_switch_or_claim_success() {
    let mut tui = Tui::new("test", "old-model", "ollama", ".", host());
    let (tx, rx) = mpsc::channel();
    tui.links.agent_tx = Some(tx);

    tui.apply_provider_model_selection(
        "openai".into(),
        "new-model".into(),
        Err("disk full".into()),
    );

    assert_eq!(tui.account.provider, "ollama");
    assert_eq!(tui.account.model, "old-model");
    assert!(rx.try_recv().is_err());
    let line = tui.chat.output_lines.last().unwrap();
    assert_eq!(line.type_, "error");
    assert!(line.content.contains("provider and model selection"));
    assert!(line.content.contains("disk full"));
    assert!(!line.content.contains("Provider set to"));
}

#[test]
fn commands_interrupt_waits_for_worker_done_before_becoming_idle() {
    let mut tui = Tui::new("test", "llama3.2", "ollama", ".", host());
    let cancelled = Arc::new(AtomicBool::new(false));
    let (tx, rx) = mpsc::channel();
    tui.links.cancel_flag = Some(cancelled.clone());
    tui.links.agent_tx = Some(tx);
    tui.chat.state = State::Running;

    assert!(tui.handle_ctrl_c());

    settle(&mut tui);

    assert!(cancelled.load(Ordering::Relaxed));
    assert!(matches!(tui.chat.state, State::Running));
    assert!(
        rx.try_recv().is_err(),
        "cancellation must not leave a stale command queued"
    );
}

#[test]
fn unknown_theme_name_is_rejected_without_changing_the_active_theme() {
    let mut tui = Tui::new("test", "model", "provider", ".", host());
    let previous = tui.looks.theme.name.to_string();

    tui.handle_command("/theme totally-bogus-theme");

    settle(&mut tui);

    assert_eq!(tui.looks.theme.name, previous);
    let line = tui.chat.output_lines.last().unwrap();
    assert_eq!(line.type_, "error");
    assert!(line.content.contains("Unknown theme"), "{}", line.content);
}

#[test]
fn commands_theme_write_failure_restores_previous_theme_and_reports_error() {
    let mut tui = Tui::new("test", "model", "provider", ".", host());
    let previous = clone_theme(&tui.looks.theme);
    let selected = tui.host.theme_or_default("dune");
    tui.looks.theme = clone_theme(&selected);

    tui.apply_theme_preference(selected, clone_theme(&previous), Err("permission denied".into()));

    assert_eq!(tui.looks.theme.name, previous.name);
    assert_last_save_error(&tui, "theme preference");
}

#[test]
fn commands_thinking_write_failure_preserves_state_and_reports_error() {
    let mut tui = Tui::new("test", "model", "provider", ".", host());
    assert!(!tui.looks.show_thinking);

    tui.apply_thinking_preference(true, Err("permission denied".into()));

    assert!(!tui.looks.show_thinking);
    assert_last_save_error(&tui, "thinking preference");
}

#[test]
fn commands_suggestions_write_failure_preserves_state_and_reports_error() {
    let mut tui = Tui::new("test", "model", "provider", ".", host());
    assert!(!tui.looks.show_suggestions);

    tui.apply_suggestions_preference(true, Err("permission denied".into()));

    assert!(!tui.looks.show_suggestions);
    assert_last_save_error(&tui, "suggestions preference");
}

#[test]
fn commands_exit_commands_stop_the_event_loop() {
    for command in ["/exit", "/quit", "/q"] {
        let mut tui = Tui::new("test", "test-model", "test-provider", ".", host());
        tui.composer.input_buf = command.into();
        tui.composer.cursor = tui.composer.input_buf.len();

        assert!(
            !press(&mut tui, KeyCode::Enter),
            "{command} should request normal event-loop termination"
        );
    }
}

#[test]
fn commands_help_command_opens_overlay_without_transcript_dump() {
    let mut tui = Tui::new("test", "model", "provider", ".", host());
    let before = tui.chat.output_lines.len();
    tui.handle_command("/help");
    settle(&mut tui);
    assert!(tui.prompts.show_help);
    assert_eq!(
        tui.chat.output_lines.len(),
        before,
        "/help must not dump into the transcript"
    );
}

#[test]
fn commands_esc_and_enter_close_help_overlay() {
    let mut tui = Tui::new("test", "model", "provider", ".", host());
    tui.prompts.show_help = true;
    press(&mut tui, KeyCode::Esc);
    assert!(!tui.prompts.show_help);

    tui.prompts.show_help = true;
    press(&mut tui, KeyCode::Enter);
    assert!(!tui.prompts.show_help);
}
