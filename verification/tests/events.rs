//! Agent events and the pace of the event loop.

use cairn_tui::events::{AgentEvent, Next, TerminalEvent, MIN_FRAME, SPINNER_INTERVAL};
use cairn_tui::host::{Credentials, Host, Platform, Provider};
use cairn_tui::keys::{KeyCode, KeyEvent, MouseEvent};
use cairn_tui::llm::{ModelInfo, Usage};
use cairn_tui::request::{After, Request, Sound};
use cairn_tui::state::State;
use cairn_tui::theme::Theme;
use cairn_tui::{OutputLine, Tui};
use std::sync::mpsc;

fn model(id: &str) -> ModelInfo {
    ModelInfo { id: id.into(), name: id.into(), max_ctx: 8192 }
}

fn credentials(provider: &str, needs_credential: bool) -> Credentials {
    Credentials {
        provider: provider.into(),
        needs_credential,
        usable_credential: !needs_credential,
        requires_api_key: needs_credential,
        supports_oauth: false,
        config_has_api_key: false,
        env_var: None,
        env_key_set: false,
    }
}

fn theme(name: &str) -> Theme {
    Theme { name: name.into(), label: name.into() }
}

fn host() -> Host {
    Host {
        providers: vec![
            Provider {
                name: "anthropic".into(),
                models: vec![model("opus")],
                default_model: "opus".into(),
            },
            Provider {
                name: "ollama".into(),
                models: vec![model("llama3.2"), model("mistral")],
                default_model: "llama3.2".into(),
            },
        ],
        credentials: vec![credentials("anthropic", true), credentials("ollama", false)],
        unlisted: credentials("", true),
        themes: vec![theme("dark"), theme("dune")],
        default_theme: theme("dark"),
        sessions: vec![],
        sessions_dir: "/tmp/sessions".into(),
        fresh_session_id: "fresh".into(),
        now_ns: 1_000_000_000,
        unix_secs: 1_700_000_000,
        term_lines: None,
        platform: Platform::Unix,
        cost_text: "$0.00".into(),
        cost_positive: false,
    }
}

fn running() -> Tui {
    let mut t = Tui::new("test", "llama3.2", "ollama", ".", host());
    t.begin_running();
    t
}

fn shown(t: &Tui) -> Vec<(&str, &str, &str)> {
    t.chat
        .output_lines
        .iter()
        .map(|l| (l.type_.as_str(), l.content.as_str(), l.tool_name.as_str()))
        .collect()
}

#[test]
fn a_turn_streams_into_the_transcript() {
    let mut t = running();
    assert_eq!(t.chat.running_started, Some(1_000_000_000));
    t.apply_event(AgentEvent::Thinking("let me ".into()));
    t.apply_event(AgentEvent::Thinking("see".into()));
    t.apply_event(AgentEvent::Text("I will ".into()));
    t.apply_event(AgentEvent::Text("look.".into()));
    assert_eq!(t.chat.streaming_text, "I will look.");
    assert!(t.chat.output_lines.is_empty());
    t.host.now_ns += 3_000_000_000;
    t.apply_event(AgentEvent::ToolUse("ls".into(), "{}".into()));
    t.apply_event(AgentEvent::ToolResult("ls".into(), "{}".into(), "a.rs".into()));
    assert_eq!(
        shown(&t),
        vec![
            ("thinking_summary", "Thought for 3s", ""),
            ("text", "I will look.", ""),
            ("tool_use", "{}", "ls"),
            ("tool_result", "a.rs", "ls"),
        ]
    );
    assert!(t.chat.streaming_text.is_empty());
    assert!(t.chat.stream_thinking.is_empty());
}

#[test]
fn thinking_is_kept_in_full_where_it_is_shown() {
    let mut t = running();
    t.set_show_thinking(true);
    t.apply_event(AgentEvent::Thinking("hm".into()));
    t.apply_event(AgentEvent::Compacted(12));
    assert_eq!(
        shown(&t),
        vec![
            ("thinking", "hm", ""),
            ("system", "Compacted 12 earlier messages into a summary.", ""),
        ]
    );
}

#[test]
fn only_provider_failures_offer_a_way_out() {
    let mut t = running();
    t.apply_event(AgentEvent::Error {
        message: "compaction failed".into(),
        redacted: "compaction failed".into(),
    });
    assert!(!t.prompts.show_recovery_prompt);
    assert!(t.take_requests().is_empty());
    t.apply_event(AgentEvent::Error {
        message: "LLM error: key abc".into(),
        redacted: "LLM error: key ***".into(),
    });
    assert!(t.prompts.show_recovery_prompt);
    assert_eq!(t.prompts.recovery_selection, 0);
    assert_eq!(t.chat.output_lines.last().unwrap().content, "LLM error: key ***");
    assert_eq!(t.take_requests(), vec![Request::Notify(Sound::Attention)]);
}

#[test]
fn a_permission_request_opens_a_fresh_prompt() {
    let mut t = running();
    t.permission.perm_selection = 3;
    t.permission.perm_discuss_buf = "old".into();
    t.permission.perm_discuss_cursor = 3;
    t.apply_event(AgentEvent::PermissionRequest("shell".into(), "{}".into()));
    assert!(t.permission.show_permission_prompt);
    assert_eq!(t.permission.perm_tool_name, "shell");
    assert_eq!(t.permission.perm_tool_input, "{}");
    assert_eq!(t.permission.perm_selection, 0);
    assert!(t.permission.perm_discuss_buf.is_empty());
    assert_eq!(t.permission.perm_discuss_cursor, 0);
    assert_eq!(t.take_requests(), vec![Request::Notify(Sound::Attention)]);
}

#[test]
fn usage_adds_up_over_turns() {
    let mut t = running();
    let u = Usage { input_tokens: 3, output_tokens: 4, cache_read: 9, cache_create: 9 };
    t.apply_event(AgentEvent::TurnEnd(u));
    t.apply_event(AgentEvent::TurnEnd(u));
    assert_eq!(t.chat.total_usage.input_tokens, 6);
    assert_eq!(t.chat.total_usage.output_tokens, 8);
    assert_eq!(t.chat.total_usage.cache_read, 0);
}

#[test]
fn the_end_of_a_turn_saves_before_it_is_announced() {
    let mut t = running();
    t.chat.expect_turn_notify = true;
    t.add_output_line(OutputLine {
        type_: "user".into(),
        content: "hi".into(),
        tool_name: String::new(),
        duration: String::new(),
    });
    t.apply_event(AgentEvent::Text("hello".into()));
    t.apply_event(AgentEvent::Done);
    assert_eq!(t.chat.state, State::Idle);
    assert_eq!(t.chat.running_started, None);
    let requests = t.take_requests();
    assert_eq!(requests.len(), 1);
    match &requests[0] {
        Request::SaveSession { session, then } => {
            assert_eq!(session.messages.len(), 2);
            assert_eq!(*then, After::FinishTurn);
            t.session_saved(session, *then, Ok(()));
        }
        other => panic!("expected a save, got {other:?}"),
    }
    assert_eq!(t.take_requests(), vec![Request::Notify(Sound::Done)]);
    assert!(!t.chat.expect_turn_notify);
}

#[test]
fn a_finished_sign_in_opens_the_model_list() {
    let mut t = running();
    t.account.pending_model_after_auth = true;
    t.apply_event(AgentEvent::Done);
    assert_eq!(
        shown(&t),
        vec![("system", "Signed in to ollama. Choose a model.", "")]
    );
    assert!(t.pickers.show_model_picker);
    assert!(!t.account.pending_model_after_auth);
}

#[test]
fn a_failed_sign_in_asks_for_a_key() {
    let mut t = running();
    t.account.pending_model_after_auth = true;
    t.account.pending_provider_selection = Some("anthropic".into());
    t.apply_event(AgentEvent::Done);
    assert_eq!(
        t.chat.output_lines[0].content,
        "OAuth for anthropic did not complete. Paste an API key below, or run `/auth login anthropic` again."
    );
    assert_eq!(
        t.chat.output_lines[1].content,
        "Enter API key for anthropic (saved to OS keyring, env API_KEY). Input is masked."
    );
    assert!(t.account.awaiting_api_key);
    assert_eq!(t.account.api_key_target.as_deref(), Some("anthropic"));
    assert!(t.account.pending_model_after_auth);
}

#[test]
fn the_spinner_keeps_its_own_pace() {
    let mut t = running();
    t.dirty = false;
    let before = t.chat.spinner_idx;
    assert!(!t.advance_spinner(SPINNER_INTERVAL - 1));
    assert_eq!(t.chat.spinner_idx, before);
    assert!(t.advance_spinner(SPINNER_INTERVAL));
    assert_eq!(t.chat.spinner_idx, before + 1);
    assert!(t.dirty);
}

#[test]
fn waits_end_with_the_frame_or_the_spinner() {
    let mut t = running();
    t.dirty = false;
    assert_eq!(t.poll_wait(0, 0), MIN_FRAME);
    assert_eq!(t.poll_wait(SPINNER_INTERVAL - 5, 0), 5);
    assert_eq!(t.poll_wait(SPINNER_INTERVAL + 5, 0), 0);
    t.dirty = true;
    assert_eq!(t.poll_wait(0, 1_000_000), MIN_FRAME - 1_000_000);
    assert_eq!(t.poll_wait(0, MIN_FRAME), 0);
}

#[test]
fn frames_are_coalesced_only_while_running() {
    let mut t = running();
    t.dirty = true;
    assert!(!t.draws_now(MIN_FRAME - 1));
    assert!(t.draws_now(MIN_FRAME));
    assert!(!t.blocks_on_input(false));
    t.chat.state = State::Idle;
    assert!(t.draws_now(0));
    assert!(!t.blocks_on_input(false));
    t.dirty = false;
    assert!(!t.draws_now(0));
    assert!(t.blocks_on_input(false));
    assert!(!t.blocks_on_input(true));
}

#[test]
fn a_sign_in_starts_only_when_the_agent_can_take_it() {
    let mut t = Tui::new("test", "llama3.2", "ollama", ".", host());
    t.begin_oauth_login("ollama", false);
    assert_eq!(
        t.chat.output_lines.last().unwrap().content,
        "OAuth login is not implemented for 'ollama'. Supported: xai. Use an API key via /auth key ollama."
    );
    let mut xai = credentials("xai", true);
    xai.supports_oauth = true;
    t.host.credentials.push(xai);
    t.begin_oauth_login("xai", false);
    assert_eq!(
        t.chat.output_lines.last().unwrap().content,
        "Agent channel not ready; cannot start OAuth."
    );
    let (tx, _rx) = mpsc::channel();
    t.set_agent_tx(tx);
    t.begin_oauth_login("xai", true);
    assert_eq!(t.take_requests(), vec![Request::Agent("__auth_login__:xai".into())]);
    assert_eq!(t.chat.state, State::Running);
    assert!(t.account.pending_model_after_auth);
    t.begin_oauth_login("xai", false);
    assert_eq!(
        t.chat.output_lines.last().unwrap().content,
        "Wait for the current turn to finish before logging in."
    );
}

fn idle() -> Tui {
    let mut t = Tui::new("test", "llama3.2", "ollama", ".", host());
    t.dirty = false;
    t
}

fn release(code: KeyCode) -> KeyEvent {
    KeyEvent { press: false, ..KeyEvent::plain(code) }
}

#[test]
fn a_key_is_drawn_and_typed() {
    let mut t = idle();
    assert_eq!(t.take_input(TerminalEvent::Key(KeyEvent::plain(KeyCode::Char('x')))), Next::GoOn);
    assert_eq!(t.composer.input_buf, "x");
    assert!(t.dirty);
    // While Idle, any key event is worth a frame.
    let mut t = idle();
    assert_eq!(t.take_input(TerminalEvent::Key(release(KeyCode::Char('x')))), Next::GoOn);
    assert_eq!(t.composer.input_buf, "");
    assert!(t.dirty);
    // While Running, only a press is.
    let mut t = running();
    t.dirty = false;
    assert_eq!(t.take_input(TerminalEvent::Key(release(KeyCode::Char('x')))), Next::GoOn);
    assert!(!t.dirty);
    assert_eq!(t.take_input(TerminalEvent::Key(KeyEvent::plain(KeyCode::Char('x')))), Next::GoOn);
    assert!(t.dirty);
}

#[test]
fn only_an_idle_program_is_left() {
    let ctrl_c = || KeyEvent { control: true, ..KeyEvent::plain(KeyCode::Char('c')) };
    let mut t = idle();
    assert_eq!(t.take_input(TerminalEvent::Key(ctrl_c())), Next::GoOn);
    t.dirty = false;
    assert_eq!(t.take_input(TerminalEvent::Key(ctrl_c())), Next::Leave);
    assert!(!t.dirty);
    let mut t = running();
    for _ in 0..3 {
        t.chat.state = State::Running;
        assert_eq!(t.take_input(TerminalEvent::Key(ctrl_c())), Next::GoOn);
    }
}

#[test]
fn pastes_and_wheels_are_drawn_when_they_count() {
    let mut t = idle();
    assert_eq!(t.take_input(TerminalEvent::Paste("\u{1b}[0m".into())), Next::GoOn);
    assert!(!t.dirty);
    assert_eq!(t.take_input(TerminalEvent::Paste("two\nlines".into())), Next::GoOn);
    assert_eq!(t.composer.input_buf, "two\nlines");
    assert!(t.dirty);
    t.dirty = false;
    assert_eq!(t.take_input(TerminalEvent::Mouse(MouseEvent::Other)), Next::GoOn);
    assert!(!t.dirty);
    assert_eq!(t.take_input(TerminalEvent::Mouse(MouseEvent::ScrollUp)), Next::GoOn);
    assert!(t.dirty);
}

#[test]
fn a_resize_rebuilds_the_screen() {
    let mut t = idle();
    assert_eq!(t.take_input(TerminalEvent::Other), Next::GoOn);
    assert!(!t.dirty);
    assert_eq!(t.take_input(TerminalEvent::Resize), Next::Rebuild);
    assert!(t.dirty);
    assert!(!t.blocks_on_input(false));
}
