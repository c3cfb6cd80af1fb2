//! Saving, listing, resuming and deleting sessions.

use cairn_tui::host::{Credentials, Host, Platform, Provider};
use cairn_tui::llm::{Content, ImageBlock, Message, ModelInfo, ToolResult, ToolUse, UserBlocks};
use cairn_tui::request::{After, Request};
use cairn_tui::session::{LiveMirror, Session, SessionSummary};
use cairn_tui::state::State;
use cairn_tui::theme::Theme;
use cairn_tui::{OutputLine, Tui};
use std::sync::mpsc;

fn model(id: &str) -> ModelInfo {
    ModelInfo { id: id.into(), name: id.into(), max_ctx: 8192 }
}

fn credentials(provider: &str, needs_credential: bool) -> Credentials {
    Credentials {
        provider: provider.into(),
        needs_credential,
        usable_credential: !needs_credential,
        requires_api_key: needs_credential,
        supports_oauth: false,
        config_has_api_key: false,
        env_var: None,
        env_key_set: false,
    }
}

fn theme(name: &str) -> Theme {
    Theme { name: name.into(), label: name.into() }
}

fn host() -> Host {
    Host {
        providers: vec![
            Provider {
                name: "anthropic".into(),
                models: vec![model("opus")],
                default_model: "opus".into(),
            },
            Provider {
                name: "ollama".into(),
                models: vec![model("llama3.2"), model("mistral")],
                default_model: "llama3.2".into(),
            },
        ],
        credentials: vec![credentials("anthropic", true), credentials("ollama", false)],
        unlisted: credentials("", true),
        themes: vec![theme("dark"), theme("dune")],
        default_theme: theme("dark"),
        sessions: vec![],
        sessions_dir: "/tmp/sessions".into(),
        fresh_session_id: "fresh".into(),
        now_ns: 1_000_000_000,
        unix_secs: 1_700_000_000,
        term_lines: None,
        platform: Platform::Unix,
        cost_text: "$0.00".into(),
        cost_positive: false,
    }
}

fn tui() -> Tui {
    Tui::new("test", "llama3.2", "ollama", ".", host())
}

fn line(type_: &str, content: &str, tool_name: &str) -> OutputLine {
    OutputLine {
        type_: type_.into(),
        content: content.into(),
        tool_name: tool_name.into(),
        duration: String::new(),
    }
}

fn text(role: &str, t: &str) -> Message {
    Message { role: role.into(), content: Content::Text(t.into()) }
}

fn last(tui: &Tui) -> (&str, &str) {
    let l = tui.chat.output_lines.last().unwrap();
    (&l.type_, &l.content)
}

fn saved(tui: &mut Tui) -> (Session, After) {
    let mut requests = tui.take_requests();
    assert_eq!(requests.len(), 1);
    match requests.remove(0) {
        Request::SaveSession { session, then } => (session, then),
        other => panic!("expected a save, got {other:?}"),
    }
}

fn session(id: &str, messages: Vec<Message>) -> Session {
    Session {
        id: id.into(),
        model: "mistral".into(),
        provider: "ollama".into(),
        messages,
        tokens_in: 11,
        tokens_out: 22,
        created_at: 5,
        updated_at: 9,
    }
}

#[test]
fn nothing_to_save_is_said_only_when_asked() {
    let mut t = tui();
    t.save_session();
    assert_eq!(last(&t), ("system", "Nothing to save - no conversation yet."));
    assert!(t.take_requests().is_empty());

    let mut t = tui();
    t.autosave_session(false);
    assert!(t.chat.output_lines.is_empty());
}

#[test]
fn a_saved_conversation_holds_every_turn_and_tool() {
    let mut t = tui();
    t.add_output_line(line("user", "list files", ""));
    t.add_output_line(line("system", "noise", ""));
    t.add_output_line(line("tool_use", "{}", "ls"));
    t.add_output_line(line("tool_result", "a.rs", "ls"));
    t.add_output_line(line("text", "One file.", ""));
    t.chat.total_usage.input_tokens = 7;
    t.chat.total_usage.output_tokens = 3;
    t.save_session();
    let (s, then) = saved(&mut t);
    assert_eq!(then, After::Announce);
    assert_eq!(s.id, "fresh");
    assert_eq!((s.tokens_in, s.tokens_out), (7, 3));
    assert_eq!((s.created_at, s.updated_at), (1_700_000_000, 1_700_000_000));
    assert_eq!(s.messages.len(), 4);
    assert_eq!(s.messages[0], text("user", "list files"));
    assert_eq!(
        s.messages[1].content,
        Content::ToolUse(ToolUse { id: String::new(), name: "ls".into(), input: "{}".into() })
    );
    assert_eq!(
        s.messages[2].content,
        Content::ToolResult(ToolResult { tool_use_id: String::new(), content: "a.rs".into() })
    );
    assert_eq!(s.messages[3], text("assistant", "One file."));

    t.session_saved(&s, then, Ok(()));
    assert_eq!(last(&t), ("system", "Session saved: fresh (4 msgs) → /tmp/sessions"));
    assert_eq!(t.saved.last_checkpoint_save, Some(1_000_000_000));
}

#[test]
fn the_mirror_comes_before_the_transcript() {
    let mut t = tui();
    t.add_output_line(line("user", "shown", ""));
    t.set_live_mirror(LiveMirror {
        messages: vec![text("user", "mirrored")],
        tokens_in: 1,
        tokens_out: 2,
    });
    let what = t.session_snapshot();
    assert_eq!(what.messages, vec![text("user", "mirrored")]);
    assert_eq!((what.tokens_in, what.tokens_out), (1, 2));
}

#[test]
fn a_failed_save_is_always_reported() {
    let mut t = tui();
    t.add_output_line(line("user", "hi", ""));
    t.autosave_session(false);
    let (s, then) = saved(&mut t);
    assert_eq!(then, After::Quiet);
    t.session_saved(&s, then, Err("disk full".into()));
    assert_eq!(last(&t), ("error", "Failed to save session: disk full"));
    assert_eq!(t.saved.last_checkpoint_save, None);
    assert_eq!(t.saved.current_session_id.as_deref(), Some("fresh"));
}

#[test]
fn every_save_of_a_conversation_goes_to_one_file() {
    let mut t = tui();
    t.add_output_line(line("user", "hi", ""));
    t.autosave_session(false);
    let (first, then) = saved(&mut t);
    t.session_saved(&first, then, Ok(()));
    t.host.fresh_session_id = "another".into();
    t.host.unix_secs += 60;
    t.autosave_session(false);
    let (second, _) = saved(&mut t);
    assert_eq!(second.id, first.id);
    assert_eq!(second.created_at, first.created_at);
    assert_eq!(second.updated_at, first.updated_at + 60);
}

#[test]
fn checkpoints_keep_two_seconds_apart() {
    let mut t = tui();
    t.add_output_line(line("user", "hi", ""));
    t.checkpoint_session();
    let (s, then) = saved(&mut t);
    t.session_saved(&s, then, Ok(()));
    t.host.now_ns += 1_999_999_999;
    t.checkpoint_session();
    assert!(t.take_requests().is_empty());
    t.host.now_ns += 1;
    t.checkpoint_session();
    saved(&mut t);
}

#[test]
fn resuming_rebuilds_the_transcript() {
    let mut t = tui();
    let (tx, _rx) = mpsc::channel();
    t.set_agent_tx(tx);
    t.set_live_mirror(LiveMirror::empty());
    t.resume_session("0123456789abcdef");
    assert_eq!(t.take_requests(), vec![Request::LoadSession("0123456789abcdef".into())]);
    let image = ImageBlock { media_type: "image/png".into(), data_base64: "x".into() };
    let messages = vec![
        text("user", "look"),
        Message {
            role: "user".into(),
            content: Content::User(UserBlocks { text: "see".into(), images: vec![image] }),
        },
        Message { role: "assistant".into(), content: Content::Thinking("hm".into()) },
        Message { role: "assistant".into(), content: Content::Thinking("  ".into()) },
        Message {
            role: "assistant".into(),
            content: Content::ToolUse(ToolUse {
                id: "1".into(),
                name: "ls".into(),
                input: "{}".into(),
            }),
        },
        Message {
            role: "user".into(),
            content: Content::ToolResult(ToolResult {
                tool_use_id: "1".into(),
                content: "a".into(),
            }),
        },
        Message {
            role: "user".into(),
            content: Content::ToolResult(ToolResult {
                tool_use_id: "2".into(),
                content: "b".into(),
            }),
        },
        text("assistant", "done"),
    ];
    t.session_loaded(Ok(session("0123456789abcdef", messages)));
    let shown: Vec<(&str, &str, &str)> = t
        .chat
        .output_lines
        .iter()
        .map(|l| (l.type_.as_str(), l.content.as_str(), l.tool_name.as_str()))
        .collect();
    assert_eq!(
        shown,
        vec![
            ("user", "look", ""),
            ("user", "see\n[image]", ""),
            ("thinking_summary", "Thought", ""),
            ("tool_use", "{}", "ls"),
            ("tool_result", "a", "ls"),
            ("tool_result", "b", "tool"),
            ("text", "done", ""),
            ("system", "Resumed session 01234567 (model: mistral, messages: 8)", ""),
        ]
    );
    assert_eq!(t.account.model, "mistral");
    assert_eq!(t.saved.current_session_id.as_deref(), Some("0123456789abcdef"));
    assert_eq!(t.saved.session_created_at, 5);
    assert_eq!(t.chat.total_usage.input_tokens, 11);
    assert_eq!(
        t.take_requests(),
        vec![
            Request::StoreMirror,
            Request::Agent("__switch__:ollama:mistral".into()),
            Request::Agent("__load_session__:0123456789abcdef".into()),
        ]
    );

    // The next save writes the whole history again.
    t.save_session();
    let (again, _) = saved(&mut t);
    assert_eq!(again.messages.len(), 8);
    assert_eq!(again.id, "0123456789abcdef");
    assert_eq!(again.created_at, 5);
}

#[test]
fn resuming_keeps_thinking_where_it_is_shown() {
    let mut t = tui();
    t.set_show_thinking(true);
    let thought = Message { role: "assistant".into(), content: Content::Thinking("hm".into()) };
    t.session_loaded(Ok(session("short", vec![thought])));
    assert_eq!(t.chat.output_lines[0].type_, "thinking");
    assert_eq!(t.chat.output_lines[0].content, "hm");
    assert_eq!(last(&t).1, "Resumed session short (model: mistral, messages: 1)");
}

#[test]
fn a_session_that_cannot_be_read_changes_nothing() {
    let mut t = tui();
    t.session_loaded(Err("no such file".into()));
    assert_eq!(last(&t), ("error", "Failed to load session: no such file"));
    assert_eq!(t.account.model, "llama3.2");
    assert!(t.saved.current_session_id.is_none());
}

#[test]
fn sessions_are_listed_with_their_summaries() {
    let mut t = tui();
    t.list_sessions();
    assert_eq!(last(&t), ("system", "No saved sessions."));
    t.host.sessions = vec![
        SessionSummary {
            id: "0123456789".into(),
            model: "m".into(),
            summary: "first".into(),
            msg_count: 2,
            updated_at: 1_700_000_000 - 30,
        },
        SessionSummary {
            id: "abcdefghij".into(),
            model: "n".into(),
            summary: String::new(),
            msg_count: 1,
            updated_at: 1_700_000_000 - 7200,
        },
    ];
    t.list_sessions();
    assert_eq!(
        last(&t).1,
        "Saved sessions:\n  01234567  m  2 msgs  just now\n    first\n  abcdefgh  n  1 msgs  2h 0m ago"
    );
}

#[test]
fn deleting_reports_either_way() {
    let mut t = tui();
    t.delete_session("0123456789");
    assert_eq!(t.take_requests(), vec![Request::DeleteSession("0123456789".into())]);
    t.session_deleted("0123456789", Ok(()));
    assert_eq!(last(&t), ("system", "Deleted session 01234567."));
    t.session_deleted("0123456789", Err("gone".into()));
    assert_eq!(last(&t), ("error", "Failed to delete session: gone"));
}

#[test]
fn delete_command_resolves_its_query_first() {
    let mut t = tui();
    t.handle_command("/delete 0123");
    assert_eq!(t.take_requests(), vec![Request::ResolveSession("0123".into())]);
    t.session_resolved(Err("No session matches '0123'".into()));
    assert_eq!(last(&t), ("error", "No session matches '0123'"));
    t.session_resolved(Ok("0123456789".into()));
    assert_eq!(t.take_requests(), vec![Request::DeleteSession("0123456789".into())]);
}

#[test]
fn clearing_saves_first_and_starts_over() {
    let mut t = tui();
    let (tx, _rx) = mpsc::channel();
    t.set_agent_tx(tx);
    t.set_live_mirror(LiveMirror {
        messages: vec![text("user", "old")],
        tokens_in: 1,
        tokens_out: 1,
    });
    t.add_output_line(line("user", "old", ""));
    t.chat.total_usage.input_tokens = 4;
    assert!(t.handle_command("/clear"));
    let requests = t.take_requests();
    assert_eq!(requests.len(), 3);
    match &requests[0] {
        Request::SaveSession { session, then } => {
            assert_eq!(session.messages, vec![text("user", "old")]);
            assert_eq!(*then, After::Discard);
            t.session_saved(session, *then, Err("disk full".into()));
        }
        other => panic!("expected a save, got {other:?}"),
    }
    assert_eq!(requests[1], Request::Agent("__clear__".into()));
    assert_eq!(requests[2], Request::StoreMirror);
    assert_eq!(t.chat.output_lines.len(), 1);
    assert_eq!(last(&t), ("system", "Cleared conversation and session state."));
    assert!(t.saved.current_session_id.is_none());
    assert_eq!(t.saved.session_created_at, 0);
    assert_eq!(t.chat.total_usage.input_tokens, 0);
    assert!(t.session_snapshot().messages.is_empty());
}

#[test]
fn clearing_waits_for_the_turn() {
    let mut t = tui();
    t.chat.state = State::Running;
    t.handle_command("/clear");
    assert_eq!(
        last(&t),
        ("system", "Wait for the current turn to finish before clearing.")
    );
}
