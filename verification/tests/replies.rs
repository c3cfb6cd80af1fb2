//! What the UI asks of its host, and what it makes of the answers.

use cairn_tui::clipboard::MAX_PENDING_IMAGES;
use cairn_tui::host::{Credentials, Host, Platform, Provider};
use cairn_tui::keys::{KeyCode, KeyEvent, MouseEvent};
use cairn_tui::listings::{McpList, McpServer, Skill, SkillList};
use cairn_tui::llm::{ImageBlock, ModelInfo};
use cairn_tui::request::Request;
use cairn_tui::state::{SelectDump, State};
use cairn_tui::theme::Theme;
use cairn_tui::{OutputLine, Tui};
use std::sync::mpsc;

fn model(id: &str) -> ModelInfo {
    ModelInfo { id: id.into(), name: id.into(), max_ctx: 8192 }
}

fn credentials(provider: &str, needs_credential: bool) -> Credentials {
    Credentials {
        provider: provider.into(),
        needs_credential,
        usable_credential: !needs_credential,
        requires_api_key: needs_credential,
        supports_oauth: false,
        config_has_api_key: false,
        env_var: None,
        env_key_set: false,
    }
}

fn theme(name: &str) -> Theme {
    Theme { name: name.into(), label: name.into() }
}

fn host() -> Host {
    Host {
        providers: vec![
            Provider {
                name: "anthropic".into(),
                models: vec![model("opus")],
                default_model: "opus".into(),
            },
            Provider {
                name: "ollama".into(),
                models: vec![model("llama3.2"), model("mistral")],
                default_model: "llama3.2".into(),
            },
        ],
        credentials: vec![credentials("anthropic", true), credentials("ollama", false)],
        unlisted: credentials("", true),
        themes: vec![theme("dark"), theme("dune")],
        default_theme: theme("dark"),
        sessions: vec![],
        sessions_dir: "/tmp/sessions".into(),
        fresh_session_id: "fresh".into(),
        now_ns: 1_000_000_000,
        unix_secs: 1_700_000_000,
        term_lines: None,
        platform: Platform::Unix,
        cost_text: "$0.00".into(),
        cost_positive: false,
    }
}

fn tui() -> Tui {
    Tui::new("test", "llama3.2", "ollama", ".", host())
}

fn with_agent() -> Tui {
    let mut t = tui();
    let (tx, _rx) = mpsc::channel();
    t.set_agent_tx(tx);
    t
}

fn key(t: &mut Tui, code: KeyCode) -> bool {
    t.handle_key(KeyEvent::plain(code))
}

fn say(t: &mut Tui, type_: &str, content: &str, tool_name: &str) {
    t.add_output_line(OutputLine {
        type_: type_.into(),
        content: content.into(),
        tool_name: tool_name.into(),
        duration: String::new(),
    });
}

fn last(t: &Tui) -> (&str, &str) {
    let l = t.chat.output_lines.last().unwrap();
    (&l.type_, &l.content)
}

fn image() -> ImageBlock {
    ImageBlock { media_type: "image/png".into(), data_base64: "Zm9v".into() }
}

#[test]
fn a_prompt_goes_to_the_agent_once() {
    let mut t = with_agent();
    t.set_input("  fix it  ".into());
    assert!(key(&mut t, KeyCode::Enter));
    assert_eq!(t.take_requests(), vec![Request::Agent("fix it".into())]);
    assert_eq!(last(&t), ("user", "fix it"));
    assert_eq!(t.chat.state, State::Running);
    assert_eq!(t.composer.history, vec!["fix it".to_string()]);
    assert_eq!(t.saved.current_session_id.as_deref(), Some("fresh"));
    // While the turn runs, Enter keeps what is typed.
    t.set_input("and this".into());
    assert!(key(&mut t, KeyCode::Enter));
    assert!(t.take_requests().is_empty());
    assert_eq!(t.composer.input_buf, "and this");
}

#[test]
fn images_go_out_with_the_prompt() {
    let mut t = with_agent();
    t.composer.pending_images.push(image());
    t.set_input("/not a command".into());
    key(&mut t, KeyCode::Enter);
    assert_eq!(
        t.take_requests(),
        vec![Request::Agent(
            r#"__user_json__:{"text":"/not a command","images":[{"media_type":"image/png","data":"Zm9v"}]}"#
                .into()
        )]
    );
    assert_eq!(last(&t).1, "/not a command\n[image]");
    assert!(t.composer.pending_images.is_empty());
}

#[test]
fn blank_prompts_and_unknown_commands_go_nowhere() {
    let mut t = with_agent();
    t.set_input("   ".into());
    key(&mut t, KeyCode::Enter);
    assert_eq!(t.composer.input_buf, "   ");
    assert!(t.chat.output_lines.is_empty());
    t.set_input("/nope x".into());
    key(&mut t, KeyCode::Enter);
    assert_eq!(last(&t), ("error", "Unknown command: /nope (type /help)"));
    assert!(t.take_requests().is_empty());
}

#[test]
fn an_image_is_attached_once_it_was_read() {
    let mut t = tui();
    t.paste_clipboard_image();
    assert_eq!(t.take_requests(), vec![Request::ReadClipboardImage]);
    t.clipboard_image_read(Ok((image(), 3)));
    assert_eq!(t.composer.pending_images.len(), 1);
    assert_eq!(
        last(&t),
        (
            "system",
            "Attached clipboard image (image/png, 3 bytes). Add a caption in the composer and press Enter - or paste more images."
        )
    );
    t.clipboard_image_read(Err("no image".into()));
    assert_eq!(last(&t), ("error", "Clipboard image paste failed: no image"));
    assert_eq!(t.composer.pending_images.len(), 1);
}

#[test]
fn images_are_limited_and_wait_for_the_turn() {
    let mut t = tui();
    for _ in 0..MAX_PENDING_IMAGES {
        t.composer.pending_images.push(image());
    }
    t.paste_clipboard_image();
    assert!(t.take_requests().is_empty());
    assert_eq!(
        last(&t),
        ("error", "At most 4 images can be attached to one message.")
    );
    t.chat.state = State::Running;
    t.paste_clipboard_image();
    assert_eq!(
        last(&t),
        ("system", "Wait for the current turn to finish before pasting an image.")
    );
    let before = t.chat.output_lines.len();
    t.prompts.show_help = true;
    t.paste_clipboard_image();
    assert_eq!(t.chat.output_lines.len(), before);
}

#[test]
fn the_image_chord_depends_on_the_platform() {
    let v = KeyCode::Char('v');
    let mut alt = KeyEvent::plain(v);
    alt.alt = true;
    let mut command = KeyEvent::plain(v);
    command.command = true;
    let control = KeyEvent::with_control(v);
    let mut both = control;
    both.alt = true;
    for (platform, chord) in [
        (Platform::Windows, alt),
        (Platform::MacOs, command),
        (Platform::Unix, control),
    ] {
        for key in [alt, command, control, both, KeyEvent::plain(v)] {
            assert_eq!(key.is_image_paste_chord(platform), key == chord, "{platform:?} {key:?}");
        }
    }
    assert!(!control.is_image_paste_chord(Platform::Other));
    assert!(!KeyEvent::with_control(KeyCode::Char('x')).is_image_paste_chord(Platform::Unix));
}

#[test]
fn the_last_answer_is_copied() {
    let mut t = tui();
    t.copy_last_assistant_to_clipboard();
    assert_eq!(
        last(&t).1,
        "Nothing to copy (no assistant message yet). Try /select to open plain-text view."
    );
    say(&mut t, "text", "first", "");
    say(&mut t, "text", "naïve", "");
    say(&mut t, "text", "  ", "");
    t.copy_last_assistant_to_clipboard();
    assert_eq!(t.take_requests(), vec![Request::CopyText("naïve".into())]);
    t.text_copied("naïve", Ok("OSC 52".into()));
    assert_eq!(
        last(&t),
        (
            "system",
            "Copied last assistant message (5 chars via OSC 52). Tip: Shift+drag selects in the TUI; /select (Ctrl+O) for plain-text view."
        )
    );
    t.text_copied("naïve", Err("write OSC 52: closed".into()));
    assert_eq!(
        last(&t).1,
        "Copy failed: write OSC 52: closed. Try Shift+drag to select, or /select (Ctrl+O)."
    );
}

#[test]
fn plain_text_dumps_hold_the_whole_session() {
    let mut t = tui();
    assert_eq!(t.select_dump_text(SelectDump::LastAssistant), "(no assistant message yet)");
    assert_eq!(t.select_dump_text(SelectDump::FullTranscript), "(empty session)");
    say(&mut t, "user", "hi", "");
    say(&mut t, "thinking", "hm", "");
    say(&mut t, "thinking_summary", "Thought", "");
    say(&mut t, "tool_use", "{}", "ls");
    say(&mut t, "tool_result", "a", "ls");
    say(&mut t, "error", "bad", "");
    say(&mut t, "text", "done", "");
    t.chat.streaming_text = "more".into();
    assert_eq!(
        t.select_dump_text(SelectDump::FullTranscript),
        "› hi\n\n── Thinking ──\nhm\n\n✦ Thought\n● ls {}\n● ls result:\na\nError: bad\ndone\n\nmore\n"
    );
    assert_eq!(t.select_dump_text(SelectDump::LastAssistant), "done");
    t.handle_command("/select all");
    assert_eq!(t.pending_select, Some(SelectDump::FullTranscript));
    t.handle_command("/select nothing");
    assert_eq!(
        last(&t).1,
        "Unknown /select option 'nothing'. Use /select, /select last, or /select all."
    );
}

#[test]
fn skills_are_listed() {
    let mut t = tui();
    t.handle_command("/skills");
    assert_eq!(t.take_requests(), vec![Request::ListSkills]);
    t.skills_listed(Ok(SkillList { dir: "/s".into(), skills: vec![] }));
    assert_eq!(
        last(&t).1,
        "No skills found. Add packs as /s/<name>/SKILL.md (or set CAIRN_SKILLS_DIR)."
    );
    let skill = |name: &str| Skill { name: name.into(), description: "does it".into() };
    t.skills_listed(Ok(SkillList { dir: "/s".into(), skills: vec![skill("b"), skill("a")] }));
    assert_eq!(
        last(&t).1,
        "Skills (2) from /s:\n  b - does it\n  a - does it\nLoad in-chat with the skill tool: {\"name\":\"...\"}"
    );
    t.skills_listed(Err("bad config".into()));
    assert_eq!(last(&t), ("error", "Error loading configuration: bad config"));
}

#[test]
fn servers_are_listed_by_name() {
    let mut t = tui();
    t.handle_command("/mcp");
    assert_eq!(t.take_requests(), vec![Request::ListMcpServers]);
    t.mcp_servers_listed(Ok(McpList { config_path: None, servers: vec![] }));
    assert_eq!(
        last(&t).1,
        "No MCP servers in config. Add mcp.servers (or mcpServers) to ~/.config/cairn-code/config.json."
    );
    let server = |name: &str, disabled: bool, args: Option<&str>| McpServer {
        name: name.into(),
        disabled,
        command: "run".into(),
        args: args.map(String::from),
    };
    let servers = vec![server("zeta", true, None), server("alpha", false, Some("--x"))];
    t.mcp_servers_listed(Ok(McpList { config_path: None, servers }));
    assert_eq!(
        last(&t).1,
        "Configured MCP servers:\n  alpha [enabled] - run --x\n  zeta [disabled] - run\nTools register at startup as mcp_<server>_<tool> (permission required)."
    );
    t.mcp_servers_listed(Err("bad config".into()));
    assert_eq!(last(&t), ("error", "Error loading configuration: bad config"));
}

#[test]
fn resets_report_what_came_back() {
    let mut t = tui();
    t.handle_command("/reset apply 1");
    assert_eq!(
        t.take_requests(),
        vec![Request::RunReset(vec!["apply".into(), "1".into()])]
    );
    t.reset_finished(Ok("applied".into()));
    assert_eq!(last(&t), ("system", "applied"));
    t.reset_finished(Err("not signed in".into()));
    assert_eq!(last(&t), ("error", "not signed in"));
}

#[test]
fn a_saved_key_is_removed_only_after_a_yes() {
    let mut t = tui();
    t.host.credentials[0].config_has_api_key = true;
    t.host.credentials[0].env_var = Some("ANTHROPIC_API_KEY".into());
    t.host.credentials[0].env_key_set = true;
    t.open_provider_picker();
    assert_eq!(t.pickers.provider_picker_list, vec!["ollama", "anthropic"]);
    assert_eq!(t.pickers.provider_picker_keys, vec![true, false]);
    key(&mut t, KeyCode::Delete);
    assert_eq!(last(&t).1, "No saved API key for ollama in the config file.");
    key(&mut t, KeyCode::Down);
    key(&mut t, KeyCode::Delete);
    assert_eq!(t.prompts.confirm_remove_provider.as_deref(), Some("anthropic"));
    key(&mut t, KeyCode::Enter);
    assert!(t.take_requests().is_empty());
    key(&mut t, KeyCode::Delete);
    key(&mut t, KeyCode::Right);
    key(&mut t, KeyCode::Enter);
    assert_eq!(t.take_requests(), vec![Request::RemoveApiKey("anthropic".into())]);
    t.api_key_removed("anthropic", Ok(true));
    assert_eq!(
        last(&t).1,
        "Removed saved API key for anthropic. Note: ANTHROPIC_API_KEY is still set in the environment and will still be used."
    );
    t.api_key_removed("anthropic", Ok(false));
    assert_eq!(last(&t).1, "No saved API key for anthropic.");
    t.api_key_removed("anthropic", Err("locked".into()));
    assert_eq!(last(&t), ("error", "Failed to remove API key for anthropic: locked"));
}

#[test]
fn a_typed_key_is_saved_and_switches_nothing() {
    let mut t = tui();
    t.handle_command("/auth key ollama");
    assert_eq!(last(&t).1, "Provider 'ollama' does not use a cloud API key.");
    t.handle_command("/auth key anthropic");
    assert!(t.account.awaiting_api_key);
    for ch in " sk-1234 ".chars() {
        key(&mut t, KeyCode::Char(ch));
    }
    key(&mut t, KeyCode::Enter);
    assert_eq!(
        t.take_requests(),
        vec![Request::SaveApiKey { target: "anthropic".into(), key: "sk-1234".into() }]
    );
    assert!(t.composer.input_buf.is_empty());
    t.api_key_saved("anthropic", "•••1234", Ok(()));
    assert_eq!(last(&t), ("system", "API key saved for anthropic (•••1234)."));
    assert_eq!(t.account.provider, "ollama");
    assert!(!t.pickers.show_model_picker);
    t.api_key_saved("anthropic", "•••1234", Err("keyring".into()));
    assert_eq!(last(&t), ("error", "Failed to save API key for anthropic: keyring"));
}

#[test]
fn a_key_for_a_new_provider_leads_to_its_models() {
    let mut t = tui();
    t.begin_provider_selection("anthropic");
    assert!(t.account.awaiting_api_key);
    assert!(t.account.pending_model_after_auth);
    t.set_input("sk".into());
    key(&mut t, KeyCode::Enter);
    t.take_requests();
    t.api_key_saved("anthropic", "••", Ok(()));
    assert_eq!(last(&t).1, "API key saved for anthropic (••). Choose a model.");
    assert!(t.pickers.show_model_picker);
    assert_eq!(t.account.provider, "ollama");
    key(&mut t, KeyCode::Enter);
    assert_eq!(
        t.take_requests(),
        vec![Request::SaveProviderModel { provider: "anthropic".into(), model: "opus".into() }]
    );
    t.apply_provider_model_selection("anthropic".into(), "opus".into(), Ok(()));
    assert_eq!(last(&t), ("system", "Provider set to: anthropic\nModel set to: opus"));
    assert_eq!(t.account.provider, "anthropic");
}

#[test]
fn preferences_take_effect_once_saved() {
    let mut t = tui();
    t.handle_command("/thinking");
    assert_eq!(t.take_requests(), vec![Request::SaveThinking(true)]);
    t.apply_thinking_preference(true, Ok(()));
    assert!(t.looks.show_thinking);
    assert_eq!(
        last(&t).1,
        "Thinking display: on. Full thinking streams and is kept in the transcript."
    );
    t.apply_thinking_preference(false, Ok(()));
    assert_eq!(
        last(&t).1,
        "Thinking display: off. Thinking is hidden; a short \"Thought for …\" line is kept (default)."
    );
    t.handle_command("/thinking maybe");
    assert_eq!(
        last(&t).1,
        "Unknown /thinking option 'maybe'. Use /thinking, /thinking on, or /thinking off."
    );
    t.handle_command("/suggestions ENABLE");
    assert_eq!(t.take_requests(), vec![Request::SaveSuggestions(true)]);
    t.apply_suggestions_preference(true, Ok(()));
    assert!(t.looks.show_suggestions);
    assert_eq!(
        last(&t).1,
        "Suggestions: on. Grayed ready-to-send prompts appear when the composer is empty (Tab/→ to accept)."
    );
    t.handle_command("/theme dune");
    assert_eq!(
        t.take_requests(),
        vec![Request::SaveTheme { selected: theme("dune"), previous: theme("dark") }]
    );
    t.apply_theme_preference(theme("dune"), theme("dark"), Ok(()));
    assert_eq!(t.looks.theme.name, "dune");
    assert_eq!(last(&t).1, "Theme set to: dune (dune)");
    t.handle_command("/theme list");
    assert_eq!(last(&t).1, "Active theme: dune\nThemes: dark, dune");
}

#[test]
fn leaving_the_theme_list_restores_the_theme() {
    let mut t = tui();
    t.handle_command("/theme");
    key(&mut t, KeyCode::Down);
    assert_eq!(t.looks.theme.name, "dune");
    key(&mut t, KeyCode::Esc);
    assert_eq!(t.looks.theme.name, "dark");
    t.set_theme_name("dune");
    assert_eq!(t.looks.theme.name, "dune");
    t.set_theme_name("unheard of");
    assert_eq!(t.looks.theme.name, "dark");
}

#[test]
fn mouse_capture_is_reported_as_it_is() {
    let mut t = tui();
    t.handle_command("/mouse off");
    assert_eq!(t.take_requests(), vec![Request::SetMouseCapture(false)]);
    t.mouse_capture_switched(false, true);
    assert_eq!(
        last(&t).1,
        "Mouse capture: off. Mouse capture off. Select with a normal drag if the host allows it; scroll with PgUp/PgDn or Ctrl+U/D."
    );
    t.handle_command("/mouse off");
    assert!(t.take_requests().is_empty());
    assert_eq!(t.chat.output_lines.len(), 2);
    t.handle_command("/mouse");
    assert_eq!(t.take_requests(), vec![Request::SetMouseCapture(true)]);
    t.mouse_capture_switched(true, false);
    assert!(last(&t).1.starts_with("Mouse capture: off."));
    t.mouse_capture_switched(true, true);
    assert_eq!(
        last(&t).1,
        "Mouse capture: on. Wheel scrolls the transcript. Shift+drag to select and copy (terminal-native)."
    );
}

#[test]
fn the_wheel_scrolls_what_overflows() {
    let mut t = tui();
    t.scroll.last_body_wrapped = 100;
    t.scroll.last_body_h = 20;
    assert!(t.handle_mouse(MouseEvent::ScrollUp));
    assert!(!t.scroll.transcript_follow);
    let up = t.scroll.transcript_rowoff;
    assert!(up < 80);
    assert!(t.handle_mouse(MouseEvent::ScrollDown));
    assert_eq!(t.scroll.transcript_rowoff, 80);
    assert!(t.scroll.transcript_follow);
    assert!(!t.handle_mouse(MouseEvent::Other));
}

#[test]
fn accounts_are_the_agents_business() {
    let mut t = with_agent();
    t.handle_command("/auth logout XAI");
    assert_eq!(t.take_requests(), vec![Request::Agent("__auth_logout__:xai".into())]);
    assert_eq!(t.chat.state, State::Running);
    t.handle_command("/compact");
    assert_eq!(
        last(&t).1,
        "Wait for the current turn to finish before compacting."
    );
    t.chat.state = State::Idle;
    t.handle_command("/compact");
    t.handle_command("/auth");
    assert_eq!(
        t.take_requests(),
        vec![Request::Agent("__compact__".into()), Request::Agent("__auth_status__".into())]
    );
}

#[test]
fn cost_shows_tokens_and_the_estimate() {
    let mut t = tui();
    t.chat.total_usage.input_tokens = 10;
    t.chat.total_usage.output_tokens = 20;
    t.chat.total_usage.cache_read = 3;
    t.chat.total_usage.cache_create = 4;
    t.handle_command("/cost");
    assert_eq!(
        last(&t).1,
        "Tokens: 10 in, 20 out  •  7\nModel: llama3.2\nEstimated cost: $0.00"
    );
}

#[test]
fn a_second_ctrl_c_exits_unless_another_key_came_between() {
    let mut t = tui();
    let ctrl_c = KeyEvent::with_control(KeyCode::Char('c'));
    assert!(t.handle_key(ctrl_c));
    key(&mut t, KeyCode::Left);
    assert!(!t.ctrl_c_exit_armed);
    assert!(t.handle_key(ctrl_c));
    assert!(!t.handle_key(ctrl_c));

    let mut t = tui();
    t.set_input("draft".into());
    assert!(t.handle_key(ctrl_c));
    assert!(t.composer.input_buf.is_empty());
    assert!(!t.ctrl_c_exit_armed);
}

#[test]
fn a_released_key_does_nothing() {
    let mut t = tui();
    let mut release = KeyEvent::plain(KeyCode::Char('x'));
    release.press = false;
    assert!(t.handle_key(release));
    assert!(t.composer.input_buf.is_empty());
}

#[test]
fn denying_closes_the_prompt_and_sends_one_decision() {
    let mut t = tui();
    let (tx, _rx) = mpsc::channel();
    t.set_perm_tx(tx);
    t.permission.show_permission_prompt = true;
    key(&mut t, KeyCode::Esc);
    assert!(!t.permission.show_permission_prompt);
    assert_eq!(t.take_requests(), vec![Request::Permission("deny".into())]);
}

#[test]
fn a_picked_session_is_read_or_removed() {
    let mut t = tui();
    t.handle_command("/resume");
    assert_eq!(
        last(&t).1,
        "No saved sessions. Use /save to save the current conversation first."
    );
    t.handle_command("/delete");
    assert_eq!(last(&t).1, "No saved sessions to delete.");
}
