//! What a frame shows and where.

use cairn_tui::chrome::Mark;
use cairn_tui::host::{Credentials, Host, Platform, Provider};
use cairn_tui::keys::{KeyCode, KeyEvent};
use cairn_tui::layout::Area;
use cairn_tui::lines::{line1, Line, Tone};
use cairn_tui::llm::ModelInfo;
use cairn_tui::render::Screen;
use cairn_tui::state::State;
use cairn_tui::theme::Theme;
use cairn_tui::{OutputLine, Tui};

fn model(id: &str) -> ModelInfo {
    ModelInfo { id: id.into(), name: id.into(), max_ctx: 8192 }
}

fn credentials(provider: &str, needs_credential: bool) -> Credentials {
    Credentials {
        provider: provider.into(),
        needs_credential,
        usable_credential: !needs_credential,
        requires_api_key: needs_credential,
        supports_oauth: false,
        config_has_api_key: false,
        env_var: None,
        env_key_set: false,
    }
}

fn theme(name: &str) -> Theme {
    Theme { name: name.into(), label: name.into() }
}

fn host() -> Host {
    Host {
        providers: vec![
            Provider {
                name: "anthropic".into(),
                models: vec![model("opus")],
                default_model: "opus".into(),
            },
            Provider {
                name: "ollama".into(),
                models: vec![model("llama3.2"), model("mistral")],
                default_model: "llama3.2".into(),
            },
        ],
        credentials: vec![credentials("anthropic", true), credentials("ollama", false)],
        unlisted: credentials("", true),
        themes: vec![theme("dark"), theme("dune")],
        default_theme: theme("dark"),
        sessions: vec![],
        sessions_dir: "/tmp/sessions".into(),
        fresh_session_id: "fresh".into(),
        now_ns: 1_000_000_000,
        unix_secs: 1_700_000_000,
        term_lines: None,
        platform: Platform::Unix,
        cost_text: "$0.00".into(),
        cost_positive: false,
    }
}

fn tui() -> Tui {
    Tui::new("1.2.3", "llama3.2", "ollama", "/home/me/project", host())
}

fn area(width: u16, height: u16) -> Area {
    Area { x: 0, y: 0, width, height }
}

fn plain(l: &Line) -> String {
    l.spans.iter().map(|s| s.content.as_str()).collect()
}

fn draw(t: &mut Tui, width: u16, height: u16) -> Screen {
    t.render(area(width, height), &vec![], &vec![], "")
}

fn say(t: &mut Tui, type_: &str, content: &str, tool_name: &str) {
    t.add_output_line(OutputLine {
        type_: type_.into(),
        content: content.into(),
        tool_name: tool_name.into(),
        duration: String::new(),
    });
}

#[test]
fn an_empty_frame_has_a_welcome_box_a_composer_and_a_status_line() {
    let mut t = tui();
    let s = draw(&mut t, 40, 24);
    let rows: Vec<String> = s.body.iter().map(plain).collect();
    assert_eq!(
        rows,
        vec![
            "╭──────────────────────────────────────╮",
            "│  🪨 Cairn Code v1.2.3                │",
            "│  open terminal coding agent  ·  /help│",
            "├──────────────────────────────────────┤",
            "│  Model   ollama / llama3.2           │",
            "│  Path    /home/me/project            │",
            "╰──────────────────────────────────────╯",
            "",
        ]
    );
    assert_eq!(s.body_area, area(40, 19));
    assert_eq!(s.body_scroll, 0);
    let (composer, box_area) = s.composer.unwrap();
    assert_eq!(plain(&composer), "> ");
    assert_eq!(box_area, Area { x: 0, y: 19, width: 40, height: 3 });
    assert_eq!(s.chrome_area, Area { x: 0, y: 22, width: 40, height: 2 });
    assert_eq!(plain(&s.chrome[0]), "ollama/llama3.2 · project · ? for shortcuts");
    assert_eq!(s.caret, Some((3, 20)));
    assert!(s.hint.is_none());
    assert!(t.scroll.transcript_follow);
    assert_eq!(t.scroll.last_body_h, 19);
    assert_eq!(t.scroll.last_body_wrapped, 8);
}

#[test]
fn rows_are_laid_out_from_where_the_screen_begins() {
    let mut t = tui();
    let s = t.render(Area { x: 5, y: 7, width: 60, height: 20 }, &vec![], &vec![], "");
    assert_eq!(s.body_area, Area { x: 5, y: 7, width: 60, height: 16 });
    assert_eq!(s.composer.unwrap().1, Area { x: 5, y: 23, width: 60, height: 3 });
    assert_eq!(s.chrome_area, Area { x: 5, y: 26, width: 60, height: 1 });
    assert_eq!(s.caret, Some((8, 24)));
}

#[test]
fn rows_cover_every_screen() {
    for height in 0..60 {
        for y in [0, 3] {
            let mut t = tui();
            t.composer.input_buf = "/".into();
            t.composer.cursor = 1;
            t.update_cmd_picker();
            let screen = Area { x: 2, y, width: 20, height };
            let s = t.render(screen, &vec![], &vec![], "");
            let (_, composer) = s.composer.unwrap();
            let mut at = y;
            for row in [s.body_area, composer, s.chrome_area] {
                assert_eq!((row.x, row.width), (2, 20));
                assert_eq!(row.y, at, "{row:?} of {height}");
                at += row.height;
            }
            assert_eq!(at, y + height);
            assert!(composer.height <= 3);
            assert!(s.body_area.height >= height.min(1));
            if height >= 10 {
                assert_eq!(composer.height, 3, "{height}");
            } else if height >= 1 {
                assert_eq!(s.body_area.height, 1, "{height}");
            }
        }
    }
}

#[test]
fn rows_share_too_little_room_alike() {
    let heights = |commands: usize, y: u16, height: u16| {
        let mut t = tui();
        t.composer.input_buf = "/".into();
        t.composer.cursor = 1;
        t.composer.show_command_picker = true;
        t.composer.cmd_picker_filtered = vec!["/help".to_string(); commands];
        let s = t.render(Area { x: 0, y, width: 500, height }, &vec![], &vec![], "");
        let (_, composer) = s.composer.unwrap();
        let rows = (s.body_area.height, composer.height, s.chrome_area.height);
        (s.chrome.len() as u16, rows)
    };
    for y in [0, 1, 2, 77, u16::MAX - 20] {
        for height in 0..=14 {
            for commands in 0..=12 {
                let (needed, (body, composer, chrome)) = heights(commands, y, height);
                let cap = height.saturating_sub(3).min(height * 2 / 3).max(1);
                let asked = needed.clamp(1, cap);
                let label = format!("{commands} on {height} from {y}");
                assert_eq!(body + composer + chrome, height, "{label}");
                if 1 + 3 + asked <= height {
                    assert_eq!((composer, chrome), (3, asked), "{label}");
                } else {
                    assert_eq!(body, height.min(1), "{label}");
                    let rest = height - body;
                    let half = (rest + 1) / 2;
                    assert_eq!(composer, half.max(rest.saturating_sub(asked)).min(3), "{label}");
                }
            }
        }
    }
    assert_eq!(heights(1, 0, 6), (3, (1, 3, 2)));
    assert_eq!(heights(8, 0, 5).1, (1, 2, 2));
    assert_eq!(heights(8, 0, 4).1, (1, 2, 1));
    assert_eq!(heights(8, 0, 9).1, (1, 3, 5));
    assert_eq!(heights(0, 0, 3).1, (1, 1, 1));
    assert_eq!(heights(0, 0, 2).1, (1, 1, 0));
}

#[test]
fn rows_stop_at_the_last_coordinate() {
    let mut t = tui();
    let screen = Area { x: 0, y: u16::MAX - 10, width: 20, height: 40 };
    let s = t.render(screen, &vec![], &vec![], "");
    assert_eq!(s.body_area.y, u16::MAX - 10);
    let last = s.chrome_area;
    assert_eq!(last.y + last.height, u16::MAX);
}

#[test]
fn lists_never_hide_the_transcript() {
    for height in 4..40 {
        let mut t = tui();
        t.prompts.show_help = true;
        let s = draw(&mut t, 80, height);
        assert!(s.body_area.height >= 3, "{height}");
        assert_eq!(s.body_area.height + s.chrome_area.height, height);
        assert_eq!(s.chrome_area.y, s.body_area.height);
        assert!(s.caret.is_none());
        // The end of the list shows.
        assert_eq!(s.chrome_scroll + s.chrome_area.height, 36);
    }
}

#[test]
fn the_transcript_shows_each_kind_of_line() {
    let mut t = tui();
    say(&mut t, "user", "hi", "");
    say(&mut t, "text", "answer", "");
    say(&mut t, "tool_use", r#"{"pattern":"*.rs"}"#, "glob");
    say(&mut t, "tool_result", "Error: no", "shell");
    say(&mut t, "error", "one\ntwo", "");
    let bodies = vec![vec![], vec![line1("rendered", Tone::AccentFg)]];
    let s = t.render(area(80, 40), &bodies, &vec![], "");
    let rows: Vec<String> = s.body.iter().skip(8).map(plain).collect();
    assert_eq!(
        rows,
        vec![
            "> hi",
            "",
            "rendered",
            "",
            "● glob  pattern=*.rs",
            "● shell  Error: no",
            "● one",
            "  two",
        ]
    );
    assert_eq!(s.body[13].spans[0].tone, Tone::Red);
}

#[test]
fn a_running_turn_spins_and_counts() {
    let mut t = tui();
    t.begin_running();
    t.host.now_ns += 65_000_000_000;
    let s = draw(&mut t, 80, 24);
    let last = plain(s.body.last().unwrap());
    assert!(last.contains('…'), "{last}");
    assert!(last.ends_with("1m 05s"), "{last}");
    assert_eq!(
        plain(s.chrome.last().unwrap()),
        "esc to interrupt · 1m 05s · ollama/llama3.2"
    );
}

#[test]
fn scrolling_up_shows_how_far() {
    let mut t = tui();
    for i in 0..50 {
        say(&mut t, "system", &format!("line {i}"), "");
    }
    let s = draw(&mut t, 80, 24);
    let bottom = s.body_scroll;
    assert_eq!(bottom as usize, t.transcript_max_off());
    assert!(s.hint.is_none());
    t.scroll_transcript(false, bottom as usize / 2);
    let s = draw(&mut t, 80, 24);
    let (hint, at) = s.hint.unwrap();
    let pct = s.body_scroll as usize * 100 / bottom as usize;
    assert_eq!(hint, format!(" ↑ {pct}% · PgUp/PgDn · wheel · Ctrl+U/D "));
    assert_eq!(at.y, 0);
    assert_eq!(at.height, 1);
    assert_eq!(at.x + at.width + 1, 80);
    // Back down it follows again.
    t.scroll_transcript(true, bottom as usize);
    assert!(draw(&mut t, 80, 24).hint.is_none());
    say(&mut t, "system", "one more", "");
    assert_eq!(draw(&mut t, 80, 24).body_scroll, bottom + 1);
}

#[test]
fn the_caret_follows_wide_characters_and_stays_in_the_box() {
    let mut t = tui();
    t.set_input("a界".into());
    assert_eq!(draw(&mut t, 40, 24).caret, Some((6, 21)));
    t.set_input("x".repeat(100));
    assert_eq!(draw(&mut t, 40, 24).caret, Some((38, 21)));
}

#[test]
fn suggestions_and_completions_show_faintly() {
    let mut t = tui();
    t.set_show_suggestions(true);
    let s = draw(&mut t, 80, 24);
    let composer = s.composer.unwrap().0;
    assert_eq!(composer.spans[1].tone, Tone::Faint);
    assert_eq!(
        composer.spans[1].content,
        "Give me an overview of this codebase and how it is organized"
    );

    t.set_input("/the".into());
    t.update_cmd_picker();
    let s = draw(&mut t, 80, 24);
    let composer = s.composer.unwrap().0;
    assert_eq!(plain(&composer), "> /theme");
    assert_eq!(composer.spans[3].content, "me");
    assert_eq!(composer.spans[3].tone, Tone::Faint);
    assert_eq!(
        plain(&s.chrome[0]),
        "── Commands (↑↓ select  Tab complete  Esc dismiss) ──"
    );
    assert!(plain(&s.chrome[1]).starts_with("▸ /theme"));
    assert_eq!(s.chrome[1].spans[0].tone, Tone::Selected);
}

#[test]
fn a_permission_prompt_shows_what_is_asked_for() {
    let mut t = tui();
    t.permission.show_permission_prompt = true;
    t.permission.perm_tool_name = "edit".into();
    t.permission.perm_tool_input = r#"{"file_path":"a.rs"}"#.into();
    let (lines, mark) = t.chrome_lines("");
    let rows: Vec<String> = lines.iter().map(plain).collect();
    assert_eq!(
        rows,
        vec![
            "Tool 'edit' wants to run:",
            "  file_path: a.rs",
            "",
            "❯ 1. Yes",
            "  2. Yes, always allow",
            "  3. No",
            "  4. Discuss",
            "",
            "(1 yes  ·  2 always  ·  3 no  ·  4 discuss  ·  Esc cancel)",
        ]
    );
    assert_eq!(mark, Mark::At { x: 0, line: 0 });

    t.handle_key(KeyEvent::plain(KeyCode::Char('4')));
    t.handle_key(KeyEvent::plain(KeyCode::Char('n')));
    let (lines, mark) = t.chrome_lines("");
    assert_eq!(plain(&lines[7]), "     n▋");
    assert_eq!(mark, Mark::At { x: 6, line: 7 });
    let s = draw(&mut t, 80, 24);
    assert_eq!(s.caret, Some((6, s.chrome_area.y + 7)));
}

#[test]
fn a_typed_key_shows_only_masked() {
    let mut t = tui();
    t.begin_api_key_prompt("anthropic");
    t.set_input("secret-abcd".into());
    let (lines, mark) = t.chrome_lines("•••••••abcd");
    assert_eq!(plain(&lines[0]), "anthropic API key (API_KEY) > •••••••abcd▋");
    assert_eq!(mark, Mark::At { x: 41, line: 0 });
    assert!(!lines.iter().any(|l| plain(l).contains("secret")));
}

#[test]
fn questions_bracket_the_selected_answer() {
    let mut t = tui();
    t.prompts.confirm_history_provider = Some("anthropic".into());
    t.prompts.confirm_history_sel = 1;
    let rows: Vec<String> = t.chrome_lines("").0.iter().map(plain).collect();
    assert_eq!(rows[0], "Send existing conversation to 'anthropic'?");
    assert_eq!(rows[3], " Cancel   [Continue]");
    t.prompts.confirm_remove_provider = Some("xai".into());
    let rows: Vec<String> = t.chrome_lines("").0.iter().map(plain).collect();
    assert_eq!(rows[0], "Remove saved API key for 'xai'?");
    assert_eq!(rows[3], "[Cancel]   Remove ");
}

#[test]
fn a_failed_request_can_be_retried_elsewhere() {
    let mut t = tui();
    t.prompts.show_recovery_prompt = true;
    t.set_input("go".into());
    let (lines, mark) = t.chrome_lines("");
    let rows: Vec<String> = lines.iter().map(plain).collect();
    assert_eq!(
        rows,
        vec![
            "LLM failed (ollama/llama3.2). Switch and retry your request:",
            "",
            "[Switch model (m)]   Switch provider (p)    Dismiss (d) ",
            "(← → navigate  Enter confirm  Esc dismiss)",
            "❯ go▋",
        ]
    );
    assert_eq!(mark, Mark::At { x: 5, line: 4 });
}

#[test]
fn the_status_line_counts_images_tokens_and_cost() {
    let mut t = tui();
    t.chat.total_usage.input_tokens = 12;
    t.chat.total_usage.output_tokens = 3;
    t.host.cost_text = "$0.01".into();
    t.host.cost_positive = true;
    t.set_input("x".into());
    let (lines, mark) = t.chrome_lines("");
    assert_eq!(plain(&lines[0]), "ollama/llama3.2 · project · 12↓ 3↑ · $0.01");
    assert_eq!(mark, Mark::Composer);
    t.ctrl_c_exit_armed = true;
    assert_eq!(plain(&t.chrome_lines("").0[0]), "Press Ctrl+C again to exit");
    assert_eq!(t.chat.state, State::Idle);
}
