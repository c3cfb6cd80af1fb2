//! Properties of the library as a whole, on chosen values.

use cairn_tui::completion::{
    compute_idle_suggestion, fuzzy_rank, fuzzy_score, slash_completions,
};
use cairn_tui::edit::{backspace, delete, insert_text, move_left, move_right};
use cairn_tui::host::{Credentials, Host, Platform, Provider};
use cairn_tui::keys::{KeyCode, KeyEvent};
use cairn_tui::lines::{line1, Line, Tone};
use cairn_tui::llm::{ImageBlock, ModelInfo};
use cairn_tui::sanitize_terminal_output;
use cairn_tui::session::short_id;
use cairn_tui::sorting::{dedup_strings, sort_strings};
use cairn_tui::text::{
    display_width, format_timestamp, pad_to_display_width, sanitize_paste_for_composer,
    terminal_height, total_wrapped, truncate_display,
};
use cairn_tui::theme::Theme;
use cairn_tui::tool_display::{
    compact_tool_arg_hint, compact_tool_result_display, format_permission_tool_input,
    truncate_perm_value,
};
use cairn_tui::wire::{base64_encode, copy_text_osc52, encode_user_json_cmd, escape_json_simple};
use cairn_tui::{OutputLine, Tui};

fn model(id: &str) -> ModelInfo {
    ModelInfo { id: id.into(), name: id.into(), max_ctx: 8192 }
}

fn credentials(provider: &str, needs_credential: bool) -> Credentials {
    Credentials {
        provider: provider.into(),
        needs_credential,
        usable_credential: !needs_credential,
        requires_api_key: needs_credential,
        supports_oauth: false,
        config_has_api_key: false,
        env_var: None,
        env_key_set: false,
    }
}

fn theme(name: &str) -> Theme {
    Theme { name: name.into(), label: name.into() }
}

fn host() -> Host {
    Host {
        providers: vec![
            Provider {
                name: "anthropic".into(),
                models: vec![model("opus")],
                default_model: "opus".into(),
            },
            Provider {
                name: "ollama".into(),
                models: vec![model("llama3.2"), model("mistral")],
                default_model: "llama3.2".into(),
            },
        ],
        credentials: vec![credentials("anthropic", true), credentials("ollama", false)],
        unlisted: credentials("", true),
        themes: vec![theme("dark"), theme("dune")],
        default_theme: theme("dark"),
        sessions: vec![],
        sessions_dir: "/tmp/sessions".into(),
        fresh_session_id: "fresh".into(),
        now_ns: 1_000_000_000,
        unix_secs: 1_700_000_000,
        term_lines: None,
        platform: Platform::Unix,
        cost_text: "$0.00".into(),
        cost_positive: false,
    }
}

#[test]
fn sanitizing_twice_changes_nothing_more() {
    for s in [
        "plain\ttext\n",
        "a\u{1b}[31mb\u{1b}]0;t\u{7}c",
        "\u{1b}",
        "\u{9d}x\u{9c}y\u{85}",
        "\u{1b}(B\u{1b}c",
    ] {
        let once = sanitize_terminal_output(s);
        assert!(once.chars().all(|c| c == '\n' || c == '\t' || !c.is_control()), "{once:?}");
        assert_eq!(sanitize_terminal_output(&once), once);
    }
    assert_eq!(sanitize_paste_for_composer("a\r\nb\rc"), "a\nbc");
}

#[test]
fn padding_fills_or_cuts_to_the_width() {
    for s in ["", "ab", "界界界", "a界b🪨c", "e\u{301}"] {
        for w in 0..9 {
            assert_eq!(display_width(&pad_to_display_width(s, w)), w, "{s} to {w}");
        }
    }
}

#[test]
fn lines_wrap_to_whole_rows() {
    let lines = vec![
        line1("", Tone::Plain),
        line1("abcd", Tone::Plain),
        line1("abcde", Tone::Plain),
        Line { spans: vec![] },
    ];
    assert_eq!(total_wrapped(&lines, 4), 1 + 1 + 2 + 1);
    assert_eq!(total_wrapped(&lines, 0), 1 + 4 + 5 + 1);
    assert_eq!(total_wrapped(&[], 4), 0);
}

#[test]
fn a_typed_character_can_be_taken_back() {
    for c in ['x', 'é', '界', '🙂'] {
        let (typed, at) = insert_text("aé🙂b", 3, &c.to_string());
        assert_eq!(backspace(&typed, at), ("aé🙂b".to_string(), 3));
    }
    assert_eq!(backspace("abc", 0), ("abc".to_string(), 0));
    assert_eq!(delete("é界", 2), "é");
    assert_eq!(delete("é界", 5), "é界");
}

#[test]
fn moving_right_and_left_comes_back() {
    let s = "aé界🙂";
    let mut at = 0;
    while at < s.len() {
        let next = move_right(s, at);
        assert_eq!(move_left(s, next), at);
        at = next;
    }
    assert_eq!(move_right(s, at), at);
    assert_eq!(move_left(s, 0), 0);
}

#[test]
fn a_match_has_every_character_in_order() {
    assert!(fuzzy_score("/theme", "TM").is_some());
    assert!(fuzzy_score("/theme", "mt").is_none());
    let names: Vec<String> = vec!["xab".into(), "ab".into(), "a-b".into(), "zz".into()];
    assert_eq!(fuzzy_score("xxxxxxxxxx-b", "b"), Some(1));
    assert_eq!(fuzzy_score("ab", "b"), Some(-1));
    assert!(fuzzy_score("xxxxxxxxxx-b", "b") > fuzzy_score("ab", "b"));
    assert_eq!(fuzzy_score("ab", "ab"), Some(63));
    assert_eq!(fuzzy_score("a-b", "ab"), Some(19));
    assert_eq!(fuzzy_score("xab", "ab"), Some(9));
    assert_eq!(fuzzy_rank(&names, "ab", "+"), vec!["+ab", "+a-b", "+xab"]);
}

#[test]
fn early_hits_beat_late_ones() {
    assert_eq!(fuzzy_score("aaaaaaaab", "b"), Some(-8));
    assert_eq!(fuzzy_score("aaaaaab", "b"), Some(-6));
    assert_eq!(fuzzy_score("aaaaaaaaaab", "b"), Some(-10));
    assert_eq!(fuzzy_score("aaaaaaaaaaaab", "b"), Some(-10));
    let names: Vec<String> = vec!["aaaaaaaab".into(), "aaaaaab".into()];
    assert_eq!(fuzzy_rank(&names, "b", ""), vec!["aaaaaab", "aaaaaaaab"]);
    // Runs and anchors keep their worth however late they come.
    assert_eq!(fuzzy_score("xxxxxxxxxxxxab", "ab"), Some(-19));
    assert_eq!(fuzzy_score("xxxxxxxxxxxxaxb", "ab"), Some(-33));
}

#[test]
fn a_prefix_ranks_above_every_scattered_match() {
    let long = format!("ab{}", "x".repeat(200));
    assert_eq!(fuzzy_score(&long, "ab"), Some(43));
    assert_eq!(fuzzy_score("/ab", "ab"), Some(20));
    assert_eq!(fuzzy_score("-a-b", "ab"), Some(16));
}

#[test]
fn account_actions_are_matched_fuzzily() {
    let base = vec!["/auth".to_string()];
    let offered = |input: &str| slash_completions(input, &base, &[], &[], &[], &[]);
    assert_eq!(offered("/auth lgn"), vec!["/auth login"]);
    assert_eq!(offered("/auth LGT"), vec!["/auth logout"]);
    assert_eq!(offered("/auth "), vec!["/auth login", "/auth logout", "/auth status", "/auth key"]);
    assert!(offered("/auth zz").is_empty());
    // Fixed words elsewhere go by prefix.
    assert!(offered("/reset lst").is_empty());
    assert!(offered("/thinking f").is_empty());
}

#[test]
fn sorting_keeps_every_text() {
    let v: Vec<String> = ["b", "a", "", "ab", "a"].iter().map(|s| s.to_string()).collect();
    let sorted = sort_strings(&v);
    assert_eq!(sorted, vec!["", "a", "a", "ab", "b"]);
    assert_eq!(dedup_strings(sorted), vec!["", "a", "ab", "b"]);
}

#[test]
fn base64_is_padded_to_fours() {
    for n in 0..10 {
        let data = vec![0xffu8; n];
        assert_eq!(base64_encode(&data).len(), n.div_ceil(3) * 4);
    }
    assert_eq!(base64_encode(&[0xfb, 0xff, 0x00]), "+/8A");
    assert_eq!(copy_text_osc52("hé"), "\u{1b}]52;c;aMOp\u{7}");
}

#[test]
fn escaped_text_reads_back_as_json() {
    let text = "a\"b\\c\nd\re\tf\u{1}g\u{1f}é🙂/";
    assert_eq!(escape_json_simple("\u{1}\u{1f}"), "\\u0001\\u001f");
    let json = format!("\"{}\"", escape_json_simple(text));
    let back: serde_json::Value = serde_json::from_str(&json).unwrap();
    assert_eq!(back, text);
    let cmd = encode_user_json_cmd(text, &[]);
    let v: serde_json::Value =
        serde_json::from_str(cmd.strip_prefix("__user_json__:").unwrap()).unwrap();
    assert_eq!(v["text"], text);
    assert_eq!(v["images"].as_array().unwrap().len(), 0);
}

#[test]
fn tool_arguments_are_quoted_as_debug_text() {
    assert_eq!(
        compact_tool_arg_hint(r#"{"args":["a\"b","tab\t"]}"#),
        r#"args="a\"b" "tab\t""#
    );
}

#[test]
fn hints_stay_on_one_line() {
    assert_eq!(compact_tool_arg_hint(r#"{"args":["a\nb"]}"#), r#"args="a\nb""#);
    assert_eq!(compact_tool_arg_hint(r#"{"command":"a\nb"}"#), "command=a b");
    assert_eq!(compact_tool_arg_hint("a\nb"), "a b");
}

#[test]
fn previews_of_other_input_stay_on_one_line_each() {
    assert!(format_permission_tool_input("  ").is_empty());
    assert_eq!(format_permission_tool_input("not json"), vec!["not json"]);
    let rows = format_permission_tool_input(r#"{"command":"a\nb","count":3,"deep":{"x":1}}"#);
    assert_eq!(rows[0], "command: a↵b");
    assert!(rows.iter().all(|r| !r.contains('\n')));
    assert_eq!(display_width(&truncate_perm_value(&"界".repeat(60), 10)), 9);
}

#[test]
fn long_output_is_cut_in_the_middle() {
    let s: String = (1..=20).map(|i| format!("{i}\n")).collect();
    let cut = truncate_display(&s, 2, 2);
    assert!(cut.starts_with("1\n2\n"), "{cut}");
    assert!(cut.trim_end().ends_with("19\n20"), "{cut}");
    assert!(cut.lines().count() < 20);
    assert_eq!(truncate_display("a\nb", 2, 2), "a\nb");
    assert_eq!(compact_tool_result_display("glob", "a\nb\n2 result(s)"), "2 matches");
}

#[test]
fn ages_are_told_in_two_units() {
    assert_eq!(format_timestamp(100, 100), "just now");
    assert_eq!(format_timestamp(100, 50), "just now");
    assert_eq!(format_timestamp(0, 60), "1m ago");
    assert_eq!(format_timestamp(0, 3_661), "1h 1m ago");
    assert_eq!(format_timestamp(0, 90_000), "1d 1h ago");
}

#[test]
fn announced_heights_are_read() {
    assert_eq!(terminal_height(&Some("40".into())), Some(40));
    assert_eq!(terminal_height(&Some("tall".into())), Some(24));
    assert_eq!(terminal_height(&None), Some(24));
    assert_eq!(short_id("0123456789"), "01234567");
    assert_eq!(short_id("abc"), "abc");
}

#[test]
fn scrolling_comes_back_and_stops_at_the_ends() {
    let mut t = Tui::new("test", "m", "p", ".", host());
    t.scroll.last_body_wrapped = 50;
    t.scroll.last_body_h = 10;
    assert_eq!(t.transcript_max_off(), 40);
    t.scroll_transcript(false, 15);
    assert_eq!(t.scroll.transcript_rowoff, 25);
    assert!(!t.scroll.transcript_follow);
    t.scroll_transcript(true, 15);
    assert_eq!(t.scroll.transcript_rowoff, 40);
    assert!(t.scroll.transcript_follow);
    t.scroll_transcript(false, 1000);
    assert_eq!(t.scroll.transcript_rowoff, 0);
    t.handle_key(KeyEvent::plain(KeyCode::PageDown));
    assert_eq!(t.scroll.transcript_rowoff, 9);
    t.handle_key(KeyEvent::with_control(KeyCode::Char('u')));
    assert_eq!(t.scroll.transcript_rowoff, 4);
}

#[test]
fn suggestions_follow_the_conversation() {
    let line = |type_: &str, content: &str, tool: &str| OutputLine {
        type_: type_.into(),
        content: content.into(),
        tool_name: tool.into(),
        duration: String::new(),
    };
    let a = compute_idle_suggestion(&[line("user", "explain main.rs", "")]);
    let b = compute_idle_suggestion(&[line("tool_use", "{}", "file_edit")]);
    assert_ne!(a, b);
}

#[test]
fn the_prompt_history_walks_both_ways() {
    let mut t = Tui::new("test", "m", "p", ".", host());
    t.composer.history = vec!["first".into(), "second".into()];
    t.composer.hist_idx = 2;
    let back = KeyEvent::with_control(KeyCode::Char('p'));
    let forward = KeyEvent::with_control(KeyCode::Char('n'));
    t.handle_key(back);
    t.handle_key(back);
    assert_eq!(t.composer.input_buf, "first");
    t.handle_key(back);
    assert_eq!(t.composer.input_buf, "first");
    t.handle_key(forward);
    assert_eq!(t.composer.input_buf, "second");
    t.handle_key(forward);
    assert!(t.composer.input_buf.is_empty());
    assert_eq!(t.composer.hist_idx, 2);
}

#[test]
fn a_user_turn_reads_back_from_its_command() {
    let image = |media_type: &str, data: &str| ImageBlock {
        media_type: media_type.into(),
        data_base64: data.into(),
    };
    let text = "say \"hi\"\\ \n\r\t\u{1}\u{1f} é界🙂 ]}";
    for images in [
        vec![],
        vec![image("image/png", "QUJD")],
        vec![image("a\"b", "\\"), image("", ""), image("]},{", "\",\"data\":\"")],
    ] {
        let cmd = encode_user_json_cmd(text, &images);
        let json = cmd.strip_prefix("__user_json__:").unwrap();
        let v: serde_json::Value = serde_json::from_str(json).unwrap();
        assert_eq!(v["text"].as_str(), Some(text));
        let read = v["images"].as_array().unwrap();
        assert_eq!(read.len(), images.len());
        for (r, i) in read.iter().zip(&images) {
            assert_eq!(r["media_type"].as_str(), Some(i.media_type.as_str()));
            assert_eq!(r["data"].as_str(), Some(i.data_base64.as_str()));
        }
    }
}

#[test]
fn results_keep_their_shape() {
    let long: String = (0..40).map(|i| format!("src/a{i}.rs:1: x\r\n")).collect();
    let texts = [
        "one",
        "\n one \n",
        "a\n\nb\n(showing lines 1-2 of 9)\n",
        "a\nb\n12 result(s)",
        "a\n… 3 more (15 total)",
        "No matches",
        "1\n2\n3\n4\n5",
        "1\n2\n3\n4\n5\n6\n\n",
        long.as_str(),
    ];
    for text in texts {
        for kind in ["file_read", "glob", "grep"] {
            let r = compact_tool_result_display(kind, text);
            assert!(!r.is_empty() && !r.contains('\n'), "{kind} {text:?} {r:?}");
        }
        let r = compact_tool_result_display("shell", text);
        assert!(r.lines().count() <= 6, "{r:?}");
        assert!(r.ends_with(text.trim().lines().last().unwrap()), "{r:?}");
        assert!(!compact_tool_result_display("other", text).is_empty());
    }
    for kind in ["file_read", "glob", "grep", "shell", "other"] {
        assert_eq!(compact_tool_result_display(kind, " \n\t"), "");
    }
    assert_eq!(
        compact_tool_result_display("shell", "1\n2\n3\n4\n5\n6\n7"),
        "1\n2\n… (2 lines omitted) …\n5\n6\n7"
    );
}
