//! How tool calls and their results are shown.

use cairn_tui::text::display_width;
use cairn_tui::tool_display::{
    compact_tool_arg_hint, compact_tool_result_display, format_permission_tool_input,
    infer_tool_display_kind, permission_risk_warning, PERM_PREVIEW_MAX_LINES, PERM_VALUE_MAX_COLS,
};

#[test]
fn tool_display_compact_file_read_is_summary_only() {
    let mut body = String::new();
    for i in 151..=188 {
        body.push_str(&format!("{i}:line {i}\n"));
    }
    body.push_str("\nREADME.md:151 (showing lines 151-188 of 188)");
    let out = compact_tool_result_display("file_read", &body);
    assert_eq!(out, "README.md:151 (showing lines 151-188 of 188)");
    assert_eq!(out.lines().count(), 1);
}

#[test]
fn tool_display_compact_glob_is_match_count() {
    let mut body = String::new();
    for i in 0..15 {
        body.push_str(&format!("src/f{i}.rs\n"));
    }
    body.push_str("… and 24 more (39 total)");
    let out = compact_tool_result_display("glob", &body);
    assert_eq!(out, "39 matches");
}

#[test]
fn tool_display_infer_kind_from_content_when_name_lost() {
    let body = "1:x\n\nfoo.rs:1 (showing lines 1-1 of 10)";
    assert_eq!(infer_tool_display_kind("tool", body), "file_read");
    assert_eq!(
        infer_tool_display_kind("tool", "a.rs\nb.rs\n2 result(s)"),
        "glob"
    );
}

#[test]
fn tool_display_compact_tool_arg_hint_extracts_pattern() {
    let h = compact_tool_arg_hint(r#"{"pattern":"src/**/*.rs"}"#);
    assert!(h.contains("pattern=src/**/*.rs"), "{h}");
}

#[test]
fn tool_display_compact_tool_arg_hint_preserves_array_boundaries() {
    let hint = compact_tool_arg_hint(r#"{"args":["status","path with spaces",""]}"#);
    assert_eq!(hint, r#"args="status" "path with spaces" """#);
}

#[test]
fn tool_display_git_permission_warning_classifies_shell_equivalent_risk() {
    let warning = permission_risk_warning("git").unwrap();
    assert!(warning.contains("Shell-equivalent risk"));
    assert!(permission_risk_warning("go").is_none());
}

#[test]
fn tool_display_permission_preview_shows_structured_fields() {
    let input = r#"{"file_path":"src/tools/file_edit.rs","old_string":"a","new_string":"b","replace_all":true}"#;
    let lines = format_permission_tool_input(input);
    assert_eq!(
        lines,
        vec![
            "file_path: src/tools/file_edit.rs".to_string(),
            "old_string: a".to_string(),
            "new_string: b".to_string(),
            "replace_all: true".to_string(),
        ]
    );
}

#[test]
fn tool_display_permission_preview_truncates_large_file_edit_payload() {
    let big = "x".repeat(400);
    let input = format!(
        r#"{{"file_path":"src/tools/file_edit.rs","old_string":"keep","new_string":"{big}"}}"#
    );
    let lines = format_permission_tool_input(&input);
    assert!(
        lines.iter().any(|l| l.starts_with("file_path:")),
        "{lines:?}"
    );
    let new_line = lines
        .iter()
        .find(|l| l.starts_with("new_string:"))
        .expect("new_string row");
    assert!(
        new_line.ends_with('…'),
        "expected truncated new_string, got {new_line}"
    );
    assert!(
        display_width(new_line) <= "new_string: ".len() + PERM_VALUE_MAX_COLS + 2,
        "preview line too wide: {} cols ({new_line})",
        display_width(new_line)
    );
    // Full payload must never appear as a single raw JSON dump.
    let joined = lines.join("\n");
    assert!(
        !joined.contains(&big),
        "raw multi-KB value leaked into chrome"
    );
    assert!(lines.len() <= PERM_PREVIEW_MAX_LINES + 1);
}

#[test]
fn tool_display_permission_preview_collapses_newlines_in_values() {
    let input = r#"{"file_path":"a.rs","old_string":"line1\nline2","new_string":"x"}"#;
    let lines = format_permission_tool_input(input);
    let old = lines
        .iter()
        .find(|l| l.starts_with("old_string:"))
        .expect("old_string");
    assert!(old.contains('↵'), "{old}");
    assert!(!old.contains('\n'), "{old}");
}
