//! Text that comes from outside, and how it is cut.

use cairn_tui::sanitize_terminal_output;
use cairn_tui::text::truncate_summary;

fn assert_unicode_boundaries(max_chars: usize) {
    for boundary_char in ['🙂', '界', 'é'] {
        let prefix = "a".repeat(max_chars - 1);
        let summary = format!("{prefix}{boundary_char}tail");
        assert_eq!(
            truncate_summary(&summary, max_chars),
            format!("{prefix}{boundary_char}…")
        );
    }
}

#[test]
fn text_strips_osc_clipboard_title_and_hyperlink_payloads() {
    let input = [
        "before",
        "\u{001b}]52;c;YXR0YWNrZXItY29udHJvbGxlZA==\u{0007}",
        "\u{001b}]0;forged title\u{001b}\\",
        "\u{001b}]8;;https://evil.example/\u{001b}\\link text\u{001b}]8;;\u{001b}\\",
        "after",
    ]
    .concat();

    assert_eq!(sanitize_terminal_output(&input), "beforelink textafter");
    assert_eq!(
        sanitize_terminal_output("safe\u{001b}]52;c;unterminated payload"),
        "safe"
    );
}

#[test]
fn text_strips_csi_other_escape_sequences_and_their_payloads() {
    let input = [
        "plain ",
        "\u{001b}[31mred\u{001b}[0m",
        "\u{009b}2J",
        " visible",
        "\u{001b}P1;2|dcs payload\u{001b}\\",
        " end",
    ]
    .concat();

    assert_eq!(sanitize_terminal_output(&input), "plain red visible end");
}

#[test]
fn text_strips_c0_c1_controls_and_eight_bit_control_strings() {
    let input = "a\u{0000}b\u{0007}c\u{0008}d\r e\u{007f}f\u{0085}g\u{001b}";
    assert_eq!(sanitize_terminal_output(input), "abcd efg");
    assert_eq!(
        sanitize_terminal_output("left\u{009d}52;c;secret\u{009c}right"),
        "leftright"
    );
}

#[test]
fn text_preserves_normal_unicode_newlines_and_tabs() {
    let input = "Grüße from 東京 🏔️\n\tcafé\n";
    assert_eq!(sanitize_terminal_output(input), input);
}

#[test]
fn text_list_summary_truncates_unicode_at_60_characters() {
    assert_unicode_boundaries(60);
}

#[test]
fn text_picker_summary_truncates_unicode_at_50_characters() {
    assert_unicode_boundaries(50);
}
