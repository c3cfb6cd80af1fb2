//! The bottom chrome: prompts, lists, and the status line.

use crate::body;
use crate::chars;
use crate::lines;
use crate::lines::{Line, Span, Tone};
use crate::text;
use vstd::prelude::*;

verus! {

/// Rows of the help overlay. Section headers have an empty second column; detail
/// rows are key + description.
pub const HELP_ROWS: [(&'static str, &'static str); 35] = [
    ("Commands", ""),
    ("/auth", "login · logout · status · key  (xAI OAuth)"),
    ("/model", "pick or set model"),
    ("/provider", "pick or set provider"),
    ("/clear", "clear conversation"),
    ("/compact", "summarize older history now"),
    ("/cost", "token usage and estimated cost"),
    ("/theme", "TUI theme picker"),
    ("/thinking", "on|off full thinking blocks"),
    ("/suggestions", "on|off idle ready-to-send hints"),
    ("/mouse", "on|off wheel capture"),
    ("/copy", "copy last assistant message (Ctrl+Y)"),
    ("/select", "plain-text select mode (Ctrl+O)"),
    ("/save · /sessions · /resume · /delete", "session management"),
    ("/skills · /mcp", "list skills and MCP servers"),
    ("/reset · /reset apply", "ChatGPT banked rate-limit resets (OpenAI OAuth)"),
    ("/exit · /quit · /q", "exit Cairn"),
    ("", ""),
    ("Keys", ""),
    ("Enter", "send message"),
    ("Tab / →", "accept slash ghost or idle suggestion"),
    ("Up / Down", "scroll chat when it overflows · else history"),
    ("Ctrl+P / Ctrl+N", "prompt history"),
    ("PgUp/PgDn · Ctrl+U/D", "page / half-page scroll"),
    ("Ctrl+Home / End", "jump to top / bottom"),
    ("Wheel", "scroll transcript"),
    ("Ctrl+C", "interrupt · press again to exit when idle"),
    ("paste image", "Win Alt+V · Linux Ctrl+V · macOS Cmd+V"),
    ("Esc", "cancel pickers / close this help"),
    ("?", "shortcuts (when composer empty)"),
    ("", ""),
    ("Tips", ""),
    ("Sounds", "CAIRN_SOUND=0 to mute"),
    ("Skills", "packs as <dir>/<name>/SKILL.md"),
    ("MCP", "stdio servers in config · tools need permission"),
];

/// Rows of the shortcuts panel.
pub const SHORTCUT_ROWS: [(&'static str, &'static str); 13] = [
    ("Ctrl+C", "interrupt turn · press again to exit when idle"),
    ("Enter", "send message"),
    ("Alt+V / Ctrl+V / Cmd+V", "paste clipboard image (platform)"),
    ("Tab / →", "accept slash ghost or idle suggestion"),
    ("Up / Down", "scroll chat when it overflows · else prompt history"),
    ("Ctrl+P / Ctrl+N", "previous / next prompt history"),
    ("PgUp / PgDn", "page scroll"),
    ("Ctrl+U / Ctrl+D", "half-page scroll"),
    ("Ctrl+Home / End", "jump to top / bottom of chat"),
    ("Wheel", "scroll transcript"),
    ("Ctrl+Y", "copy last assistant message"),
    ("Ctrl+O", "plain-text select mode"),
    ("/", "slash commands (↑↓ select · Tab completes)"),
];

/// Where the chrome puts the caret.
#[derive(Clone, Copy, PartialEq, Eq, Structural, Debug)]
pub enum Mark {
    /// Nowhere.
    Hidden,
    /// In a line of the chrome, `x` columns in.
    At { x: u16, line: usize },
    /// In the composer, which is drawn apart.
    Composer,
}

/// The low sixteen bits of a count.
pub open spec fn low16(n: int) -> u16 {
    (n % 0x1_0000) as u16
}

pub(crate) fn to_low16(n: usize) -> (r: u16)
    ensures
        r == low16(n as int),
{
    (n % 0x1_0000) as u16
}

/// The columns of two texts, one after the other, as a terminal counts them.
pub open spec fn columns_of(a: Seq<char>, b: Seq<char>) -> u16 {
    low16(low16(text::width(a) as int) + low16(text::width(b) as int))
}

pub(crate) fn count_columns(a: &str, b: &str) -> (r: u16)
    ensures
        r == columns_of(a@, b@),
{
    let x = to_low16(text::display_width(a));
    let y = to_low16(text::display_width(b));
    let sum: u32 = x as u32 + y as u32;
    (sum % 0x1_0000) as u16
}

/// The style of a list row.
pub open spec fn row_tone(selected: bool) -> Tone {
    if selected {
        Tone::Selected
    } else {
        Tone::Muted
    }
}

pub(crate) fn tone_of_row(selected: bool) -> (r: Tone)
    ensures
        r == row_tone(selected),
{
    if selected {
        Tone::Selected
    } else {
        Tone::Muted
    }
}

/// The marker of a list row.
pub open spec fn row_mark(selected: bool) -> Seq<char> {
    if selected {
        "▸ "@
    } else {
        "  "@
    }
}

pub(crate) fn mark_of_row(selected: bool) -> (r: &'static str)
    ensures
        r@ == row_mark(selected),
{
    if selected {
        "▸ "
    } else {
        "  "
    }
}

/// The heading of a list: its title and the keys that work it.
pub open spec fn heading(title: Seq<char>, hint: Seq<char>) -> Seq<lines::SpanView> {
    seq![lines::sp(title, Tone::Accent), lines::sp(hint, Tone::Faint)]
}

pub(crate) fn heading_line(title: &str, hint: &str) -> (r: Line)
    ensures
        r@ == heading(title@, hint@),
{
    lines::line2(lines::span(title, Tone::Accent), lines::span(hint, Tone::Faint))
}

/// Where a list that does not fit stands.
pub open spec fn position_line(at: nat, num: nat) -> Seq<lines::SpanView> {
    seq![
        lines::sp(
            "  … "@ + chars::decimal(at) + "/"@ + chars::decimal(num) + "  ↑↓ scroll"@,
            Tone::Muted,
        ),
    ]
}

pub(crate) fn show_position(at: usize, num: usize) -> (r: Line)
    ensures
        r@ == position_line(at as nat, num as nat),
{
    let a = chars::count_string(at);
    let n = chars::count_string(num);
    let content = chars::cat5("  … ", a.as_str(), "/", n.as_str(), "  ↑↓ scroll");
    lines::line1(content.as_str(), Tone::Muted)
}

// ---------------------------------------------------------------------------
// Questions with options side by side
// ---------------------------------------------------------------------------

/// Options side by side, the selected one in brackets.
pub open spec fn option_spans(options: Seq<&'static str>, sel: int) -> Seq<lines::SpanView>
    decreases options.len(),
{
    if options.len() == 0 {
        seq![]
    } else {
        let i = options.len() - 1;
        let before = option_spans(options.drop_last(), sel);
        let gapped = if i > 0 {
            before.push(lines::sp("  "@, Tone::Plain))
        } else {
            before
        };
        let opt = options.last()@;
        gapped.push(
            if i == sel {
                lines::sp("["@ + opt + "]"@, Tone::AccentBold)
            } else {
                lines::sp(" "@ + opt + " "@, Tone::Muted)
            },
        )
    }
}

pub(crate) fn option_line(options: &[&'static str], sel: usize) -> (r: Line)
    ensures
        r@ == option_spans(options@, sel as int),
{
    let mut spans: Vec<Span> = Vec::new();
    let mut i: usize = 0;
    assert(lines::spans(spans@) =~= option_spans(options@.take(0), sel as int));
    while i < options.len()
        invariant
            0 <= i <= options@.len(),
            lines::spans(spans@) == option_spans(options@.take(i as int), sel as int),
        decreases options@.len() - i,
    {
        proof {
            assert(options@.take(i + 1).drop_last() =~= options@.take(i as int));
            assert(options@.take(i + 1).last() == options@[i as int]);
        }
        if i > 0 {
            lines::push_span(&mut spans, lines::span("  ", Tone::Plain));
        }
        if i == sel {
            let content = chars::cat3("[", options[i], "]");
            lines::push_span(&mut spans, lines::span(content.as_str(), Tone::AccentBold));
        } else {
            let content = chars::cat3(" ", options[i], " ");
            lines::push_span(&mut spans, lines::span(content.as_str(), Tone::Muted));
        }
        i = i + 1;
    }
    assert(options@.take(i as int) =~= options@);
    Line { spans }
}

pub const REMOVE_OPTIONS: [&'static str; 2] = ["Cancel", "Remove"];

pub const HANDOVER_OPTIONS: [&'static str; 2] = ["Cancel", "Continue"];

pub const RECOVERY_OPTIONS: [&'static str; 3] = [
    "Switch model (m)",
    "Switch provider (p)",
    "Dismiss (d)",
];

pub const PERMISSION_OPTIONS: [&'static str; 4] = [
    "1. Yes",
    "2. Yes, always allow",
    "3. No",
    "4. Discuss",
];

/// A question with two options.
pub open spec fn question(
    title: Seq<char>,
    detail: Seq<char>,
    options: Seq<&'static str>,
    sel: int,
) -> Seq<Seq<lines::SpanView>> {
    seq![
        seq![lines::sp(title, Tone::Ink)],
        seq![lines::sp(detail, Tone::Muted)],
        seq![],
        option_spans(options, sel),
        seq![lines::sp("(← → navigate  Enter confirm  Esc cancel)"@, Tone::Muted)],
    ]
}

pub(crate) fn question_lines(title: &str, detail: &str, options: &[&'static str], sel: usize) -> (r: Vec<
    Line,
>)
    ensures
        lines::lines(r@) == question(title@, detail@, options@, sel as int),
{
    let mut out: Vec<Line> = Vec::new();
    lines::push_line(&mut out, lines::line1(title, Tone::Ink));
    lines::push_line(&mut out, lines::line1(detail, Tone::Muted));
    lines::push_line(&mut out, body::blank_line());
    lines::push_line(&mut out, option_line(options, sel));
    lines::push_line(
        &mut out,
        lines::line1("(← → navigate  Enter confirm  Esc cancel)", Tone::Muted),
    );
    assert(lines::lines(out@) =~= question(title@, detail@, options@, sel as int));
    out
}

// ---------------------------------------------------------------------------
// Help and shortcuts
// ---------------------------------------------------------------------------

/// A row of the help overlay.
pub open spec fn help_row(keys: Seq<char>, desc: Seq<char>) -> Seq<lines::SpanView> {
    if keys.len() == 0 && desc.len() == 0 {
        seq![]
    } else if desc.len() == 0 {
        seq![lines::sp("  "@ + keys, Tone::AccentBold)]
    } else {
        seq![
            lines::sp("  "@ + chars::left_aligned(keys, 28), Tone::AccentFg),
            lines::sp(desc, Tone::Muted),
        ]
    }
}

/// The help overlay.
pub open spec fn help_chrome() -> Seq<Seq<lines::SpanView>> {
    seq![heading("── Help "@, "(Esc or Enter close) ──"@)] + Seq::new(
        HELP_ROWS@.len(),
        |i: int| help_row(HELP_ROWS@[i].0@, HELP_ROWS@[i].1@),
    )
}

fn help_line(keys: &str, desc: &str) -> (r: Line)
    ensures
        r@ == help_row(keys@, desc@),
{
    if keys.is_empty() && desc.is_empty() {
        return body::blank_line();
    }
    if desc.is_empty() {
        // Section header
        let content = chars::cat2("  ", keys);
        return lines::line1(content.as_str(), Tone::AccentBold);
    }
    let aligned = chars::align_left(keys, 28);
    let content = chars::cat2("  ", aligned.as_str());
    lines::line2(lines::span(content.as_str(), Tone::AccentFg), lines::span(desc, Tone::Muted))
}

pub(crate) fn help_lines() -> (r: Vec<Line>)
    ensures
        lines::lines(r@) == help_chrome(),
{
    let ghost all = help_chrome();
    let mut out: Vec<Line> = Vec::new();
    lines::push_line(&mut out, heading_line("── Help ", "(Esc or Enter close) ──"));
    assert(lines::lines(out@) =~= all.take(1));
    let mut i: usize = 0;
    while i < 35
        invariant
            0 <= i <= 35,
            all == help_chrome(),
            lines::lines(out@) == all.take(i + 1),
        decreases 35 - i,
    {
        let row = HELP_ROWS[i];
        let l = help_line(row.0, row.1);
        assert(all.take(i + 2) =~= all.take(i + 1).push(l@));
        lines::push_line(&mut out, l);
        i = i + 1;
    }
    assert(all.take(i + 1) =~= all);
    out
}

/// A row of the shortcuts panel.
pub open spec fn shortcut_row(keys: Seq<char>, desc: Seq<char>) -> Seq<lines::SpanView> {
    seq![
        lines::sp("  "@ + chars::left_aligned(keys, 22), Tone::AccentFg),
        lines::sp(desc, Tone::Muted),
    ]
}

/// The shortcuts panel.
pub open spec fn shortcuts_chrome() -> Seq<Seq<lines::SpanView>> {
    seq![heading("── Shortcuts "@, "(? or Esc close) ──"@)] + Seq::new(
        SHORTCUT_ROWS@.len(),
        |i: int| shortcut_row(SHORTCUT_ROWS@[i].0@, SHORTCUT_ROWS@[i].1@),
    ) + seq![
        seq![],
        seq![
            lines::sp("  /help"@, Tone::AccentFg),
            lines::sp("                  slash commands and more"@, Tone::Muted),
        ],
    ]
}

pub(crate) fn shortcuts_lines() -> (r: Vec<Line>)
    ensures
        lines::lines(r@) == shortcuts_chrome(),
{
    let ghost all = shortcuts_chrome();
    let mut out: Vec<Line> = Vec::new();
    lines::push_line(&mut out, heading_line("── Shortcuts ", "(? or Esc close) ──"));
    assert(lines::lines(out@) =~= all.take(1));
    let mut i: usize = 0;
    while i < 13
        invariant
            0 <= i <= 13,
            all == shortcuts_chrome(),
            lines::lines(out@) == all.take(i + 1),
        decreases 13 - i,
    {
        let row = SHORTCUT_ROWS[i];
        let aligned = chars::align_left(row.0, 22);
        let content = chars::cat2("  ", aligned.as_str());
        let l = lines::line2(
            lines::span(content.as_str(), Tone::AccentFg),
            lines::span(row.1, Tone::Muted),
        );
        assert(all.take(i + 2) =~= all.take(i + 1).push(l@));
        lines::push_line(&mut out, l);
        i = i + 1;
    }
    lines::push_line(&mut out, body::blank_line());
    lines::push_line(
        &mut out,
        lines::line2(
            lines::span("  /help", Tone::AccentFg),
            lines::span("                  slash commands and more", Tone::Muted),
        ),
    );
    assert(lines::lines(out@) =~= all);
    out
}

} // verus!
