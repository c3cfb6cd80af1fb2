//! Terminal text measurement, truncation, and sanitizing.

use crate::chars;
use crate::lines;
use crate::lines::Line;
use vstd::prelude::*;

verus! {

// ---------------------------------------------------------------------------
// Durations and ages
// ---------------------------------------------------------------------------

/// The label of a finished think phase that took the given milliseconds.
pub open spec fn thought_label(elapsed_ms: Option<u64>) -> Seq<char> {
    match elapsed_ms {
        None => "Thought"@,
        Some(ms) => {
            let secs = ms as nat / 1000;
            if ms < 100 {
                "Thought briefly"@
            } else if secs == 0 {
                "Thought for <1s"@
            } else if secs < 60 {
                "Thought for "@ + chars::decimal(secs) + "s"@
            } else if secs % 60 == 0 {
                "Thought for "@ + chars::decimal(secs / 60) + "m"@
            } else {
                "Thought for "@ + chars::decimal(secs / 60) + "m "@ + chars::decimal(secs % 60)
                    + "s"@
            }
        },
    }
}

/// Short label for a completed think phase.
pub fn format_thought_label(elapsed_ms: Option<u64>) -> (r: String)
    ensures
        r@ == thought_label(elapsed_ms),
{
    let ms = match elapsed_ms {
        None => {
            return String::from_str("Thought");
        },
        Some(ms) => ms,
    };
    let secs = ms / 1000;
    if secs == 0 {
        // Sub-second thinks still get a readable marker.
        if ms < 100 {
            return String::from_str("Thought briefly");
        }
        return String::from_str("Thought for <1s");
    }
    if secs < 60 {
        return chars::cat3("Thought for ", chars::decimal_string(secs).as_str(), "s");
    }
    let m = chars::decimal_string(secs / 60);
    let s = secs % 60;
    if s == 0 {
        chars::cat3("Thought for ", m.as_str(), "m")
    } else {
        chars::cat5("Thought for ", m.as_str(), "m ", chars::decimal_string(s).as_str(), "s")
    }
}

/// A number in at least two digits.
pub open spec fn two_digits(n: nat) -> Seq<char> {
    if n < 10 {
        "0"@ + chars::decimal(n)
    } else {
        chars::decimal(n)
    }
}

/// Elapsed time as `3s` or `1m 05s`.
pub open spec fn elapsed_compact(elapsed_ms: nat) -> Seq<char> {
    let secs = elapsed_ms / 1000;
    if secs < 60 {
        chars::decimal(secs) + "s"@
    } else {
        chars::decimal(secs / 60) + "m "@ + two_digits(secs % 60) + "s"@
    }
}

/// Compact elapsed time for spinner and footer.
pub fn format_elapsed_compact(elapsed_ms: u64) -> (r: String)
    ensures
        r@ == elapsed_compact(elapsed_ms as nat),
{
    let secs = elapsed_ms / 1000;
    if secs < 60 {
        chars::cat2(chars::decimal_string(secs).as_str(), "s")
    } else {
        let m = chars::decimal_string(secs / 60);
        let s = secs % 60;
        let shown = if s < 10 {
            chars::cat2("0", chars::decimal_string(s).as_str())
        } else {
            chars::decimal_string(s)
        };
        chars::cat4(m.as_str(), "m ", shown.as_str(), "s")
    }
}

/// How long ago `ts` was at time `now`, both in seconds.
pub open spec fn age(ts: nat, now: nat) -> Seq<char> {
    let secs = if now >= ts {
        (now - ts) as nat
    } else {
        0
    };
    let days = secs / 86400;
    let hours = secs % 86400 / 3600;
    let mins = secs % 3600 / 60;
    if days > 0 {
        chars::decimal(days) + "d "@ + chars::decimal(hours) + "h ago"@
    } else if hours > 0 {
        chars::decimal(hours) + "h "@ + chars::decimal(mins) + "m ago"@
    } else if mins > 0 {
        chars::decimal(mins) + "m ago"@
    } else {
        "just now"@
    }
}

/// Relative age of the absolute time `ts`, in unix seconds.
pub fn format_timestamp(ts: u64, now: u64) -> (r: String)
    ensures
        r@ == age(ts as nat, now as nat),
{
    let secs = now.saturating_sub(ts);
    let days = secs / 86400;
    let hours = (secs % 86400) / 3600;
    let mins = (secs % 3600) / 60;
    if days > 0 {
        chars::cat4(
            chars::decimal_string(days).as_str(),
            "d ",
            chars::decimal_string(hours).as_str(),
            "h ago",
        )
    } else if hours > 0 {
        chars::cat4(
            chars::decimal_string(hours).as_str(),
            "h ",
            chars::decimal_string(mins).as_str(),
            "m ago",
        )
    } else if mins > 0 {
        chars::cat2(chars::decimal_string(mins).as_str(), "m ago")
    } else {
        String::from_str("just now")
    }
}

/// The terminal height that a `LINES` setting announces, 24 by default.
pub open spec fn announced_height(lines: Option<Seq<char>>) -> nat {
    match lines {
        Some(s) => match chars::parsed_count(s) {
            Some(n) => n as nat,
            None => 24,
        },
        None => 24,
    }
}

/// Terminal height from the value of the `LINES` variable.
pub fn terminal_height(lines: &Option<String>) -> (r: Option<usize>)
    ensures
        r is Some,
        r->0 == announced_height(chars::opt(*lines)),
{
    match lines {
        Some(s) => match chars::parse_count(s.as_str()) {
            Some(n) => Some(n),
            None => Some(24),
        },
        None => Some(24),
    }
}

// ---------------------------------------------------------------------------
// Sanitizing
// ---------------------------------------------------------------------------

/// Where the sanitizer stands in a terminal control sequence.
#[derive(Clone, Copy, PartialEq, Eq, Structural, Debug)]
pub enum EscapeState {
    Text,
    Escape,
    EscapeIntermediate,
    Csi,
    ControlString { osc: bool },
    ControlStringEscape { osc: bool },
}

/// A character that opens a control string all by itself.
pub open spec fn opens_string(c: char) -> bool {
    c == '\u{90}' || c == '\u{98}' || c == '\u{9d}' || c == '\u{9e}' || c == '\u{9f}'
}

/// Newline or tab: the controls that plain text keeps.
pub open spec fn kept_control(c: char) -> bool {
    c == '\n' || c == '\t'
}

/// The state after reading `c` in state `state`.
pub open spec fn next_state(state: EscapeState, c: char) -> EscapeState {
    match state {
        EscapeState::Text => if c == '\u{1b}' {
            EscapeState::Escape
        } else if c == '\u{9b}' {
            EscapeState::Csi
        } else if opens_string(c) {
            EscapeState::ControlString { osc: c == '\u{9d}' }
        } else {
            EscapeState::Text
        },
        EscapeState::Escape => if c == '[' || c == '\u{9b}' {
            EscapeState::Csi
        } else if c == ']' {
            EscapeState::ControlString { osc: true }
        } else if c == 'P' || c == 'X' || c == '^' || c == '_' {
            EscapeState::ControlString { osc: false }
        } else if c == '\u{1b}' {
            EscapeState::Escape
        } else if opens_string(c) {
            EscapeState::ControlString { osc: c == '\u{9d}' }
        } else if '\u{20}' <= c <= '\u{2f}' {
            EscapeState::EscapeIntermediate
        } else {
            EscapeState::Text
        },
        EscapeState::EscapeIntermediate => if '\u{20}' <= c <= '\u{2f}' {
            EscapeState::EscapeIntermediate
        } else if c == '\u{1b}' {
            EscapeState::Escape
        } else {
            EscapeState::Text
        },
        EscapeState::Csi => if '\u{40}' <= c <= '\u{7e}' || c == '\u{9c}' {
            EscapeState::Text
        } else if c == '\u{1b}' {
            EscapeState::Escape
        } else if opens_string(c) {
            EscapeState::ControlString { osc: c == '\u{9d}' }
        } else {
            EscapeState::Csi
        },
        EscapeState::ControlString { osc } => if c == '\u{9c}' || (osc && c == '\u{7}') {
            EscapeState::Text
        } else if c == '\u{1b}' {
            EscapeState::ControlStringEscape { osc }
        } else {
            EscapeState::ControlString { osc }
        },
        EscapeState::ControlStringEscape { osc } => if c == '\\' || c == '\u{9c}' || (osc && c
            == '\u{7}') {
            EscapeState::Text
        } else if c == '\u{1b}' {
            EscapeState::ControlStringEscape { osc }
        } else {
            EscapeState::ControlString { osc }
        },
    }
}

/// Whether `c`, read in state `state`, is visible text.
pub open spec fn is_visible(state: EscapeState, c: char) -> bool {
    match state {
        EscapeState::Text => kept_control(c) || !chars::is_ctl(c),
        EscapeState::Escape => kept_control(c) || c > '\u{9f}',
        EscapeState::EscapeIntermediate => kept_control(c) || c > '\u{9f}',
        _ => false,
    }
}

/// The visible text of `s`, read from state `state` on.
pub open spec fn visible_from(state: EscapeState, s: Seq<char>) -> Seq<char>
    decreases s.len(),
{
    if s.len() == 0 {
        seq![]
    } else {
        let rest = visible_from(next_state(state, s[0]), s.drop_first());
        if is_visible(state, s[0]) {
            seq![s[0]] + rest
        } else {
            rest
        }
    }
}

/// `s` without terminal control sequences and control characters.
pub open spec fn sanitized(s: Seq<char>) -> Seq<char> {
    visible_from(EscapeState::Text, s)
}

/// One step of the sanitizer: the next state, and whether `c` is kept.
pub fn escape_step(state: EscapeState, c: char) -> (r: (EscapeState, bool))
    ensures
        r.0 == next_state(state, c),
        r.1 == is_visible(state, c),
{
    match state {
        EscapeState::Text => match c {
            '\n' | '\t' => (EscapeState::Text, true),
            '\u{001b}' => (EscapeState::Escape, false),
            '\u{009b}' => (EscapeState::Csi, false),
            '\u{0090}' | '\u{0098}' | '\u{009d}' | '\u{009e}' | '\u{009f}' => (
                EscapeState::ControlString { osc: c == '\u{009d}' },
                false,
            ),
            '\u{0000}'..='\u{001f}' | '\u{007f}'..='\u{009f}' => (EscapeState::Text, false),
            _ => (EscapeState::Text, true),
        },
        EscapeState::Escape => match c {
            '[' => (EscapeState::Csi, false),
            ']' => (EscapeState::ControlString { osc: true }, false),
            'P' | 'X' | '^' | '_' => (EscapeState::ControlString { osc: false }, false),
            '\u{001b}' => (EscapeState::Escape, false),
            '\u{009b}' => (EscapeState::Csi, false),
            '\u{0090}' | '\u{0098}' | '\u{009d}' | '\u{009e}' | '\u{009f}' => (
                EscapeState::ControlString { osc: c == '\u{009d}' },
                false,
            ),
            '\n' | '\t' => (EscapeState::Text, true),
            '\u{0020}'..='\u{002f}' => (EscapeState::EscapeIntermediate, false),
            '\u{0030}'..='\u{007e}' | '\u{0000}'..='\u{001f}' | '\u{007f}'..='\u{009f}' => (
                EscapeState::Text,
                false,
            ),
            _ => (EscapeState::Text, true),
        },
        EscapeState::EscapeIntermediate => match c {
            '\u{0020}'..='\u{002f}' => (EscapeState::EscapeIntermediate, false),
            '\u{0030}'..='\u{007e}' => (EscapeState::Text, false),
            '\u{001b}' => (EscapeState::Escape, false),
            '\n' | '\t' => (EscapeState::Text, true),
            '\u{0000}'..='\u{001f}' | '\u{007f}'..='\u{009f}' => (EscapeState::Text, false),
            _ => (EscapeState::Text, true),
        },
        EscapeState::Csi => match c {
            '\u{0040}'..='\u{007e}' => (EscapeState::Text, false),
            '\u{001b}' => (EscapeState::Escape, false),
            '\u{009b}' => (EscapeState::Csi, false),
            '\u{0090}' | '\u{0098}' | '\u{009d}' | '\u{009e}' | '\u{009f}' => (
                EscapeState::ControlString { osc: c == '\u{009d}' },
                false,
            ),
            '\u{009c}' => (EscapeState::Text, false),
            _ => (EscapeState::Csi, false),
        },
        EscapeState::ControlString { osc } => {
            if c == '\u{009c}' || (osc && c == '\u{0007}') {
                (EscapeState::Text, false)
            } else if c == '\u{001b}' {
                (EscapeState::ControlStringEscape { osc }, false)
            } else {
                (EscapeState::ControlString { osc }, false)
            }
        },
        EscapeState::ControlStringEscape { osc } => {
            if c == '\\' || c == '\u{009c}' || (osc && c == '\u{0007}') {
                (EscapeState::Text, false)
            } else if c == '\u{001b}' {
                (EscapeState::ControlStringEscape { osc }, false)
            } else {
                (EscapeState::ControlString { osc }, false)
            }
        },
    }
}

/// Strip terminal controls before writing untrusted text directly to a terminal.
///
/// Meant for raw stdout boundaries only: the painter keeps receiving the
/// original text.
pub fn sanitize_terminal_output(input: &str) -> (output: String)
    ensures
        output@ == sanitized(input@),
{
    let v = chars::to_chars(input);
    let mut output = String::new();
    let mut state = EscapeState::Text;
    let mut i: usize = 0;
    assert(v@.skip(0) =~= v@);
    while i < v.len()
        invariant
            v@ == input@,
            0 <= i <= v@.len(),
            output@ + visible_from(state, v@.skip(i as int)) == sanitized(input@),
        decreases v@.len() - i,
    {
        let c = v[i];
        let ghost before = output@;
        let ghost rest = v@.skip(i as int);
        let (next, keep) = escape_step(state, c);
        if keep {
            output.push(c);
        }
        proof {
            assert(rest.drop_first() =~= v@.skip(i + 1));
            let tail = visible_from(next, v@.skip(i + 1));
            if keep {
                assert(output@ + tail =~= before + (seq![c] + tail));
            }
        }
        state = next;
        i = i + 1;
    }
    assert(output@ + visible_from(state, v@.skip(i as int)) =~= output@);
    output
}

/// Clean pasted text for the composer: drop control sequences and controls
/// while keeping Unicode, newlines and tabs.
pub fn sanitize_paste_for_composer(input: &str) -> (output: String)
    ensures
        output@ == sanitized(input@),
{
    sanitize_terminal_output(input)
}

/// Sanitized text holds no control character but newlines and tabs.
pub proof fn law_sanitized_has_no_controls(s: Seq<char>)
    ensures
        forall|i: int|
            0 <= i < sanitized(s).len() ==> kept_control(#[trigger] sanitized(s)[i])
                || !chars::is_ctl(sanitized(s)[i]),
{
    lemma_visible_has_no_controls(EscapeState::Text, s);
}

proof fn lemma_visible_has_no_controls(state: EscapeState, s: Seq<char>)
    ensures
        forall|i: int|
            0 <= i < visible_from(state, s).len() ==> kept_control(
                #[trigger] visible_from(state, s)[i],
            ) || !chars::is_ctl(visible_from(state, s)[i]),
    decreases s.len(),
{
    if s.len() > 0 {
        let next = next_state(state, s[0]);
        lemma_visible_has_no_controls(next, s.drop_first());
        let rest = visible_from(next, s.drop_first());
        assert forall|i: int| 0 <= i < visible_from(state, s).len() implies kept_control(
            #[trigger] visible_from(state, s)[i],
        ) || !chars::is_ctl(visible_from(state, s)[i]) by {
            if is_visible(state, s[0]) && i > 0 {
                assert(visible_from(state, s)[i] == rest[i - 1]);
            }
        }
    }
}

/// Text without control characters, other than newlines and tabs, passes
/// through unchanged.
pub proof fn law_sanitize_keeps_plain_text(s: Seq<char>)
    requires
        forall|i: int| 0 <= i < s.len() ==> kept_control(#[trigger] s[i]) || !chars::is_ctl(s[i]),
    ensures
        sanitized(s) == s,
    decreases s.len(),
{
    if s.len() > 0 {
        let t = s.drop_first();
        assert forall|i: int| 0 <= i < t.len() implies kept_control(#[trigger] t[i])
            || !chars::is_ctl(t[i]) by {
            assert(t[i] == s[i + 1]);
        }
        law_sanitize_keeps_plain_text(t);
        assert(kept_control(s[0]) || !chars::is_ctl(s[0]));
        assert(next_state(EscapeState::Text, s[0]) == EscapeState::Text);
        assert(seq![s[0]] + t =~= s);
    }
}

/// Sanitizing twice is sanitizing once.
pub proof fn law_sanitize_is_idempotent(s: Seq<char>)
    ensures
        sanitized(sanitized(s)) == sanitized(s),
{
    law_sanitized_has_no_controls(s);
    law_sanitize_keeps_plain_text(sanitized(s));
}

// ---------------------------------------------------------------------------
// Display width
// ---------------------------------------------------------------------------

/// Code point ranges rendered two columns wide by terminals, in order.
pub const WIDE_RANGES: [(u32, u32); 30] = [
    (0x1100, 0x115F),
    (0x2329, 0x232A),
    (0x2600, 0x27BF),  // misc symbols + dingbats
    (0x2E80, 0x303E),
    (0x3040, 0x3096),
    (0x3099, 0x30FF),
    (0x3105, 0x312F),
    (0x3131, 0x318E),
    (0x3190, 0x31E3),
    (0x31F0, 0x321E),
    (0x3220, 0x3247),
    (0x3250, 0x4DBF),
    (0x4E00, 0xA4CF),
    (0xA960, 0xA97C),
    (0xAC00, 0xD7A3),
    (0xF900, 0xFAFF),
    (0xFE10, 0xFE19),
    (0xFE30, 0xFE6F),
    (0xFF01, 0xFF60),
    (0xFFE0, 0xFFE6),
    (0x1B000, 0x1B0FF),
    (0x1B100, 0x1B12F),
    (0x1F000, 0x1F02F),  // mahjong tiles
    (0x1F0A0, 0x1F0FF),  // playing cards
    (0x1F100, 0x1F1FF),  // enclosed alphanumerics / regional indicators
    (0x1F200, 0x1F2FF),
    (0x1F300, 0x1F9FF),  // pictographs, emoticons, transport, supplemental
    (0x1FA00, 0x1FAFF),  // chess symbols, pictographs extended-A
    (0x20000, 0x2FFFD),
    (0x30000, 0x3FFFD),
];

/// Code point ranges that occupy no columns: combining marks, variation
/// selectors, and the joiners used to build emoji sequences.
pub const ZERO_WIDTH_RANGES: [(u32, u32); 8] = [
    (0x0300, 0x036F),
    (0x1AB0, 0x1AFF),
    (0x1DC0, 0x1DFF),
    (0x200D, 0x200D),  // zero-width joiner
    (0x20D0, 0x20FF),
    (0xFE00, 0xFE0F),
    (0xFEFF, 0xFEFF),  // zero-width no-break space
    (0xE0100, 0xE01EF),
];

/// Whether a code point lies in one of the ranges.
pub open spec fn within(cp: u32, ranges: Seq<(u32, u32)>) -> bool {
    exists|i: int| 0 <= i < ranges.len() && (#[trigger] ranges[i]).0 <= cp <= ranges[i].1
}

fn in_ranges(cp: u32, ranges: &[(u32, u32)]) -> (r: bool)
    ensures
        r == within(cp, ranges@),
{
    let mut i: usize = 0;
    while i < ranges.len()
        invariant
            0 <= i <= ranges@.len(),
            forall|j: int| 0 <= j < i ==> !((#[trigger] ranges@[j]).0 <= cp <= ranges@[j].1),
        decreases ranges@.len() - i,
    {
        if ranges[i].0 <= cp && cp <= ranges[i].1 {
            assert(ranges@[i as int].0 <= cp <= ranges@[i as int].1);
            return true;
        }
        i = i + 1;
    }
    false
}

/// The columns that a terminal gives to one character.
#[verifier::opaque]
pub open spec fn columns(c: char) -> nat {
    if within(c as u32, ZERO_WIDTH_RANGES@) {
        0
    } else if (c as u32) < 0x1100 {
        1
    } else if within(c as u32, WIDE_RANGES@) {
        2
    } else {
        1
    }
}

/// The columns that a terminal gives to a text.
pub open spec fn width(s: Seq<char>) -> nat
    decreases s.len(),
{
    if s.len() == 0 {
        0
    } else {
        width(s.drop_last()) + columns(s.last())
    }
}

/// How many leading characters of `s` fit in `w` columns, up to the first that
/// does not fit.
pub open spec fn fit_len(s: Seq<char>, w: int) -> nat
    decreases s.len(),
{
    if s.len() == 0 || columns(s[0]) > w {
        0
    } else {
        1 + fit_len(s.drop_first(), w - columns(s[0]))
    }
}

/// `s` brought to exactly `w` columns, by spaces or by cutting.
pub open spec fn padded(s: Seq<char>, w: nat) -> Seq<char> {
    let kept = if width(s) <= w {
        s
    } else {
        s.take(fit_len(s, w as int) as int)
    };
    kept + chars::repeated(' ', (w - width(kept)) as nat)
}

pub fn char_width(c: char) -> (r: usize)
    ensures
        r == columns(c),
        r <= 2,
{
    reveal(columns);
    let cp = c as u32;
    if in_ranges(cp, &ZERO_WIDTH_RANGES) {
        return 0;
    }
    if cp < 0x1100 {
        return 1;
    }
    if in_ranges(cp, &WIDE_RANGES) {
        2
    } else {
        1
    }
}

/// No character is wider than its UTF-8 encoding is long.
pub proof fn lemma_columns_bound(c: char)
    ensures
        columns(c) <= chars::utf8_width(c),
        columns(c) <= 2,
{
    reveal(columns);
}

/// A space, and any other ASCII character, takes one column.
pub proof fn lemma_ascii_columns(c: char)
    requires
        c as u32 <= 0x7f,
    ensures
        columns(c) == 1,
{
    reveal(columns);
    assert forall|i: int| 0 <= i < ZERO_WIDTH_RANGES@.len() implies !((
    #[trigger] ZERO_WIDTH_RANGES@[i]).0 <= c as u32 <= ZERO_WIDTH_RANGES@[i].1) by {}
}

/// The ellipsis takes one column.
pub proof fn lemma_ellipsis_columns()
    ensures
        columns('…') == 1,
{
    reveal(columns);
    assert forall|i: int| 0 <= i < ZERO_WIDTH_RANGES@.len() implies !((
    #[trigger] ZERO_WIDTH_RANGES@[i]).0 <= 0x2026 <= ZERO_WIDTH_RANGES@[i].1) by {}
    assert forall|i: int| 0 <= i < WIDE_RANGES@.len() implies !((#[trigger] WIDE_RANGES@[i]).0
        <= 0x2026 <= WIDE_RANGES@[i].1) by {}
    assert('…' as u32 == 0x2026);
}

/// Width adds up over concatenation.
pub proof fn lemma_width_concat(a: Seq<char>, b: Seq<char>)
    ensures
        width(a + b) == width(a) + width(b),
    decreases b.len(),
{
    if b.len() == 0 {
        assert(a + b =~= a);
    } else {
        assert((a + b).drop_last() =~= a + b.drop_last());
        lemma_width_concat(a, b.drop_last());
    }
}

pub proof fn lemma_width_bytes(s: Seq<char>)
    ensures
        width(s) <= chars::byte_len(s),
    decreases s.len(),
{
    if s.len() > 0 {
        lemma_width_bytes(s.drop_last());
        lemma_columns_bound(s.last());
        chars::lemma_byte_len_push(s.drop_last(), s.last());
        assert(s.drop_last().push(s.last()) =~= s);
    }
}

pub proof fn lemma_width_spaces(n: nat)
    ensures
        width(chars::repeated(' ', n)) == n,
    decreases n,
{
    if n > 0 {
        let s = chars::repeated(' ', n);
        assert(s.drop_last() =~= chars::repeated(' ', (n - 1) as nat));
        lemma_width_spaces((n - 1) as nat);
        lemma_ascii_columns(' ');
    }
}

/// The fitting prefix fits, and the next character would not.
pub proof fn lemma_fit_len(s: Seq<char>, w: int)
    requires
        w >= 0,
    ensures
        fit_len(s, w) <= s.len(),
        width(s.take(fit_len(s, w) as int)) <= w,
        fit_len(s, w) < s.len() ==> width(s.take(fit_len(s, w) as int)) + columns(
            s[fit_len(s, w) as int],
        ) > w,
        width(s) <= w ==> fit_len(s, w) == s.len(),
    decreases s.len(),
{
    if s.len() == 0 {
        assert(s.take(0) =~= Seq::<char>::empty());
    } else if columns(s[0]) > w {
        assert(s.take(0) =~= Seq::<char>::empty());
        assert(seq![s[0]] + s.drop_first() =~= s);
        lemma_width_concat(seq![s[0]], s.drop_first());
        lemma_width_one(s[0]);
    } else {
        let t = s.drop_first();
        let n = fit_len(t, w - columns(s[0])) as int;
        lemma_fit_len(t, w - columns(s[0]));
        assert(s.take(n + 1) =~= seq![s[0]] + t.take(n));
        lemma_width_concat(seq![s[0]], t.take(n));
        lemma_width_one(s[0]);
        assert(seq![s[0]] + t =~= s);
        lemma_width_concat(seq![s[0]], t);
    }
}

pub proof fn lemma_width_one(c: char)
    ensures
        width(seq![c]) == columns(c),
{
    assert(seq![c].drop_last() =~= Seq::<char>::empty());
    assert(width(seq![c].drop_last()) == 0);
}

/// Padding yields exactly the requested number of columns.
pub proof fn law_padded_width(s: Seq<char>, w: nat)
    ensures
        width(padded(s, w)) == w,
{
    let kept = if width(s) <= w {
        s
    } else {
        s.take(fit_len(s, w as int) as int)
    };
    lemma_fit_len(s, w as int);
    lemma_width_concat(kept, chars::repeated(' ', (w - width(kept)) as nat));
    lemma_width_spaces((w - width(kept)) as nat);
}

/// The columns that a terminal gives to a text.
pub fn display_width(s: &str) -> (r: usize)
    ensures
        r == width(s@),
{
    let bytes = chars::str_bytes(s);
    let v = chars::to_chars(s);
    let mut w: usize = 0;
    let mut i: usize = 0;
    proof {
        lemma_width_bytes(s@);
    }
    while i < v.len()
        invariant
            v@ == s@,
            0 <= i <= v@.len(),
            w == width(s@.take(i as int)),
            width(s@) <= bytes,
        decreases v@.len() - i,
    {
        proof {
            assert(s@.take(i + 1).drop_last() =~= s@.take(i as int));
            assert(s@ =~= s@.take(i + 1) + s@.skip(i + 1));
            lemma_width_concat(s@.take(i + 1), s@.skip(i + 1));
        }
        w = w + char_width(v[i]);
        i = i + 1;
    }
    assert(s@.take(i as int) =~= s@);
    w
}

/// How many leading characters fit in `w` columns.
pub fn fit_prefix(v: &Vec<char>, w: usize) -> (n: usize)
    ensures
        n == fit_len(v@, w as int),
        n <= v@.len(),
{
    let mut i: usize = 0;
    let mut left: usize = w;
    assert(v@.skip(0) =~= v@);
    while i < v.len()
        invariant
            0 <= i <= v@.len(),
            fit_len(v@, w as int) == i + fit_len(v@.skip(i as int), left as int),
        decreases v@.len() - i,
    {
        let cw = char_width(v[i]);
        assert(v@.skip(i as int).drop_first() =~= v@.skip(i + 1));
        if cw > left {
            return i;
        }
        left = left - cw;
        i = i + 1;
    }
    i
}

/// Pad or truncate `s` to exactly `width` terminal columns.
pub fn pad_to_display_width(s: &str, width: usize) -> (r: String)
    ensures
        r@ == padded(s@, width as nat),
        self::width(r@) == width,
{
    proof {
        law_padded_width(s@, width as nat);
        lemma_fit_len(s@, width as int);
    }
    let dw = display_width(s);
    if dw <= width {
        return chars::cat2(s, chars::repeat_char(' ', width - dw).as_str());
    }
    let v = chars::to_chars(s);
    let n = fit_prefix(&v, width);
    let kept = chars::range_string(&v, 0, n);
    assert(kept@ =~= s@.take(n as int));
    let used = display_width(kept.as_str());
    chars::cat2(kept.as_str(), chars::repeat_char(' ', width - used).as_str())
}

/// `s` cut to `max` characters, with an ellipsis where something was cut.
pub open spec fn summary_cut(s: Seq<char>, max: nat) -> Seq<char> {
    if s.len() > max {
        s.take(max as int).push('…')
    } else {
        s
    }
}

pub fn truncate_summary(summary: &str, max_chars: usize) -> (r: String)
    ensures
        r@ == summary_cut(summary@, max_chars as nat),
{
    let v = chars::to_chars(summary);
    if v.len() > max_chars {
        let mut out = chars::range_string(&v, 0, max_chars);
        assert(out@ =~= summary@.take(max_chars as int));
        out.push('…');
        out
    } else {
        String::from_str(summary)
    }
}

// ---------------------------------------------------------------------------
// Lines
// ---------------------------------------------------------------------------

/// Whether a styled line shows nothing.
pub open spec fn shows_nothing(line: Seq<lines::SpanView>) -> bool {
    forall|i: int| 0 <= i < line.len() ==> chars::blank((#[trigger] line[i]).content)
}

pub fn line_is_blank(line: &Line) -> (r: bool)
    ensures
        r == shows_nothing(line@),
{
    let mut i: usize = 0;
    while i < line.spans.len()
        invariant
            0 <= i <= line.spans@.len(),
            forall|j: int| 0 <= j < i ==> chars::blank((#[trigger] line@[j]).content),
        decreases line.spans@.len() - i,
    {
        assert(line@[i as int].content == line.spans@[i as int].content@);
        if !chars::is_blank(line.spans[i].content.as_str()) {
            return false;
        }
        i = i + 1;
    }
    true
}

/// The columns of a styled line.
pub open spec fn line_width(line: Seq<lines::SpanView>) -> nat
    decreases line.len(),
{
    if line.len() == 0 {
        0
    } else {
        line_width(line.drop_last()) + width(line.last().content)
    }
}

/// The rows that a styled line takes when wrapped to `w` columns.
pub open spec fn wrapped_rows(line: Seq<lines::SpanView>, w: nat) -> nat {
    if line_width(line) == 0 {
        1
    } else {
        (line_width(line) + w - 1) as nat / w
    }
}

/// The rows that styled lines take when wrapped to `width` columns.
pub open spec fn wrapped_total(ls: Seq<Seq<lines::SpanView>>, width: nat) -> nat
    decreases ls.len(),
{
    if ls.len() == 0 {
        0
    } else {
        wrapped_total(ls.drop_last(), width) + wrapped_rows(
            ls.last(),
            if width == 0 {
                1
            } else {
                width
            },
        )
    }
}

/// `n`, or the largest word when `n` does not fit in one.
pub open spec fn clamp_word(n: nat) -> usize {
    if n <= usize::MAX {
        n as usize
    } else {
        usize::MAX
    }
}

fn styled_width(line: &Line) -> (r: u128)
    ensures
        r == line_width(line@),
        r < u128::MAX,
{
    let mut w: u128 = 0;
    let mut i: usize = 0;
    while i < line.spans.len()
        invariant
            0 <= i <= line.spans@.len(),
            w == line_width(line@.take(i as int)),
            w <= i * (usize::MAX as int),
        decreases line.spans@.len() - i,
    {
        proof {
            assert(line@.take(i + 1).drop_last() =~= line@.take(i as int));
            assert(line@.take(i + 1).last().content == line.spans@[i as int].content@);
            assert(i * (usize::MAX as int) + usize::MAX == (i + 1) * (usize::MAX as int))
                by (nonlinear_arith);
            assert((i + 1) * (usize::MAX as int) <= 0x1_0000_0000_0000_0000 * (usize::MAX as int))
                by (nonlinear_arith)
                requires
                    i + 1 <= 0x1_0000_0000_0000_0000,
            ;
        }
        w = w + display_width(line.spans[i].content.as_str()) as u128;
        i = i + 1;
    }
    assert(line@.take(i as int) =~= line@);
    assert(i * (usize::MAX as int) <= 0xffff_ffff_ffff_ffff * 0xffff_ffff_ffff_ffff)
        by (nonlinear_arith)
        requires
            0 <= i <= 0xffff_ffff_ffff_ffff,
            usize::MAX <= 0xffff_ffff_ffff_ffff,
    ;
    w
}

/// The rows that styled lines take when wrapped to `width` columns.
pub fn total_wrapped(ls: &[Line], width: usize) -> (r: usize)
    ensures
        r == clamp_word(wrapped_total(lines::lines(ls@), width as nat)),
{
    let w: usize = if width == 0 {
        1
    } else {
        width
    };
    let ghost all = lines::lines(ls@);
    let mut total: usize = 0;
    let mut i: usize = 0;
    while i < ls.len()
        invariant
            0 <= i <= ls@.len(),
            all == lines::lines(ls@),
            w == (if width == 0 {
                1usize
            } else {
                width
            }),
            total == clamp_word(wrapped_total(all.take(i as int), width as nat)),
        decreases ls@.len() - i,
    {
        proof {
            assert(all.take(i + 1).drop_last() =~= all.take(i as int));
            assert(all.take(i + 1).last() == ls@[i as int]@);
        }
        let lw = styled_width(&ls[i]);
        let rows: u128 = if lw == 0 {
            1
        } else {
            let whole = lw / (w as u128);
            let part = lw % (w as u128);
            proof {
                vstd::arithmetic::div_mod::lemma_fundamental_div_mod(lw as int, w as int);
                lemma_div_up(lw as int, w as int);
                vstd::arithmetic::div_mod::lemma_div_is_ordered_by_denominator(
                    lw as int,
                    1,
                    w as int,
                );
            }
            if part == 0 {
                whole
            } else {
                whole + 1
            }
        };
        if rows > (usize::MAX - total) as u128 {
            total = usize::MAX;
        } else {
            total = total + rows as usize;
        }
        i = i + 1;
    }
    assert(all.take(i as int) =~= all);
    total
}

proof fn lemma_div_up(a: int, w: int)
    requires
        a > 0,
        w > 0,
    ensures
        (a + w - 1) / w == a / w + (if a % w == 0 {
            0int
        } else {
            1int
        }),
{
    let q = a / w;
    let r = a % w;
    vstd::arithmetic::div_mod::lemma_fundamental_div_mod(a, w);
    if r == 0 {
        assert(a + w - 1 == q * w + (w - 1)) by (nonlinear_arith)
            requires
                a == w * q + r,
                r == 0,
        ;
        vstd::arithmetic::div_mod::lemma_fundamental_div_mod_converse(a + w - 1, w, q, w - 1);
    } else {
        assert(a + w - 1 == (q + 1) * w + (r - 1)) by (nonlinear_arith)
            requires
                a == w * q + r,
        ;
        vstd::arithmetic::div_mod::lemma_fundamental_div_mod_converse(a + w - 1, w, q + 1, r - 1);
    }
}

/// Each text followed by a newline.
pub open spec fn terminated(ls: Seq<Seq<char>>) -> Seq<char>
    decreases ls.len(),
{
    if ls.len() == 0 {
        seq![]
    } else {
        terminated(ls.drop_last()) + ls.last() + "\n"@
    }
}

/// `s` without the newlines at its end.
pub open spec fn without_final_newlines(s: Seq<char>) -> Seq<char>
    decreases s.len(),
{
    if s.len() > 0 && s.last() == '\n' {
        without_final_newlines(s.drop_last())
    } else {
        s
    }
}

/// `s` cut to its first `head` and last `tail` lines, with a note between them
/// of how many were left out.
pub open spec fn display_cut(s: Seq<char>, head: nat, tail: nat) -> Seq<char> {
    let ls = chars::lines(s);
    if ls.len() <= head + tail {
        s
    } else {
        without_final_newlines(
            terminated(ls.take(head as int)) + ("… ("@ + chars::decimal(
                (ls.len() - head - tail) as nat,
            ) + " lines omitted) …\n"@) + terminated(ls.skip(ls.len() - tail)),
        )
    }
}

/// Each line that is terminated ends in a line feed of its own.
proof fn lemma_terminated_breaks(ls: Seq<Seq<char>>)
    requires
        forall|k: int, i: int|
            0 <= k < ls.len() && 0 <= i < ls[k].len() ==> #[trigger] ls[k][i] != '\n',
    ensures
        chars::count_of(terminated(ls), '\n') == ls.len(),
    decreases ls.len(),
{
    if ls.len() > 0 {
        let init = ls.drop_last();
        let last = ls.last();
        assert forall|k: int, i: int| 0 <= k < init.len() && 0 <= i < init[k].len() implies
            #[trigger] init[k][i] != '\n' by {
            assert(init[k] == ls[k]);
        }
        assert forall|i: int| 0 <= i < last.len() implies #[trigger] last[i] != '\n' by {
            assert(ls[ls.len() - 1][i] != '\n');
        }
        lemma_terminated_breaks(init);
        chars::lemma_count_none(last, '\n');
        chars::lemma_count_concat(terminated(init), last, '\n');
        reveal_strlit("\n");
        assert((terminated(init) + last + "\n"@).drop_last() =~= terminated(init) + last);
    }
}

/// A cut text has at most `head` and `tail` lines and the note between them:
/// one line feed less than lines. It ends in the last line of the whole text.
pub proof fn law_display_cut_is_short(s: Seq<char>, head: nat, tail: nat)
    requires
        s.len() > 0,
        !chars::is_ws(s.last()),
        tail >= 1,
    ensures
        chars::count_of(display_cut(s, head, tail), '\n') <= head + tail,
        chars::ends(display_cut(s, head, tail), chars::lines(s).last()),
{
    let ls = chars::lines(s);
    chars::lemma_lines_of_trimmed(s);
    if ls.len() > head + tail {
        assert forall|k: int, i: int| 0 <= k < ls.len() && 0 <= i < ls[k].len() implies
            #[trigger] ls[k][i] != '\n' by {
            chars::lemma_lines_are_whole(s, k);
        }
        let above = ls.take(head as int);
        let below = ls.skip(ls.len() - tail);
        let last = ls.last();
        assert forall|k: int, i: int| 0 <= k < above.len() && 0 <= i < above[k].len() implies
            #[trigger] above[k][i] != '\n' by {
            assert(above[k] == ls[k]);
        }
        assert forall|k: int, i: int| 0 <= k < below.len() && 0 <= i < below[k].len() implies
            #[trigger] below[k][i] != '\n' by {
            assert(below[k] == ls[k + ls.len() - tail]);
        }
        lemma_terminated_breaks(above);
        lemma_terminated_breaks(below);
        let left_out = (ls.len() - head - tail) as nat;
        let note = "… ("@ + chars::decimal(left_out) + " lines omitted) …\n"@;
        lemma_note_breaks(left_out);
        let upper = terminated(above) + note;
        let whole = upper + terminated(below);
        chars::lemma_count_concat(terminated(above), note, '\n');
        chars::lemma_count_concat(upper, terminated(below), '\n');
        reveal_strlit("\n");
        let shown = upper + terminated(below.drop_last()) + last;
        assert(below.last() == last);
        assert(terminated(below) == terminated(below.drop_last()) + last + "\n"@);
        assert(whole.drop_last() =~= shown);
        assert(whole.last() == '\n');
        assert(shown.last() == last.last());
        assert(ls[ls.len() - 1][last.len() - 1] != '\n');
        assert(without_final_newlines(shown) == shown);
        assert(without_final_newlines(whole) == shown);
        assert(shown.skip(shown.len() - last.len()) =~= last);
    }
}

/// The note of what was left out is one line.
proof fn lemma_note_breaks(n: nat)
    ensures
        chars::count_of("… ("@ + chars::decimal(n) + " lines omitted) …\n"@, '\n') == 1,
{
    let note = "… ("@ + chars::decimal(n) + " lines omitted) …\n"@;
    reveal_strlit("… (");
    reveal_strlit(" lines omitted) …\n");
    chars::lemma_decimal_digits(n);
    let words = note.drop_last();
    assert forall|i: int| 0 <= i < words.len() implies #[trigger] words[i] != '\n' by {
        let k = chars::decimal(n).len();
        if 3 <= i < 3 + k {
            assert(words[i] == chars::decimal(n)[i - 3]);
        } else if i >= 3 + k {
            assert(words[i] == " lines omitted) …\n"@[i - 3 - k]);
        }
    }
    chars::lemma_count_none(words, '\n');
}

fn terminate_range(ls: &Vec<String>, lo: usize, hi: usize) -> (r: String)
    requires
        lo <= hi <= ls@.len(),
    ensures
        r@ == terminated(chars::strs(ls@).subrange(lo as int, hi as int)),
{
    let ghost all = chars::strs(ls@);
    let mut out = String::new();
    let mut i: usize = lo;
    assert(all.subrange(lo as int, lo as int) =~= Seq::<Seq<char>>::empty());
    while i < hi
        invariant
            lo <= i <= hi <= ls@.len(),
            all == chars::strs(ls@),
            out@ == terminated(all.subrange(lo as int, i as int)),
        decreases hi - i,
    {
        proof {
            assert(all.subrange(lo as int, i + 1).drop_last() =~= all.subrange(
                lo as int,
                i as int,
            ));
            assert(all.subrange(lo as int, i + 1).last() == ls@[i as int]@);
        }
        out.append(ls[i].as_str());
        out.append("\n");
        i = i + 1;
    }
    out
}

fn drop_final_newlines(s: &str) -> (r: String)
    ensures
        r@ == without_final_newlines(s@),
{
    let v = chars::to_chars(s);
    let mut hi: usize = v.len();
    assert(v@.take(hi as int) =~= v@);
    while hi > 0 && v[hi - 1] == '\n'
        invariant
            v@ == s@,
            0 <= hi <= v@.len(),
            without_final_newlines(v@.take(hi as int)) == without_final_newlines(s@),
        decreases hi,
    {
        assert(v@.take(hi as int).drop_last() =~= v@.take(hi - 1));
        hi = hi - 1;
    }
    assert(v@.take(hi as int) =~= v@.subrange(0, hi as int));
    chars::range_string(&v, 0, hi)
}

/// Limit on-screen tool output by line count (head and tail), so that long
/// shell dumps stay readable and keep the trailing summary or exit code.
pub fn truncate_display(s: &str, head_lines: usize, tail_lines: usize) -> (r: String)
    requires
        head_lines + tail_lines <= usize::MAX,
    ensures
        r@ == display_cut(s@, head_lines as nat, tail_lines as nat),
{
    let ls = chars::split_lines(s);
    let ghost all = chars::lines(s@);
    if ls.len() <= head_lines + tail_lines {
        return String::from_str(s);
    }
    let n = ls.len();
    let mut out = terminate_range(&ls, 0, head_lines);
    let omitted = n - head_lines - tail_lines;
    let note = chars::cat3("… (", chars::count_string(omitted).as_str(), " lines omitted) …\n");
    out.append(note.as_str());
    out.append(terminate_range(&ls, n - tail_lines, n).as_str());
    proof {
        assert(all.subrange(0, head_lines as int) =~= all.take(head_lines as int));
        assert(all.subrange(n - tail_lines, n as int) =~= all.skip(n - tail_lines));
    }
    drop_final_newlines(out.as_str())
}

} // verus!
