//! The transcript pane: the welcome box, the transcript, and what streams in.

use crate::chars;
use crate::lines;
use crate::lines::{Line, Span, Tone};
use crate::state::{State, Tui, TuiModel};
use crate::text;
use crate::tool_display;
use crate::transcript;
use crate::transcript::OutputLine;
use crate::tui;
use vstd::prelude::*;

verus! {

// ---------------------------------------------------------------------------
// What the pane shows
// ---------------------------------------------------------------------------

/// A line of the welcome box: text between two borders.
pub open spec fn box_row(inner: Seq<char>, pw: nat, tone: Tone) -> Seq<lines::SpanView> {
    seq![
        lines::sp("│"@, Tone::Accent),
        lines::sp(text::padded(inner, pw), tone),
        lines::sp("│"@, Tone::Accent),
    ]
}

/// A border of the welcome box.
pub open spec fn box_edge(left: Seq<char>, right: Seq<char>, pw: nat) -> Seq<lines::SpanView> {
    seq![lines::sp(left + chars::repeated('─', pw) + right, Tone::Accent)]
}

/// The columns inside the welcome box.
pub open spec fn inner_width(width: nat) -> nat {
    if width <= 3 {
        1
    } else {
        (width - 2) as nat
    }
}

/// Texts as lines of one style, each behind `prefix`.
pub open spec fn rows_of(parts: Seq<Seq<char>>, prefix: Seq<char>, tone: Tone) -> Seq<
    Seq<lines::SpanView>,
> {
    Seq::new(parts.len(), |i: int| seq![lines::sp(prefix + parts[i], tone)])
}

/// The texts that are not empty.
pub open spec fn inked_parts(parts: Seq<Seq<char>>) -> Seq<Seq<char>>
    decreases parts.len(),
{
    if parts.len() == 0 {
        seq![]
    } else if parts.last().len() == 0 {
        inked_parts(parts.drop_last())
    } else {
        inked_parts(parts.drop_last()).push(parts.last())
    }
}

/// The one-line hint for a tool call's input.
pub open spec fn call_hint(input: Seq<char>) -> Seq<char> {
    if chars::blank(input) {
        seq![]
    } else {
        tool_display::arg_hint(chars::trim(input), tool_display::json_fields(chars::trim(input)))
    }
}

/// A tool call, on one line.
pub open spec fn call_rows(o: transcript::OutputView) -> Seq<Seq<lines::SpanView>> {
    let hint = call_hint(o.content);
    let label = if hint.len() == 0 {
        o.tool_name
    } else {
        o.tool_name + "  "@ + hint
    };
    seq![seq![lines::sp("● "@, Tone::Ink), lines::sp(label, Tone::Muted)]]
}

/// Whether a tool result reads as a failure.
pub open spec fn is_failure(content: Seq<char>) -> bool {
    chars::begins(content, "Error:"@) || (chars::has(content, "exit code"@) && !chars::has(
        content,
        "(exit code 0)"@,
    ))
}

/// A tool result: its summary behind the name, or under it where it takes
/// several lines.
pub open spec fn result_rows(o: transcript::OutputView) -> Seq<Seq<lines::SpanView>> {
    let tone = if is_failure(o.content) {
        Tone::Red
    } else {
        Tone::Green
    };
    let dur = if o.duration.len() == 0 {
        seq![]
    } else {
        " ("@ + o.duration + ")"@
    };
    let kind = tool_display::display_kind(o.tool_name, o.content);
    let shown = tool_display::result_body(kind, o.content);
    let name = if o.tool_name == "tool"@ || o.tool_name.len() == 0 {
        kind
    } else {
        o.tool_name
    };
    let n = chars::lines(shown).len();
    let header = if n <= 1 && shown.len() > 0 {
        name + dur + "  "@ + shown
    } else {
        name + dur
    };
    let head = seq![lines::sp("● "@, tone), lines::sp(header, Tone::Muted)];
    if n > 1 {
        seq![head] + rows_of(inked_parts(chars::split_on(shown, '\n')), "  "@, Tone::Muted)
    } else {
        seq![head]
    }
}

/// A failure, its first line marked.
pub open spec fn error_rows(content: Seq<char>) -> Seq<Seq<lines::SpanView>> {
    let parts = chars::split_on(content, '\n');
    Seq::new(
        parts.len(),
        |i: int|
            seq![
                lines::sp(
                    (if i == 0 {
                        "● "@
                    } else {
                        "  "@
                    }) + parts[i],
                    Tone::Red,
                ),
            ],
    )
}

/// The lines of a transcript entry that is not an answer.
pub open spec fn entry_rows(o: transcript::OutputView) -> Seq<Seq<lines::SpanView>> {
    let parts = chars::split_on(o.content, '\n');
    if o.type_ == "user"@ {
        seq![seq![lines::sp("> "@, Tone::Accent), lines::sp(o.content, Tone::Ink)], seq![]]
    } else if o.type_ == "tool_use"@ {
        call_rows(o)
    } else if o.type_ == "tool_result"@ {
        result_rows(o)
    } else if o.type_ == "error"@ {
        error_rows(o.content)
    } else if o.type_ == "system"@ {
        rows_of(parts, ""@, Tone::Muted)
    } else if o.type_ == "thinking"@ {
        seq![seq![lines::sp("── Thinking ──"@, Tone::Faint)]] + rows_of(parts, ""@, Tone::Muted)
    } else if o.type_ == "thinking_summary"@ {
        let label = if o.content.len() == 0 {
            "Thought"@
        } else {
            o.content
        };
        seq![seq![lines::sp("✦ "@ + label, Tone::Muted)]]
    } else {
        rows_of(parts, ""@, Tone::Plain)
    }
}

/// Lines with a blank one at the end.
pub open spec fn spaced(ls: Seq<Seq<lines::SpanView>>) -> Seq<Seq<lines::SpanView>> {
    if ls.len() > 0 && text::shows_nothing(ls.last()) {
        ls
    } else {
        ls.push(seq![])
    }
}

/// The lines that rendered markdown gave for an entry.
pub open spec fn rendered(bodies: Seq<Seq<Seq<lines::SpanView>>>, i: int) -> Seq<
    Seq<lines::SpanView>,
> {
    if i < bodies.len() {
        bodies[i]
    } else {
        seq![]
    }
}

/// `ls` with the first `n` transcript entries after it. An answer gets a blank
/// line above and below.
pub open spec fn with_entries(
    ls: Seq<Seq<lines::SpanView>>,
    entries: Seq<transcript::OutputView>,
    bodies: Seq<Seq<Seq<lines::SpanView>>>,
    n: int,
) -> Seq<Seq<lines::SpanView>>
    decreases n,
{
    if n <= 0 {
        ls
    } else {
        let before = with_entries(ls, entries, bodies, n - 1);
        if entries[n - 1].type_ == "text"@ {
            spaced(spaced(before) + rendered(bodies, n - 1))
        } else {
            before + entry_rows(entries[n - 1])
        }
    }
}

impl TuiModel {
    /// The welcome box: a rounded frame as wide as the terminal.
    pub open spec fn welcome(self, width: nat) -> Seq<Seq<lines::SpanView>> {
        let pw = inner_width(width);
        seq![
            box_edge("╭"@, "╮"@, pw),
            box_row("  🪨 Cairn Code v"@ + self.version, pw, Tone::Accent),
            box_row("  open terminal coding agent  ·  /help"@, pw, Tone::Muted),
            box_edge("├"@, "┤"@, pw),
            box_row("  Model   "@ + self.account.provider + " / "@ + self.account.model, pw, Tone::Muted),
            box_row("  Path    "@ + self.work_dir, pw, Tone::Muted),
            box_edge("╰"@, "╯"@, pw),
            seq![],
        ]
    }

    /// The thinking that streams in, where it is shown.
    pub open spec fn streamed_thinking(self) -> Seq<Seq<lines::SpanView>> {
        if self.looks.show_thinking && self.chat.stream_thinking.len() > 0 {
            seq![seq![lines::sp("── Thinking ──"@, Tone::Faint)]] + rows_of(
                chars::split_on(self.chat.stream_thinking, '\n'),
                ""@,
                Tone::Muted,
            )
        } else {
            seq![]
        }
    }

    /// The spinner: a glyph, the verb of the turn, and the time it takes.
    pub open spec fn spinner(self) -> Seq<lines::SpanView> {
        let glyph = tui::SPINNER_CHARS@[(self.chat.spinner_idx % 10) as int]@;
        let verb = tui::SPINNER_VERBS@[(self.chat.spinner_verb_idx % 43) as int]@;
        let head = seq![
            lines::sp(glyph, Tone::Accent),
            lines::sp(" "@ + verb + "…"@, Tone::Muted),
        ];
        match self.chat.running_started {
            Some(t) => head.push(
                lines::sp(
                    " "@ + text::elapsed_compact((self.since(t) / 1_000_000) as nat),
                    Tone::Faint,
                ),
            ),
            None => head,
        }
    }

    /// Whether the spinner shows: while a turn runs with nothing to show yet.
    pub open spec fn spins(self) -> bool {
        self.chat.state == State::Running && self.chat.streaming_text.len() == 0 && !(self.looks.show_thinking
            && self.chat.stream_thinking.len() > 0)
    }

    /// Everything in the transcript pane.
    pub open spec fn body(
        self,
        width: nat,
        bodies: Seq<Seq<Seq<lines::SpanView>>>,
        streaming: Seq<Seq<lines::SpanView>>,
    ) -> Seq<Seq<lines::SpanView>> {
        let told = with_entries(
            self.welcome(width),
            self.chat.output_lines,
            bodies,
            self.chat.output_lines.len() as int,
        ) + self.streamed_thinking();
        let answered = if self.chat.streaming_text.len() == 0 {
            told
        } else {
            spaced(told) + streaming
        };
        if self.spins() {
            answered.push(self.spinner())
        } else {
            answered
        }
    }
}

// ---------------------------------------------------------------------------
// Building it
// ---------------------------------------------------------------------------

/// An empty line.
pub fn blank_line() -> (r: Line)
    ensures
        r@ == Seq::<lines::SpanView>::empty(),
{
    let r = Line { spans: Vec::new() };
    assert(r@ =~= Seq::<lines::SpanView>::empty());
    r
}

fn framed(inner: &str, pw: usize, tone: Tone) -> (r: Line)
    ensures
        r@ == box_row(inner@, pw as nat, tone),
{
    let padded = text::pad_to_display_width(inner, pw);
    lines::line3(
        lines::span("│", Tone::Accent),
        lines::span(padded.as_str(), tone),
        lines::span("│", Tone::Accent),
    )
}

fn edge(left: &str, right: &str, pw: usize) -> (r: Line)
    ensures
        r@ == box_edge(left@, right@, pw as nat),
{
    let dashes = chars::repeat_char('─', pw);
    let content = chars::cat3(left, dashes.as_str(), right);
    lines::line1(content.as_str(), Tone::Accent)
}

/// Appends texts as lines of one style, each behind `prefix`.
pub fn push_rows(out: &mut Vec<Line>, parts: &Vec<String>, prefix: &str, tone: Tone)
    ensures
        lines::lines(final(out)@) == lines::lines(old(out)@) + rows_of(
            chars::strs(parts@),
            prefix@,
            tone,
        ),
{
    let ghost before = lines::lines(out@);
    let ghost all = rows_of(chars::strs(parts@), prefix@, tone);
    let mut i: usize = 0;
    assert(before + all.take(0) =~= before);
    while i < parts.len()
        invariant
            0 <= i <= parts@.len(),
            all == rows_of(chars::strs(parts@), prefix@, tone),
            lines::lines(out@) == before + all.take(i as int),
        decreases parts@.len() - i,
    {
        let content = chars::cat2(prefix, parts[i].as_str());
        let l = lines::line1(content.as_str(), tone);
        proof {
            assert(before + all.take(i + 1) =~= (before + all.take(i as int)).push(l@));
        }
        lines::push_line(out, l);
        i = i + 1;
    }
    assert(all.take(i as int) =~= all);
}

fn drop_empty(parts: &Vec<String>) -> (r: Vec<String>)
    ensures
        chars::strs(r@) == inked_parts(chars::strs(parts@)),
{
    let ghost all = chars::strs(parts@);
    let mut out: Vec<String> = Vec::new();
    let mut i: usize = 0;
    assert(chars::strs(out@) =~= inked_parts(all.take(0)));
    while i < parts.len()
        invariant
            all == chars::strs(parts@),
            0 <= i <= parts@.len(),
            chars::strs(out@) == inked_parts(all.take(i as int)),
        decreases parts@.len() - i,
    {
        proof {
            assert(all.take(i + 1).drop_last() =~= all.take(i as int));
            assert(all.take(i + 1).last() == parts@[i as int]@);
        }
        if !parts[i].as_str().is_empty() {
            let p = parts[i].clone();
            proof {
                chars::lemma_strs_push(out@, p);
            }
            out.push(p);
        }
        i = i + 1;
    }
    assert(all.take(i as int) =~= all);
    out
}

fn push_call(out: &mut Vec<Line>, o: &OutputLine)
    ensures
        lines::lines(final(out)@) == lines::lines(old(out)@) + call_rows(o@),
{
    // One line: name + short arg hint (no multi-line JSON dump).
    let hint = tool_display::compact_tool_arg_hint(o.content.as_str());
    let label = if hint.as_str().is_empty() {
        o.tool_name.clone()
    } else {
        chars::cat3(o.tool_name.as_str(), "  ", hint.as_str())
    };
    let l = lines::line2(
        lines::span("● ", Tone::Ink),
        lines::span(label.as_str(), Tone::Muted),
    );
    let ghost before = lines::lines(out@);
    lines::push_line(out, l);
    assert(lines::lines(out@) =~= before + call_rows(o@));
}

fn reads_as_failure(content: &str) -> (r: bool)
    ensures
        r == is_failure(content@),
{
    chars::starts_with(content, "Error:") || (chars::contains(content, "exit code")
        && !chars::contains(content, "(exit code 0)"))
}

fn push_result(out: &mut Vec<Line>, o: &OutputLine)
    ensures
        lines::lines(final(out)@) == lines::lines(old(out)@) + result_rows(o@),
{
    let content = o.content.as_str();
    let tone = if reads_as_failure(content) {
        Tone::Red
    } else {
        Tone::Green
    };
    let dur = if o.duration.as_str().is_empty() {
        String::new()
    } else {
        chars::cat3(" (", o.duration.as_str(), ")")
    };
    assert(o.duration@.len() == 0 ==> dur@ =~= seq![]);
    // Summary-first body. Agent still has the full tool payload.
    let kind = tool_display::infer_tool_display_kind(o.tool_name.as_str(), content);
    let shown = tool_display::compact_tool_result_display(kind, content);
    let name = if chars::str_eq(o.tool_name.as_str(), "tool") || o.tool_name.as_str().is_empty() {
        kind
    } else {
        o.tool_name.as_str()
    };
    let n = chars::split_lines(shown.as_str()).len();
    let header = if n <= 1 && !shown.as_str().is_empty() {
        // Fold single-line summaries onto the status row.
        chars::cat4(name, dur.as_str(), "  ", shown.as_str())
    } else {
        chars::cat2(name, dur.as_str())
    };
    let head = lines::line2(lines::span("● ", tone), lines::span(header.as_str(), Tone::Muted));
    let ghost before = lines::lines(out@);
    let ghost first = head@;
    lines::push_line(out, head);
    assert(lines::lines(out@) =~= before + seq![first]);
    if n > 1 {
        let parts = drop_empty(&chars::split_char(shown.as_str(), '\n'));
        push_rows(out, &parts, "  ", Tone::Muted);
        assert(lines::lines(out@) =~= before + result_rows(o@));
    }
}

fn push_error(out: &mut Vec<Line>, content: &str)
    ensures
        lines::lines(final(out)@) == lines::lines(old(out)@) + error_rows(content@),
{
    let parts = chars::split_char(content, '\n');
    let ghost before = lines::lines(out@);
    let ghost all = error_rows(content@);
    let mut i: usize = 0;
    assert(before + all.take(0) =~= before);
    while i < parts.len()
        invariant
            0 <= i <= parts@.len(),
            chars::strs(parts@) == chars::split_on(content@, '\n'),
            all == error_rows(content@),
            lines::lines(out@) == before + all.take(i as int),
        decreases parts@.len() - i,
    {
        let mark = if i == 0 {
            "● "
        } else {
            "  "
        };
        let shown = chars::cat2(mark, parts[i].as_str());
        let l = lines::line1(shown.as_str(), Tone::Red);
        proof {
            assert(chars::strs(parts@)[i as int] == parts@[i as int]@);
            assert(before + all.take(i + 1) =~= (before + all.take(i as int)).push(l@));
        }
        lines::push_line(out, l);
        i = i + 1;
    }
    assert(all.take(i as int) =~= all);
}

fn push_thinking(out: &mut Vec<Line>, content: &str)
    ensures
        lines::lines(final(out)@) == lines::lines(old(out)@) + (seq![
            seq![lines::sp("── Thinking ──"@, Tone::Faint)],
        ] + rows_of(chars::split_on(content@, '\n'), ""@, Tone::Muted)),
{
    let ghost before = lines::lines(out@);
    let parts = chars::split_char(content, '\n');
    lines::push_line(out, lines::line1("── Thinking ──", Tone::Faint));
    push_rows(out, &parts, "", Tone::Muted);
    assert(lines::lines(out@) =~= before + (seq![
        seq![lines::sp("── Thinking ──"@, Tone::Faint)],
    ] + rows_of(chars::split_on(content@, '\n'), ""@, Tone::Muted)));
}

fn push_entry(out: &mut Vec<Line>, o: &OutputLine)
    ensures
        lines::lines(final(out)@) == lines::lines(old(out)@) + entry_rows(o@),
{
    let t = o.type_.as_str();
    let content = o.content.as_str();
    let ghost before = lines::lines(out@);
    if chars::str_eq(t, "user") {
        // Past user turns use a quieter marker than the live prompt.
        lines::push_line(
            out,
            lines::line2(lines::span("> ", Tone::Accent), lines::span(content, Tone::Ink)),
        );
        lines::push_line(out, blank_line());
        assert(lines::lines(out@) =~= before + entry_rows(o@));
    } else if chars::str_eq(t, "tool_use") {
        push_call(out, o);
    } else if chars::str_eq(t, "tool_result") {
        push_result(out, o);
    } else if chars::str_eq(t, "error") {
        push_error(out, content);
    } else if chars::str_eq(t, "system") {
        push_rows(out, &chars::split_char(content, '\n'), "", Tone::Muted);
    } else if chars::str_eq(t, "thinking") {
        // Full preserved thinking (only written when show_thinking is on).
        push_thinking(out, content);
    } else if chars::str_eq(t, "thinking_summary") {
        // Short marker, no body.
        let label = if content.is_empty() {
            "Thought"
        } else {
            content
        };
        let shown = chars::cat2("✦ ", label);
        lines::push_line(out, lines::line1(shown.as_str(), Tone::Muted));
        assert(lines::lines(out@) =~= before + entry_rows(o@));
    } else {
        push_rows(out, &chars::split_char(content, '\n'), "", Tone::Plain);
    }
}

fn add_space(out: &mut Vec<Line>)
    ensures
        lines::lines(final(out)@) == spaced(lines::lines(old(out)@)),
{
    let n = out.len();
    assert(lines::lines(out@).len() == n);
    if n == 0 || !text::line_is_blank(&out[n - 1]) {
        lines::push_line(out, blank_line());
    }
}

fn push_entries(out: &mut Vec<Line>, entries: &Vec<OutputLine>, bodies: &Vec<Vec<Line>>)
    ensures
        lines::lines(final(out)@) == with_entries(
            lines::lines(old(out)@),
            transcript::outputs(entries@),
            line_blocks(bodies@),
            entries@.len() as int,
        ),
{
    let ghost before = lines::lines(out@);
    let mut i: usize = 0;
    while i < entries.len()
        invariant
            0 <= i <= entries@.len(),
            lines::lines(out@) == with_entries(
                before,
                transcript::outputs(entries@),
                line_blocks(bodies@),
                i as int,
            ),
        decreases entries@.len() - i,
    {
        if chars::str_eq(entries[i].type_.as_str(), "text") {
            // Interim assistant narration (plans / status between tools):
            // blank line above and below so it separates from dense tool
            // chrome without looking like user prompts.
            add_space(out);
            if i < bodies.len() {
                lines::extend_lines(out, &bodies[i]);
            } else {
                assert(lines::lines(out@) + Seq::<Seq<lines::SpanView>>::empty() =~= lines::lines(
                    out@,
                ));
            }
            add_space(out);
        } else {
            push_entry(out, &entries[i]);
        }
        i = i + 1;
    }
}

/// The values of several blocks of lines.
pub open spec fn line_blocks(v: Seq<Vec<Line>>) -> Seq<Seq<Seq<lines::SpanView>>> {
    Seq::new(v.len(), |i: int| lines::lines(v[i]@))
}

impl Tui {
    fn welcome_lines(&self, width: usize) -> (r: Vec<Line>)
        ensures
            lines::lines(r@) == self@.welcome(width as nat),
    {
        // Inner content width is terminal cols minus the two border glyphs.
        // Emoji (e.g. 🪨) must count as 2 columns or the right border drops off.
        let pw: usize = if width <= 3 {
            1
        } else {
            width - 2
        };
        let title = chars::cat2("  🪨 Cairn Code v", self.version.as_str());
        let model = chars::cat4(
            "  Model   ",
            self.account.provider.as_str(),
            " / ",
            self.account.model.as_str(),
        );
        let path = chars::cat2("  Path    ", self.work_dir.as_str());
        let mut out: Vec<Line> = Vec::new();
        lines::push_line(&mut out, edge("╭", "╮", pw));
        lines::push_line(&mut out, framed(title.as_str(), pw, Tone::Accent));
        lines::push_line(
            &mut out,
            framed("  open terminal coding agent  ·  /help", pw, Tone::Muted),
        );
        lines::push_line(&mut out, edge("├", "┤", pw));
        lines::push_line(&mut out, framed(model.as_str(), pw, Tone::Muted));
        lines::push_line(&mut out, framed(path.as_str(), pw, Tone::Muted));
        lines::push_line(&mut out, edge("╰", "╯", pw));
        lines::push_line(&mut out, blank_line());
        assert(lines::lines(out@) =~= self@.welcome(width as nat));
        out
    }

    fn spinner_line(&self) -> (r: Line)
        ensures
            r@ == self@.spinner(),
    {
        let glyph = tui::SPINNER_CHARS[self.chat.spinner_idx % 10];
        let verb = tui::SPINNER_VERBS[self.chat.spinner_verb_idx % 43];
        let label = chars::cat3(" ", verb, "…");
        let mut spans: Vec<Span> = Vec::new();
        lines::push_span(&mut spans, lines::span(glyph, Tone::Accent));
        lines::push_span(&mut spans, lines::span(label.as_str(), Tone::Muted));
        match self.chat.running_started {
            Some(t) => {
                let elapsed = text::format_elapsed_compact(self.since(t) / 1_000_000);
                let shown = chars::cat2(" ", elapsed.as_str());
                lines::push_span(&mut spans, lines::span(shown.as_str(), Tone::Faint));
            },
            None => {},
        }
        let r = Line { spans };
        assert(r@ =~= self@.spinner());
        r
    }

    /// Everything in the transcript pane. `bodies` holds the rendered markdown
    /// of each answer, at the place of its transcript line; `streaming` that
    /// of the answer that streams in.
    pub fn body_lines(&self, width: usize, bodies: &Vec<Vec<Line>>, streaming: &Vec<Line>) -> (r: Vec<
        Line,
    >)
        ensures
            lines::lines(r@) == self@.body(
                width as nat,
                line_blocks(bodies@),
                lines::lines(streaming@),
            ),
    {
        let mut out = self.welcome_lines(width);
        push_entries(&mut out, &self.chat.output_lines, bodies);
        // Streaming thinking: full body only when toggled on; off-mode uses spinner only.
        let thinking = self.looks.show_thinking
            && !self.chat.stream_thinking.as_str().is_empty();
        let ghost told = lines::lines(out@);
        if thinking {
            push_thinking(&mut out, self.chat.stream_thinking.as_str());
        } else {
            assert(told + self@.streamed_thinking() =~= told);
        }
        let streams = !self.chat.streaming_text.as_str().is_empty();
        if streams {
            // Match finished assistant text: breathing room.
            add_space(&mut out);
            lines::extend_lines(&mut out, streaming);
        }
        // Spinner while waiting / thinking without answer text. Skip when full
        // thinking body is already on screen.
        if self.chat.state == State::Running && !streams && !thinking {
            lines::push_line(&mut out, self.spinner_line());
        }
        out
    }
}

} // verus!
