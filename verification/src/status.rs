//! What stands under the composer: the command list and the status line.

use crate::chars;
use crate::chrome;
use crate::completion;
use crate::lines;
use crate::lines::{Line, Span, Tone};
use crate::panels;
use crate::state::{State, Tui, TuiModel};
use crate::text;
use vstd::prelude::*;

verus! {

// ---------------------------------------------------------------------------
// The command list
// ---------------------------------------------------------------------------

/// The columns of the widest text.
pub open spec fn widest(list: Seq<Seq<char>>) -> nat
    decreases list.len(),
{
    if list.len() == 0 {
        0
    } else {
        let rest = widest(list.drop_last());
        if text::width(list.last()) > rest {
            text::width(list.last())
        } else {
            rest
        }
    }
}

/// A row of the command list: the command, and its help in a column of its own.
pub open spec fn command_row(cmd: Seq<char>, name_w: nat, selected: bool) -> Seq<lines::SpanView> {
    let gap = if text::width(cmd) <= name_w {
        name_w - text::width(cmd)
    } else {
        0
    };
    let first = lines::sp(
        chrome::row_mark(selected) + cmd + chars::repeated(' ', gap as nat),
        chrome::row_tone(selected),
    );
    match completion::completion_help(cmd) {
        Some(help) => seq![first, lines::sp("  "@ + help, Tone::Faint)],
        None => seq![first],
    }
}

impl TuiModel {
    /// The command that is selected, within the list.
    pub open spec fn command_sel(self) -> int {
        if self.composer.cmd_picker_sel < self.composer.cmd_picker_filtered.len() {
            self.composer.cmd_picker_sel as int
        } else {
            self.composer.cmd_picker_filtered.len() - 1
        }
    }

    /// The first command that shows: the list scrolls only once the selection
    /// walks past the window.
    pub open spec fn command_start(self) -> int {
        if self.command_sel() < panels::VISIBLE_COMMANDS {
            0
        } else {
            self.command_sel() - (panels::VISIBLE_COMMANDS - 1)
        }
    }

    /// The commands that show.
    pub open spec fn shown_commands(self) -> Seq<Seq<char>> {
        let total = self.composer.cmd_picker_filtered.len();
        let end = if self.command_start() + panels::VISIBLE_COMMANDS <= total {
            self.command_start() + panels::VISIBLE_COMMANDS
        } else {
            total as int
        };
        self.composer.cmd_picker_filtered.subrange(self.command_start(), end)
    }

    /// The command list, while a command is typed.
    pub open spec fn command_panel(self) -> Seq<Seq<lines::SpanView>> {
        let total = self.composer.cmd_picker_filtered.len();
        let rows = self.shown_commands();
        if total == 0 {
            seq![]
        } else {
            seq![
                chrome::heading(
                    "── Commands "@,
                    "(↑↓ select  Tab complete  Esc dismiss) ──"@,
                ),
            ] + (if total > panels::VISIBLE_COMMANDS {
                seq![chrome::position_line((self.command_sel() + 1) as nat, total)]
            } else {
                seq![]
            }) + Seq::new(
                rows.len(),
                |k: int|
                    command_row(
                        rows[k],
                        widest(rows),
                        self.command_start() + k == self.command_sel(),
                    ),
            )
        }
    }
}

fn widest_of(list: &Vec<String>) -> (r: usize)
    ensures
        r == widest(chars::strs(list@)),
{
    let ghost all = chars::strs(list@);
    let mut w: usize = 0;
    let mut i: usize = 0;
    assert(all.take(0) =~= Seq::<Seq<char>>::empty());
    while i < list.len()
        invariant
            all == chars::strs(list@),
            0 <= i <= list@.len(),
            w == widest(all.take(i as int)),
        decreases list@.len() - i,
    {
        proof {
            assert(all.take(i + 1).drop_last() =~= all.take(i as int));
            assert(all.take(i + 1).last() == list@[i as int]@);
        }
        let n = text::display_width(list[i].as_str());
        if n > w {
            w = n;
        }
        i = i + 1;
    }
    assert(all.take(i as int) =~= all);
    w
}

fn command_line(cmd: &str, name_w: usize, selected: bool) -> (r: Line)
    ensures
        r@ == command_row(cmd@, name_w as nat, selected),
{
    let w = text::display_width(cmd);
    let gap = chars::repeat_char(
        ' ',
        if w <= name_w {
            name_w - w
        } else {
            0
        },
    );
    let content = chars::cat3(chrome::mark_of_row(selected), cmd, gap.as_str());
    let tone = chrome::tone_of_row(selected);
    match completion::slash_completion_help(cmd) {
        Some(help) => {
            let shown = chars::cat2("  ", help);
            lines::line2(
                lines::span(content.as_str(), tone),
                lines::span(shown.as_str(), Tone::Faint),
            )
        },
        None => lines::line1(content.as_str(), tone),
    }
}

fn string_range(v: &Vec<String>, lo: usize, hi: usize) -> (r: Vec<String>)
    requires
        lo <= hi <= v@.len(),
    ensures
        chars::strs(r@) == chars::strs(v@).subrange(lo as int, hi as int),
{
    let ghost all = chars::strs(v@);
    let mut out: Vec<String> = Vec::new();
    let mut i: usize = lo;
    assert(chars::strs(out@) =~= all.subrange(lo as int, lo as int));
    while i < hi
        invariant
            all == chars::strs(v@),
            lo <= i <= hi <= v@.len(),
            chars::strs(out@) == all.subrange(lo as int, i as int),
        decreases hi - i,
    {
        let s = v[i].clone();
        proof {
            chars::lemma_strs_push(out@, s);
            assert(all.subrange(lo as int, i + 1) =~= all.subrange(lo as int, i as int).push(s@));
        }
        out.push(s);
        i = i + 1;
    }
    out
}

impl Tui {
    fn command_lines(&self) -> (r: Vec<Line>)
        ensures
            lines::lines(r@) == self@.command_panel(),
    {
        let mut out: Vec<Line> = Vec::new();
        let total = self.composer.cmd_picker_filtered.len();
        assert(self@.composer.cmd_picker_filtered.len() == total);
        if total == 0 {
            assert(lines::lines(out@) =~= self@.command_panel());
            return out;
        }
        let sel: usize = if self.composer.cmd_picker_sel < total {
            self.composer.cmd_picker_sel
        } else {
            total - 1
        };
        let start: usize = if sel < panels::VISIBLE_COMMANDS {
            0
        } else {
            sel - (panels::VISIBLE_COMMANDS - 1)
        };
        let end: usize = if panels::VISIBLE_COMMANDS <= total - start {
            start + panels::VISIBLE_COMMANDS
        } else {
            total
        };
        let rows = string_range(&self.composer.cmd_picker_filtered, start, end);
        assert(chars::strs(rows@) == self@.shown_commands());
        lines::push_line(
            &mut out,
            chrome::heading_line("── Commands ", "(↑↓ select  Tab complete  Esc dismiss) ──"),
        );
        if total > panels::VISIBLE_COMMANDS {
            lines::push_line(&mut out, chrome::show_position(sel + 1, total));
        }
        let name_w = widest_of(&rows);
        let ghost head = lines::lines(out@);
        let ghost shown = Seq::new(
            rows@.len(),
            |k: int| command_row(rows@[k]@, name_w as nat, start + k == sel),
        );
        let mut i: usize = 0;
        assert(head + shown.take(0) =~= head);
        while i < rows.len()
            invariant
                0 <= i <= rows@.len(),
                start + rows@.len() <= usize::MAX,
                shown == Seq::new(
                    rows@.len(),
                    |k: int| command_row(rows@[k]@, name_w as nat, start + k == sel),
                ),
                lines::lines(out@) == head + shown.take(i as int),
            decreases rows@.len() - i,
        {
            let l = command_line(rows[i].as_str(), name_w, start + i == sel);
            assert(head + shown.take(i + 1) =~= (head + shown.take(i as int)).push(l@));
            lines::push_line(&mut out, l);
            i = i + 1;
        }
        proof {
            assert(shown.take(i as int) =~= shown);
            assert(head + shown =~= self@.command_panel());
        }
        out
    }
}

// ---------------------------------------------------------------------------
// The status line
// ---------------------------------------------------------------------------

/// What follows the last separator of a path.
pub open spec fn trailing_name(path: Seq<char>) -> Seq<char>
    decreases path.len(),
{
    if path.len() == 0 || path.last() == '/' || path.last() == '\\' {
        seq![]
    } else {
        trailing_name(path.drop_last()).push(path.last())
    }
}

/// A path by its last part, or all of it where it ends in a separator.
pub open spec fn short_path(path: Seq<char>) -> Seq<char> {
    if trailing_name(path).len() == 0 {
        path
    } else {
        trailing_name(path)
    }
}

/// The dot between two parts of the status line.
pub open spec fn dot() -> lines::SpanView {
    lines::sp(" · "@, Tone::Faint)
}

impl TuiModel {
    /// The provider and the model in use.
    pub open spec fn in_use(self) -> lines::SpanView {
        lines::sp(self.account.provider + "/"@ + self.account.model, Tone::Muted)
    }

    /// The status line while a turn runs.
    pub open spec fn running_status(self) -> Seq<lines::SpanView> {
        seq![lines::sp("esc to interrupt"@, Tone::Faint)] + (match self.chat.running_started {
            Some(t) => seq![
                dot(),
                lines::sp(
                    text::elapsed_compact((self.since(t) / 1_000_000) as nat),
                    Tone::Muted,
                ),
            ],
            None => seq![],
        }) + seq![dot(), self.in_use()]
    }

    /// The images that are attached, for the status line.
    pub open spec fn image_status(self) -> Seq<lines::SpanView> {
        let n = self.composer.pending_images.len();
        if n == 0 {
            seq![]
        } else {
            seq![
                lines::sp(
                    if n == 1 {
                        "1 image attached"@
                    } else {
                        chars::decimal(n) + " images attached"@
                    },
                    Tone::AccentBold,
                ),
                dot(),
            ]
        }
    }

    /// The tokens that were spent and what they cost, for the status line.
    pub open spec fn usage_status(self) -> Seq<lines::SpanView> {
        let u = self.chat.total_usage;
        if u.input_tokens == 0 && u.output_tokens == 0 {
            seq![]
        } else {
            let counts = seq![
                dot(),
                lines::sp(
                    chars::decimal(u.input_tokens as nat) + "↓ "@ + chars::decimal(
                        u.output_tokens as nat,
                    ) + "↑"@,
                    Tone::Muted,
                ),
            ];
            if self.host.cost_positive {
                counts + seq![dot(), lines::sp(self.host.cost_text, Tone::Muted)]
            } else {
                counts
            }
        }
    }

    /// The status line of an idle UI.
    pub open spec fn idle_status(self) -> Seq<lines::SpanView> {
        self.image_status() + seq![
            self.in_use(),
            dot(),
            lines::sp(short_path(self.work_dir), Tone::Muted),
        ] + self.usage_status() + (if self.composer.input_buf.len() == 0 {
            seq![dot(), lines::sp("? for shortcuts"@, Tone::Faint)]
        } else {
            seq![]
        })
    }

    /// The status line.
    pub open spec fn status(self) -> Seq<lines::SpanView> {
        if self.ctrl_c_exit_armed {
            seq![lines::sp("Press Ctrl+C again to exit"@, Tone::AccentBold)]
        } else if self.chat.state == State::Running {
            self.running_status()
        } else {
            self.idle_status()
        }
    }

    /// The command list and the status line.
    pub open spec fn status_panel(self) -> Seq<Seq<lines::SpanView>> {
        self.command_panel().push(self.status())
    }
}

fn shorten_path(path: &str) -> (r: String)
    ensures
        r@ == short_path(path@),
{
    let v = chars::to_chars(path);
    let mut k: usize = v.len();
    let ghost n = v@.len() as int;
    assert(trailing_name(v@.take(n)) + v@.subrange(n, n) =~= trailing_name(v@.take(n)));
    assert(v@.take(n) =~= v@);
    while k > 0 && v[k - 1] != '/' && v[k - 1] != '\\'
        invariant
            v@ == path@,
            n == v@.len(),
            0 <= k <= n,
            trailing_name(v@) == trailing_name(v@.take(k as int)) + v@.subrange(k as int, n),
        decreases k,
    {
        proof {
            let t = v@.take(k as int);
            assert(t.drop_last() =~= v@.take(k - 1));
            assert(trailing_name(t) == trailing_name(v@.take(k - 1)).push(v@[k - 1]));
            assert(trailing_name(v@.take(k - 1)).push(v@[k - 1]) + v@.subrange(k as int, n)
                =~= trailing_name(v@.take(k - 1)) + v@.subrange(k - 1, n));
        }
        k = k - 1;
    }
    proof {
        assert(trailing_name(v@.take(k as int)) =~= seq![]);
        assert(trailing_name(v@) =~= v@.subrange(k as int, n));
    }
    if k == v.len() {
        String::from_str(path)
    } else {
        chars::range_string(&v, k, v.len())
    }
}

fn push_dot(spans: &mut Vec<Span>)
    ensures
        lines::spans(final(spans)@) == lines::spans(old(spans)@).push(dot()),
{
    lines::push_span(spans, lines::span(" · ", Tone::Faint));
}

impl Tui {
    fn in_use_span(&self) -> (r: Span)
        ensures
            r@ == self@.in_use(),
    {
        let content = chars::cat3(
            self.account.provider.as_str(),
            "/",
            self.account.model.as_str(),
        );
        lines::span(content.as_str(), Tone::Muted)
    }

    fn running_line(&self) -> (r: Line)
        ensures
            r@ == self@.running_status(),
    {
        let mut spans: Vec<Span> = Vec::new();
        lines::push_span(&mut spans, lines::span("esc to interrupt", Tone::Faint));
        match self.chat.running_started {
            Some(t) => {
                let elapsed = text::format_elapsed_compact(self.since(t) / 1_000_000);
                push_dot(&mut spans);
                lines::push_span(&mut spans, lines::span(elapsed.as_str(), Tone::Muted));
            },
            None => {},
        }
        push_dot(&mut spans);
        lines::push_span(&mut spans, self.in_use_span());
        let r = Line { spans };
        assert(r@ =~= self@.running_status());
        r
    }

    fn push_images(&self, spans: &mut Vec<Span>)
        ensures
            lines::spans(final(spans)@) == lines::spans(old(spans)@) + self@.image_status(),
    {
        let n = self.composer.pending_images.len();
        assert(self@.composer.pending_images.len() == n);
        let ghost before = lines::spans(spans@);
        if n > 0 {
            let label = if n == 1 {
                String::from_str("1 image attached")
            } else {
                let count = chars::count_string(n);
                chars::cat2(count.as_str(), " images attached")
            };
            lines::push_span(spans, lines::span(label.as_str(), Tone::AccentBold));
            push_dot(spans);
        }
        assert(lines::spans(spans@) =~= before + self@.image_status());
    }

    fn push_usage(&self, spans: &mut Vec<Span>)
        ensures
            lines::spans(final(spans)@) == lines::spans(old(spans)@) + self@.usage_status(),
    {
        let u = self.chat.total_usage;
        let ghost before = lines::spans(spans@);
        if u.input_tokens > 0 || u.output_tokens > 0 {
            let input = chars::decimal_string(u.input_tokens);
            let output = chars::decimal_string(u.output_tokens);
            let counts = chars::cat4(input.as_str(), "↓ ", output.as_str(), "↑");
            push_dot(spans);
            lines::push_span(spans, lines::span(counts.as_str(), Tone::Muted));
            if self.host.cost_positive {
                push_dot(spans);
                lines::push_span(spans, lines::span(self.host.cost_text.as_str(), Tone::Muted));
            }
        }
        assert(lines::spans(spans@) =~= before + self@.usage_status());
    }

    fn idle_line(&self) -> (r: Line)
        ensures
            r@ == self@.idle_status(),
    {
        let mut spans: Vec<Span> = Vec::new();
        assert(lines::spans(spans@) =~= Seq::<lines::SpanView>::empty());
        self.push_images(&mut spans);
        lines::push_span(&mut spans, self.in_use_span());
        push_dot(&mut spans);
        let path = shorten_path(self.work_dir.as_str());
        lines::push_span(&mut spans, lines::span(path.as_str(), Tone::Muted));
        self.push_usage(&mut spans);
        if self.composer.input_buf.as_str().is_empty() {
            push_dot(&mut spans);
            lines::push_span(&mut spans, lines::span("? for shortcuts", Tone::Faint));
        }
        let r = Line { spans };
        assert(r@ =~= self@.idle_status());
        r
    }

    pub(crate) fn status_lines(&self) -> (r: Vec<Line>)
        ensures
            lines::lines(r@) == self@.status_panel(),
    {
        let mut out = self.command_lines();
        let l = if self.ctrl_c_exit_armed {
            lines::line1("Press Ctrl+C again to exit", Tone::AccentBold)
        } else if self.chat.state == State::Running {
            self.running_line()
        } else {
            self.idle_line()
        };
        lines::push_line(&mut out, l);
        out
    }
}

} // verus!
