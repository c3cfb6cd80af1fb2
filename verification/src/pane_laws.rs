//! What the transcript pane and the frame show.

use crate::body;
use crate::chars;
use crate::edit;
use crate::layout::Area;
use crate::lines;
use crate::lines::Tone;
use crate::state::{ChatView, State, TuiModel};
use crate::text;
use crate::tool_display;
use crate::transcript;
use crate::tui;
use crate::wire;
use vstd::prelude::*;

verus! {

/// Whether `block` stands in `ls` from `at` on.
pub open spec fn block_at(
    ls: Seq<Seq<lines::SpanView>>,
    at: int,
    block: Seq<Seq<lines::SpanView>>,
) -> bool {
    0 <= at && at + block.len() <= ls.len() && ls.subrange(at, at + block.len()) == block
}

/// The lines of a transcript entry: those that were rendered for an answer,
/// else those of its kind.
pub open spec fn entry_block(
    entries: Seq<transcript::OutputView>,
    bodies: Seq<Seq<Seq<lines::SpanView>>>,
    i: int,
) -> Seq<Seq<lines::SpanView>> {
    if entries[i].type_ != "text"@ {
        body::entry_rows(entries[i])
    } else if i < bodies.len() {
        bodies[i]
    } else {
        seq![]
    }
}

/// Whether the first `n` entries stand in `ls` at the places `at`, in order and
/// apart, from line `from` on.
pub open spec fn in_order(
    at: Seq<int>,
    ls: Seq<Seq<lines::SpanView>>,
    entries: Seq<transcript::OutputView>,
    bodies: Seq<Seq<Seq<lines::SpanView>>>,
    n: int,
    from: int,
) -> bool {
    &&& at.len() == n
    &&& forall|i: int|
        0 <= i < n ==> from <= #[trigger] at[i] && block_at(
            ls,
            at[i],
            entry_block(entries, bodies, i),
        )
    &&& forall|i: int, j: int|
        0 <= i < j < n ==> #[trigger] at[i] + entry_block(entries, bodies, i).len()
            <= #[trigger] at[j]
}

proof fn lemma_block_kept(
    a: Seq<Seq<lines::SpanView>>,
    b: Seq<Seq<lines::SpanView>>,
    at: int,
    block: Seq<Seq<lines::SpanView>>,
)
    requires
        block_at(a, at, block),
        a.len() <= b.len(),
        b.take(a.len() as int) == a,
    ensures
        block_at(b, at, block),
{
    assert(b.subrange(at, at + block.len()) =~= b.take(a.len() as int).subrange(
        at,
        at + block.len(),
    ));
}

proof fn lemma_order_kept(
    at: Seq<int>,
    a: Seq<Seq<lines::SpanView>>,
    b: Seq<Seq<lines::SpanView>>,
    entries: Seq<transcript::OutputView>,
    bodies: Seq<Seq<Seq<lines::SpanView>>>,
    n: int,
    from: int,
)
    requires
        in_order(at, a, entries, bodies, n, from),
        a.len() <= b.len(),
        b.take(a.len() as int) == a,
    ensures
        in_order(at, b, entries, bodies, n, from),
{
    assert forall|i: int| 0 <= i < n implies from <= #[trigger] at[i] && block_at(
        b,
        at[i],
        entry_block(entries, bodies, i),
    ) by {
        lemma_block_kept(a, b, at[i], entry_block(entries, bodies, i));
    }
}

proof fn lemma_entries_placed(
    ls: Seq<Seq<lines::SpanView>>,
    entries: Seq<transcript::OutputView>,
    bodies: Seq<Seq<Seq<lines::SpanView>>>,
    n: int,
) -> (at: Seq<int>)
    requires
        0 <= n <= entries.len(),
    ensures
        in_order(
            at,
            body::with_entries(ls, entries, bodies, n),
            entries,
            bodies,
            n,
            ls.len() as int,
        ),
        body::with_entries(ls, entries, bodies, n).len() >= ls.len(),
        body::with_entries(ls, entries, bodies, n).take(ls.len() as int) == ls,
        forall|i: int|
            0 <= i < n ==> #[trigger] at[i] + entry_block(entries, bodies, i).len()
                <= body::with_entries(ls, entries, bodies, n).len(),
    decreases n,
{
    if n == 0 {
        assert(ls.take(ls.len() as int) =~= ls);
        Seq::empty()
    } else {
        let before = body::with_entries(ls, entries, bodies, n - 1);
        let after = body::with_entries(ls, entries, bodies, n);
        let block = entry_block(entries, bodies, n - 1);
        let at = lemma_entries_placed(ls, entries, bodies, n - 1);
        let here = if entries[n - 1].type_ == "text"@ {
            body::spaced(before).len() as int
        } else {
            before.len() as int
        };
        assert(after.take(before.len() as int) =~= before);
        assert(after.take(ls.len() as int) =~= before.take(ls.len() as int));
        assert(after.subrange(here, here + block.len()) =~= block);
        lemma_order_kept(at, before, after, entries, bodies, n - 1, ls.len() as int);
        let all = at.push(here);
        assert forall|i: int| 0 <= i < n implies ls.len() <= #[trigger] all[i] && block_at(
            after,
            all[i],
            entry_block(entries, bodies, i),
        ) by {
            if i < n - 1 {
                assert(all[i] == at[i]);
            }
        }
        assert forall|i: int, j: int| 0 <= i < j < n implies #[trigger] all[i] + entry_block(
            entries,
            bodies,
            i,
        ).len() <= #[trigger] all[j] by {
            assert(all[i] == at[i]);
            if j < n - 1 {
                assert(all[j] == at[j]);
            }
        }
        all
    }
}

proof fn lemma_told_is_kept(
    m: TuiModel,
    width: nat,
    bodies: Seq<Seq<Seq<lines::SpanView>>>,
    streaming: Seq<Seq<lines::SpanView>>,
)
    ensures
        ({
            let told = body::with_entries(
                m.welcome(width),
                m.chat.output_lines,
                bodies,
                m.chat.output_lines.len() as int,
            );
            let all = m.body(width, bodies, streaming);
            told.len() <= all.len() && all.take(told.len() as int) == told
        }),
{
    let told = body::with_entries(
        m.welcome(width),
        m.chat.output_lines,
        bodies,
        m.chat.output_lines.len() as int,
    );
    let all = m.body(width, bodies, streaming);
    assert(all.take(told.len() as int) =~= told);
}

/// The pane shows the welcome box and under it every entry of the transcript,
/// each in full and in order.
pub proof fn law_the_pane_shows_every_entry(
    m: TuiModel,
    width: nat,
    bodies: Seq<Seq<Seq<lines::SpanView>>>,
    streaming: Seq<Seq<lines::SpanView>>,
)
    ensures
        ({
            let all = m.body(width, bodies, streaming);
            let n = m.chat.output_lines.len() as int;
            &&& all.len() >= 8
            &&& all.take(8) == m.welcome(width)
            &&& exists|at: Seq<int>| #[trigger]
                in_order(at, all, m.chat.output_lines, bodies, n, 8)
        }),
{
    let w = m.welcome(width);
    let entries = m.chat.output_lines;
    let n = entries.len() as int;
    let told = body::with_entries(w, entries, bodies, n);
    let all = m.body(width, bodies, streaming);
    let at = lemma_entries_placed(w, entries, bodies, n);
    lemma_told_is_kept(m, width, bodies, streaming);
    lemma_order_kept(at, told, all, entries, bodies, n, 8);
    assert(all.take(8) =~= told.take(8));
}

/// The answer shows as it streams in, whatever else goes on: the pane ends with
/// its lines, under the whole transcript.
pub proof fn law_the_pane_ends_with_the_streamed_answer(
    m: TuiModel,
    width: nat,
    bodies: Seq<Seq<Seq<lines::SpanView>>>,
    streaming: Seq<Seq<lines::SpanView>>,
)
    requires
        m.chat.streaming_text.len() > 0,
    ensures
        ({
            let all = m.body(width, bodies, streaming);
            &&& all.len() > streaming.len()
            &&& all.skip(all.len() - streaming.len()) == streaming
            &&& text::shows_nothing(all[all.len() - streaming.len() - 1])
        }),
{
    let all = m.body(width, bodies, streaming);
    let told = body::with_entries(
        m.welcome(width),
        m.chat.output_lines,
        bodies,
        m.chat.output_lines.len() as int,
    ) + m.streamed_thinking();
    assert(all =~= body::spaced(told) + streaming);
    assert(all.skip(all.len() - streaming.len()) =~= streaming);
    assert(all[all.len() - streaming.len() - 1] == body::spaced(told).last());
}

/// An answer has a blank line above it and one below.
pub proof fn law_answers_stand_apart(
    ls: Seq<Seq<lines::SpanView>>,
    entries: Seq<transcript::OutputView>,
    bodies: Seq<Seq<Seq<lines::SpanView>>>,
    n: int,
)
    requires
        0 < n <= entries.len(),
        n <= bodies.len(),
        entries[n - 1].type_ == "text"@,
    ensures
        ({
            let all = body::with_entries(ls, entries, bodies, n);
            let block = bodies[n - 1];
            &&& text::shows_nothing(all.last())
            &&& exists|at: int|
                #![trigger block_at(all, at, block)]
                at > 0 && block_at(all, at, block) && text::shows_nothing(all[at - 1])
        }),
{
    let before = body::with_entries(ls, entries, bodies, n - 1);
    let above = body::spaced(before);
    let block = bodies[n - 1];
    let all = body::with_entries(ls, entries, bodies, n);
    let at = above.len() as int;
    assert(all.subrange(at, at + block.len()) =~= block);
    assert(block_at(all, at, block));
    assert(all[at - 1] == above.last());
}

/// While a turn runs with nothing to show yet, the pane is what it would be
/// without the turn, and under it the spinner: a frame of it, and the time.
pub proof fn law_the_spinner_shows_while_waiting(
    m: TuiModel,
    width: nat,
    bodies: Seq<Seq<Seq<lines::SpanView>>>,
    streaming: Seq<Seq<lines::SpanView>>,
)
    requires
        m.chat.state == State::Running,
        m.chat.streaming_text.len() == 0,
        m.chat.stream_thinking.len() == 0 || !m.looks.show_thinking,
    ensures
        ({
            let all = m.body(width, bodies, streaming);
            let idle = TuiModel { chat: ChatView { state: State::Idle, ..m.chat }, ..m };
            let row = all.last();
            &&& all.drop_last() == idle.body(width, bodies, streaming)
            &&& row[0].content == tui::SPINNER_CHARS@[(m.chat.spinner_idx % 10) as int]@
            &&& m.chat.running_started is Some ==> row.last().content == " "@
                + text::elapsed_compact(
                (m.since(m.chat.running_started->0) / 1_000_000) as nat,
            )
        }),
{
    let all = m.body(width, bodies, streaming);
    let idle = TuiModel { chat: ChatView { state: State::Idle, ..m.chat }, ..m };
    assert(m.welcome(width) == idle.welcome(width));
    assert(all.drop_last() =~= idle.body(width, bodies, streaming));
}

/// An idle pane holds still: neither the spinner's frame nor the clock shows.
pub proof fn law_an_idle_pane_holds_still(
    m: TuiModel,
    idx: usize,
    started: Option<u64>,
    width: nat,
    bodies: Seq<Seq<Seq<lines::SpanView>>>,
    streaming: Seq<Seq<lines::SpanView>>,
)
    requires
        m.chat.state == State::Idle,
    ensures
        m.body(width, bodies, streaming) == (TuiModel {
            chat: ChatView { spinner_idx: idx, running_started: started, ..m.chat },
            ..m
        }).body(width, bodies, streaming),
{
    let n = TuiModel {
        chat: ChatView { spinner_idx: idx, running_started: started, ..m.chat },
        ..m
    };
    assert(m.welcome(width) == n.welcome(width));
}

/// Thinking that is switched off never shows, whatever streams in; switched on,
/// all of it shows.
pub proof fn law_thinking_shows_only_where_wanted(
    m: TuiModel,
    thought: Seq<char>,
    width: nat,
    bodies: Seq<Seq<Seq<lines::SpanView>>>,
    streaming: Seq<Seq<lines::SpanView>>,
)
    ensures
        !m.looks.show_thinking ==> m.body(width, bodies, streaming) == (TuiModel {
            chat: ChatView { stream_thinking: thought, ..m.chat },
            ..m
        }).body(width, bodies, streaming),
        m.looks.show_thinking && m.chat.stream_thinking.len() > 0 && m.chat.streaming_text.len()
            == 0 ==> {
            let all = m.body(width, bodies, streaming);
            let rows = chars::split_on(m.chat.stream_thinking, '\n');
            &&& all.len() > rows.len()
            &&& forall|i: int|
                0 <= i < rows.len() ==> #[trigger] all[all.len() - rows.len() + i]
                    == seq![lines::sp(""@ + rows[i], Tone::Muted)]
        },
{
    let n = TuiModel { chat: ChatView { stream_thinking: thought, ..m.chat }, ..m };
    assert(m.welcome(width) == n.welcome(width));
}

proof fn lemma_split_reads_back(s: Seq<char>, c: char)
    ensures
        chars::split_on(s, c).len() > 0,
        chars::joined(chars::split_on(s, c), seq![c]) == s,
    decreases s.len(),
{
    let i = chars::first_index(s, c);
    chars::lemma_first_index_bounds(s, c);
    let all = chars::split_on(s, c);
    if i < s.len() {
        let t = s.skip(i + 1);
        let rest = chars::split_on(t, c);
        lemma_split_reads_back(t, c);
        assert(all =~= seq![s.take(i)] + rest);
        wire::lemma_joined_from_the_front(all, seq![c]);
        wire::lemma_joined_from_the_front(rest, seq![c]);
        assert(all.drop_first() =~= rest);
        assert(wire::led(rest, seq![c]) =~= seq![c] + t);
        assert(s =~= s.take(i) + (seq![c] + t));
    }
}

/// The texts of one-span lines, without their first `n` characters.
pub open spec fn row_texts(rows: Seq<Seq<lines::SpanView>>, n: int) -> Seq<Seq<char>> {
    Seq::new(rows.len(), |i: int| rows[i][0].content.skip(n))
}

/// A prompt shows as one line behind its marker; a note of the program and a
/// line of an unknown type show line by line, with nothing lost.
pub proof fn law_texts_show_in_full(o: transcript::OutputView)
    ensures
        o.type_ == "user"@ ==> body::entry_rows(o).len() == 2 && body::entry_rows(o)[0] == seq![
            lines::sp("> "@, Tone::Accent),
            lines::sp(o.content, Tone::Ink),
        ] && body::entry_rows(o)[1].len() == 0,
        o.type_ == "system"@ ==> chars::joined(row_texts(body::entry_rows(o), 0), seq!['\n'])
            == o.content,
        o.type_ == "thinking"@ ==> chars::joined(
            row_texts(body::entry_rows(o).drop_first(), 0),
            seq!['\n'],
        ) == o.content,
        o.type_ == "error"@ ==> chars::joined(row_texts(body::entry_rows(o), 2), seq!['\n'])
            == o.content,
        o.type_ == "error"@ ==> forall|i: int|
            0 <= i < body::entry_rows(o).len() ==> (#[trigger] body::entry_rows(o)[i])[0].tone
                == Tone::Red,
        o.type_ == "thinking_summary"@ ==> body::entry_rows(o) == seq![
            seq![
                lines::sp(
                    "✦ "@ + (if o.content.len() == 0 {
                        "Thought"@
                    } else {
                        o.content
                    }),
                    Tone::Muted,
                ),
            ],
        ],
{
    lemma_entry_types();
    let parts = chars::split_on(o.content, '\n');
    lemma_split_reads_back(o.content, '\n');
    reveal_strlit("");
    reveal_strlit("● ");
    reveal_strlit("  ");
    let rows = body::entry_rows(o);
    if o.type_ == "system"@ {
        assert forall|i: int| 0 <= i < parts.len() implies #[trigger] row_texts(rows, 0)[i]
            == parts[i] by {
            assert((""@ + parts[i]).skip(0) =~= parts[i]);
        }
        assert(row_texts(rows, 0) =~= parts);
    }
    if o.type_ == "thinking"@ {
        let under = rows.drop_first();
        assert forall|i: int| 0 <= i < parts.len() implies #[trigger] row_texts(under, 0)[i]
            == parts[i] by {
            assert(under[i] == rows[i + 1]);
            assert((""@ + parts[i]).skip(0) =~= parts[i]);
        }
        assert(row_texts(under, 0) =~= parts);
    }
    if o.type_ == "error"@ {
        assert forall|i: int| 0 <= i < parts.len() implies #[trigger] row_texts(rows, 2)[i]
            == parts[i] by {
            assert(("● "@ + parts[i]).skip(2) =~= parts[i]);
            assert(("  "@ + parts[i]).skip(2) =~= parts[i]);
        }
        assert(row_texts(rows, 2) =~= parts);
    }
}

proof fn lemma_entry_types()
    ensures
        "user"@.len() == 4,
        "tool_use"@.len() == 8,
        "tool_result"@.len() == 11,
        "error"@.len() == 5,
        "system"@.len() == 6,
        "thinking"@.len() == 8,
        "thinking_summary"@.len() == 16,
        "text"@.len() == 4,
        "thinking"@[1] == 'h',
        "tool_use"@[1] == 'o',
        "user"@[0] == 'u',
        "text"@[0] == 't',
{
    reveal_strlit("user");
    reveal_strlit("tool_use");
    reveal_strlit("tool_result");
    reveal_strlit("error");
    reveal_strlit("system");
    reveal_strlit("thinking");
    reveal_strlit("thinking_summary");
    reveal_strlit("text");
}

/// A tool call shows as one line that starts with the tool's name; a result as
/// one that does too, with its summary behind the name where that is one line,
/// and under it where it is more.
pub proof fn law_tools_show_by_name(o: transcript::OutputView)
    requires
        o.tool_name.len() > 0,
        o.tool_name != "tool"@,
        o.duration.len() == 0,
    ensures
        o.type_ == "tool_use"@ ==> {
            let rows = body::entry_rows(o);
            let shown = rows[0][1].content;
            &&& rows.len() == 1
            &&& rows[0].len() == 2
            &&& rows[0][0].content == "● "@
            &&& chars::begins(shown, o.tool_name)
            &&& chars::blank(o.content) ==> shown == o.tool_name
        },
        o.type_ == "tool_result"@ ==> {
            let rows = body::entry_rows(o);
            let summary = tool_display::result_body(o.tool_name, o.content);
            let n = chars::lines(summary).len();
            &&& rows.len() >= 1
            &&& rows[0].len() == 2
            &&& rows[0][0].content == "● "@
            &&& summary.len() == 0 ==> rows[0][1].content == o.tool_name && rows.len() == 1
            &&& n <= 1 && summary.len() > 0 ==> rows[0][1].content == o.tool_name + "  "@ + summary
                && rows.len() == 1
            &&& n > 1 ==> rows[0][1].content == o.tool_name && rows.drop_first()
                == body::rows_of(
                body::inked_parts(chars::split_on(summary, '\n')),
                "  "@,
                Tone::Muted,
            )
        },
{
    lemma_entry_types();
    let rows = body::entry_rows(o);
    if o.type_ == "tool_use"@ {
        let hint = body::call_hint(o.content);
        let label = o.tool_name + "  "@ + hint;
        assert(label.take(o.tool_name.len() as int) =~= o.tool_name);
        assert(o.tool_name.take(o.tool_name.len() as int) =~= o.tool_name);
    }
    if o.type_ == "tool_result"@ {
        let none = Seq::<char>::empty();
        let summary = tool_display::result_body(o.tool_name, o.content);
        assert(o.tool_name + none =~= o.tool_name);
        assert(summary.len() == 0 ==> chars::lines(summary).len() == 0);
        assert(rows.drop_first() =~= body::rows_of(
            body::inked_parts(chars::split_on(summary, '\n')),
            "  "@,
            Tone::Muted,
        ) || chars::lines(summary).len() <= 1);
    }
}

/// A result reads as failed where it starts with the word for an error or names
/// an exit code other than zero, and as done where it does neither.
pub proof fn law_failed_results_are_red(o: transcript::OutputView)
    requires
        o.type_ == "tool_result"@,
    ensures
        chars::begins(o.content, "Error:"@) ==> body::entry_rows(o)[0][0].tone == Tone::Red,
        chars::has(o.content, "exit code"@) && !chars::has(o.content, "(exit code 0)"@)
            ==> body::entry_rows(o)[0][0].tone == Tone::Red,
        !chars::begins(o.content, "Error:"@) && !chars::has(o.content, "exit code"@)
            ==> body::entry_rows(o)[0][0].tone == Tone::Green,
        !chars::begins(o.content, "Error:"@) && chars::has(o.content, "(exit code 0)"@)
            ==> body::entry_rows(o)[0][0].tone == Tone::Green,
{
    lemma_entry_types();
}

/// The welcome box tells the version, the provider and model in use, and the
/// working directory, each cut or padded to the width inside the borders.
pub proof fn law_the_welcome_box_tells_where_one_is(m: TuiModel, width: nat)
    requires
        width >= 4,
    ensures
        ({
            let w = m.welcome(width);
            let inner = (width - 2) as nat;
            &&& w.len() == 8
            &&& w[1][1].content == text::padded("  🪨 Cairn Code v"@ + m.version, inner)
            &&& w[4][1].content == text::padded(
                "  Model   "@ + m.account.provider + " / "@ + m.account.model,
                inner,
            )
            &&& w[5][1].content == text::padded("  Path    "@ + m.work_dir, inner)
            &&& w[7].len() == 0
            &&& forall|i: int|
                #![trigger w[i]]
                (i == 1 || i == 2 || i == 4 || i == 5) ==> w[i].len() == 3 && w[i][0].content
                    == "│"@ && w[i][2].content == "│"@ && text::width(w[i][1].content) == inner
        }),
{
    let inner = (width - 2) as nat;
    text::law_padded_width("  🪨 Cairn Code v"@ + m.version, inner);
    text::law_padded_width("  open terminal coding agent  ·  /help"@, inner);
    text::law_padded_width(
        "  Model   "@ + m.account.provider + " / "@ + m.account.model,
        inner,
    );
    text::law_padded_width("  Path    "@ + m.work_dir, inner);
}

/// A frame shows the pane, and under it what owns the keys: a prompt or a list
/// where one is open, else the composer.
pub proof fn law_a_frame_shows_what_is_open(
    m: TuiModel,
    area: Area,
    bodies: Seq<Seq<Seq<lines::SpanView>>>,
    streaming: Seq<Seq<lines::SpanView>>,
    masked: Seq<char>,
)
    ensures
        ({
            let shown = m.frame(area, bodies, streaming, masked).1;
            let quiet = m.prompts.confirm_remove_provider is None
                && m.prompts.confirm_history_provider is None && !m.prompts.show_help
                && !m.prompts.show_shortcuts;
            let no_list = !m.pickers.show_provider_picker && !m.pickers.show_model_picker
                && !m.looks.show_theme_picker && !m.saved.show_session_picker;
            let no_prompt = !m.permission.show_permission_prompt && !m.prompts.show_recovery_prompt
                && !m.account.awaiting_api_key;
            &&& shown.body == m.body(area.width as nat, bodies, streaming)
            &&& quiet && m.pickers.show_provider_picker ==> shown.chrome == m.provider_panel()
            &&& quiet && !m.pickers.show_provider_picker && m.pickers.show_model_picker
                ==> shown.chrome == m.model_panel()
            &&& quiet && no_list && m.permission.show_permission_prompt ==> shown.chrome
                == m.permission_panel()
            &&& quiet && !m.pickers.show_provider_picker && !m.pickers.show_model_picker
                && !m.looks.show_theme_picker && m.saved.show_session_picker ==> shown.chrome
                == m.session_panel()
            &&& quiet && !m.pickers.show_provider_picker && !m.pickers.show_model_picker
                && m.looks.show_theme_picker ==> shown.chrome == m.theme_panel()
            &&& quiet && no_list && no_prompt ==> shown.composer is Some && shown.chrome
                == m.status_panel()
            &&& !(quiet && no_list && no_prompt) ==> shown.composer is None
        }),
{
}

/// The composer shows all that is typed, before and after the cursor; an empty
/// one shows the suggestion, where there is one, and marks it as such.
pub proof fn law_the_composer_shows_what_is_typed(m: TuiModel)
    requires
        m.wf(),
    ensures
        ({
            let s = m.composer_spans();
            &&& s[0].content == "> "@
            &&& m.composer.input_buf.len() > 0 ==> s.len() >= 3 && s[1].content + s[2].content
                == m.composer.input_buf && s[1].tone == Tone::Ink && s[2].tone == Tone::Ink
            &&& m.shows_suggestion() ==> s.len() == 2 && s[1].content
                == m.composer.idle_suggestion->0 && s[1].tone == Tone::Faint
            &&& m.composer.idle_suggestion is Some && m.composer.input_buf.len() == 0
                && m.chat.state == State::Idle && !m.permission.show_permission_prompt
                && !m.prompts.show_recovery_prompt && !m.account.awaiting_api_key
                ==> m.shows_suggestion()
        }),
{
    edit::lemma_cursor(m.composer.input_buf, m.composer.cursor as int);
}

/// A tool call's line tells what the call is about, as its hint has it.
pub proof fn law_calls_show_their_hint(o: transcript::OutputView)
    requires
        o.type_ == "tool_use"@,
        body::call_hint(o.content).len() > 0,
    ensures
        body::entry_rows(o)[0][1].content == o.tool_name + "  "@ + body::call_hint(o.content),
{
    lemma_entry_types();
}

/// Of a result whose summary has more lines than one, each line that is not
/// empty stands in a row of its own under the tool's name.
pub proof fn law_longer_results_show_their_lines(o: transcript::OutputView, k: int)
    requires
        o.type_ == "tool_result"@,
        o.tool_name.len() > 0,
        o.tool_name != "tool"@,
        ({
            let summary = tool_display::result_body(o.tool_name, o.content);
            let parts = chars::split_on(summary, '\n');
            chars::lines(summary).len() > 1 && 0 <= k < parts.len() && parts[k].len() > 0
        }),
    ensures
        ({
            let summary = tool_display::result_body(o.tool_name, o.content);
            let part = chars::split_on(summary, '\n')[k];
            exists|i: int|
                1 <= i < body::entry_rows(o).len() && #[trigger] body::entry_rows(o)[i] == seq![
                    lines::sp("  "@ + part, Tone::Muted),
                ]
        }),
{
    lemma_entry_types();
    let summary = tool_display::result_body(o.tool_name, o.content);
    let parts = chars::split_on(summary, '\n');
    let at = lemma_inked_part(parts, k);
    assert(body::entry_rows(o)[at + 1] == seq![lines::sp("  "@ + parts[k], Tone::Muted)]);
}

proof fn lemma_inked_part(parts: Seq<Seq<char>>, k: int) -> (at: int)
    requires
        0 <= k < parts.len(),
        parts[k].len() > 0,
    ensures
        0 <= at < body::inked_parts(parts).len(),
        body::inked_parts(parts)[at] == parts[k],
    decreases parts.len(),
{
    let init = parts.drop_last();
    if k < init.len() {
        assert(init[k] == parts[k]);
        lemma_inked_part(init, k)
    } else {
        body::inked_parts(init).len() as int
    }
}

} // verus!
