//! What typing, pasting and the navigation keys do, and what is copied.

use crate::chars;
use crate::clipboard;
use crate::edit;
use crate::events::{Next, TerminalView};
use crate::keys::{KeyCode, KeyEvent, MouseEvent};
use crate::llm;
use crate::prompt_laws::adds;
use crate::request::RequestView;
use crate::session_laws;
use crate::state::{SelectDump, State, TuiModel};
use crate::text;
use crate::transcript;
use vstd::prelude::*;

verus! {

/// Whether the composer holds `a` before its cursor and `b` after it.
pub open spec fn holds(m: TuiModel, a: Seq<char>, b: Seq<char>) -> bool {
    &&& m.composer.input_buf == a + b
    &&& m.composer.cursor == chars::byte_len(a)
}

/// The text round a cursor that stands behind `a`.
pub proof fn lemma_split(a: Seq<char>, b: Seq<char>)
    ensures
        edit::before(a + b, chars::byte_len(a) as int) == a,
        edit::after(a + b, chars::byte_len(a) as int) == b,
        chars::byte_len(a + b) == chars::byte_len(a) + chars::byte_len(b),
{
    let s = a + b;
    assert(s.take(a.len() as int) =~= a);
    chars::lemma_chars_before_is(s, a.len() as int);
    chars::lemma_byte_len_concat(a, b);
    assert(s.skip(a.len() as int) =~= b);
}

/// A character that is typed stands at the cursor, and the cursor behind it. All
/// else that is typed stays, and nothing is sent.
pub proof fn law_typing_goes_to_the_cursor(m: TuiModel, a: Seq<char>, b: Seq<char>, ch: char)
    requires
        holds(m, a, b),
        m.composer_focused(),
        ch != '?' || a.len() + b.len() > 0,
        chars::byte_len(a) + 4 <= usize::MAX,
    ensures
        holds(m.char_pressed(ch), a.push(ch), b),
        m.char_pressed(ch).outbox == m.outbox,
        m.char_pressed(ch).chat == m.chat,
        m.char_pressed(ch).account == m.account,
{
    reveal(TuiModel::char_pressed);
    reveal(TuiModel::input_typed);
    reveal(TuiModel::completed);
    lemma_split(a, b);
    assert(a + seq![ch] + b =~= a.push(ch) + b);
    assert(a + seq![ch] =~= a.push(ch));
    chars::lemma_byte_len_concat(a, seq![ch]);
    lemma_one_wide(ch);
}

pub proof fn lemma_one_wide(ch: char)
    ensures
        chars::byte_len(seq![ch]) == chars::utf8_width(ch),
        chars::utf8_width(ch) <= 4,
{
    assert(seq![ch].drop_first() =~= Seq::<char>::empty());
    assert(chars::byte_len(Seq::<char>::empty()) == 0);
}

/// A question mark in an empty, idle composer opens the shortcuts and is not
/// typed.
pub proof fn law_a_question_mark_opens_the_shortcuts(m: TuiModel)
    requires
        m.shortcuts_offered(),
        !m.prompts.show_shortcuts,
    ensures
        m.char_pressed('?').prompts.show_shortcuts,
        m.char_pressed('?').composer == m.composer,
        m.char_pressed('?').outbox == m.outbox,
{
    reveal(TuiModel::char_pressed);
    reveal(TuiModel::shortcuts_toggled);
}

/// Pasted text stands at the cursor without its control sequences, and the
/// cursor behind it; it is not sent, whatever line breaks it holds.
pub proof fn law_pasting_goes_to_the_cursor(
    m: TuiModel,
    a: Seq<char>,
    b: Seq<char>,
    data: Seq<char>,
)
    requires
        holds(m, a, b),
        m.composer_focused(),
        !m.permission.show_permission_prompt,
        text::sanitized(data).len() > 0,
        chars::byte_len(a) + chars::byte_len(text::sanitized(data)) <= usize::MAX,
    ensures
        m.pasted(data).1,
        holds(m.pasted(data).0, a + text::sanitized(data), b),
        m.pasted(data).0.outbox == m.outbox,
        m.pasted(data).0.chat == m.chat,
{
    reveal(TuiModel::input_typed);
    reveal(TuiModel::completed);
    let t = text::sanitized(data);
    lemma_split(a, b);
    chars::lemma_byte_len_concat(a, t);
}

/// Feedback on a tool takes what is pasted while it is written; any other prompt
/// for permission takes nothing.
pub proof fn law_pasting_into_a_prompt(m: TuiModel, data: Seq<char>)
    requires
        m.permission.show_permission_prompt,
    ensures
        m.permission.perm_selection != 3 ==> m.pasted(data) == (m, false),
        m.permission.perm_selection == 3 ==> m.pasted(data).0.composer == m.composer,
        m.pasted(data).0.outbox == m.outbox,
{
    reveal(TuiModel::feedback_typed);
}

/// Left and Right step over one character; Backspace drops the one before the
/// cursor and Delete the one behind it.
pub proof fn law_one_character_at_a_time(m: TuiModel, a: Seq<char>, c: char, b: Seq<char>)
    requires
        m.composer_focused(),
        !m.pickers.show_provider_picker,
        chars::byte_len(a + seq![c] + b) <= usize::MAX,
    ensures
        holds(m, a.push(c), b) ==> holds(m.left(), a, seq![c] + b) && m.left().outbox == m.outbox,
        holds(m, a.push(c), b) ==> holds(m.backspace_pressed(), a, b)
            && m.backspace_pressed().outbox == m.outbox,
        holds(m, a, seq![c] + b) ==> holds(m.right(), a.push(c), b) && m.right().outbox == m.outbox,
        holds(m, a, seq![c] + b) ==> holds(m.delete_pressed(), a, b)
            && m.delete_pressed().outbox == m.outbox,
{
    reveal(TuiModel::cursor_at);
    reveal(TuiModel::right);
    reveal(TuiModel::backspace_pressed);
    reveal(TuiModel::input_backspaced);
    reveal(TuiModel::delete_pressed);
    reveal(TuiModel::input_deleted);
    reveal(TuiModel::completed);
    reveal(TuiModel::suggested);
    let all = a + seq![c] + b;
    lemma_split(a.push(c), b);
    lemma_split(a, seq![c] + b);
    lemma_one_wide(c);
    assert(a.push(c) =~= a + seq![c]);
    assert(a.push(c) + b =~= all);
    assert(a + (seq![c] + b) =~= all);
    assert(a.push(c).drop_last() =~= a);
    assert((seq![c] + b).drop_first() =~= b);
    assert((seq![c] + b)[0] == c);
    chars::lemma_byte_len_concat(a, seq![c]);
    chars::lemma_byte_len_concat(seq![c], b);
    assert(chars::utf8_width(c) > 0);
}

/// A prompt that was sent is the one that the history gives back first.
pub proof fn law_a_sent_prompt_is_recalled(m: TuiModel, input: Seq<char>)
    requires
        input.len() > 0,
        m.composer.history.len() + 1 <= usize::MAX,
    ensures
        ({
            let sent = m.prompt_sent(input);
            &&& sent.composer.history == m.composer.history.push(input)
            &&& sent.composer.input_buf.len() == 0
            &&& sent.composer.pending_images.len() == 0
            &&& sent.history_back().composer.input_buf == input
            &&& sent.history_back().history_forward().composer.input_buf.len() == 0
        }),
{
    reveal(TuiModel::prompt_sent);
    reveal(TuiModel::remembered);
    reveal(TuiModel::turn_prepared);
    reveal(TuiModel::images_sent);
    reveal(TuiModel::say);
    reveal(TuiModel::ask);
    reveal(TuiModel::running);
    reveal(TuiModel::to_agent);
    reveal(TuiModel::history_back);
    reveal(TuiModel::history_forward);
}

/// Attached images go out with the prompt: the transcript counts them.
pub proof fn law_a_prompt_counts_its_images(m: TuiModel, input: Seq<char>)
    ensures
        ({
            let n = m.composer.pending_images.len();
            let shown = m.prompt_sent(input).chat.output_lines.last();
            &&& shown.type_ == "user"@
            &&& n == 0 ==> shown.content == input
            &&& n == 1 && input.len() > 0 ==> shown.content == input + "\n"@ + "[image]"@
            &&& n == 1 && input.len() == 0 ==> shown.content == "[image]"@
            &&& n >= 2 && input.len() > 0 ==> shown.content == input + "\n"@ + ("["@
                + chars::decimal(n) + " images]"@)
            &&& n >= 2 && input.len() == 0 ==> shown.content == "["@ + chars::decimal(n)
                + " images]"@
        }),
{
    reveal(TuiModel::prompt_sent);
    reveal(TuiModel::remembered);
    reveal(TuiModel::turn_prepared);
    reveal(TuiModel::images_sent);
    reveal(TuiModel::say);
    reveal(TuiModel::ask);
    reveal(TuiModel::running);
    reveal(TuiModel::to_agent);
}

/// Whether no list, prompt or overlay takes the navigation keys.
pub open spec fn keys_are_free(m: TuiModel) -> bool {
    !m.navigation_owned()
}

/// The navigation chords do what the shortcuts say: Page Up and Ctrl+U scroll
/// up, Page Down and Ctrl+D down, Ctrl+Home and Ctrl+End go to the ends, Ctrl+P
/// and Ctrl+N walk the history, Ctrl+Y copies, Ctrl+O selects.
pub proof fn law_the_chords_do_what_they_say(m: TuiModel, key: KeyEvent)
    requires
        keys_are_free(m),
        key.press,
    ensures
        ({
            let after = m.keyed(key).0;
            let ctrl = key.control;
            let page = m.scroll.page();
            let half = m.scroll.half_page();
            let d = m.disarmed();
            &&& key.code == KeyCode::PageUp ==> after == d.scrolled_by(-page)
            &&& key.code == KeyCode::PageDown ==> after == d.scrolled_by(page)
            &&& ctrl && key.code == KeyCode::Up ==> after == d.scrolled_by(-1)
            &&& ctrl && key.code == KeyCode::Down ==> after == d.scrolled_by(1)
            &&& ctrl && key.code == KeyCode::Char('u') ==> after == d.scrolled_by(-half)
            &&& ctrl && key.code == KeyCode::Char('d') ==> after == d.scrolled_by(half)
            &&& ctrl && key.code == KeyCode::Home ==> after.scroll.transcript_rowoff == 0
                && !after.scroll.transcript_follow
            &&& ctrl && key.code == KeyCode::End ==> after.scroll.transcript_follow
            &&& ctrl && key.code == KeyCode::Char('p') ==> after == d.history_back()
            &&& ctrl && key.code == KeyCode::Char('n') ==> after == d.history_forward()
            &&& ctrl && key.code == KeyCode::Char('y') && m.last_assistant() is Some ==> adds(
                m,
                after,
                RequestView::CopyText(m.last_assistant()->0),
            )
            &&& ctrl && key.code == KeyCode::Char('y') && m.last_assistant() is None
                ==> after.outbox == m.outbox
            &&& ctrl && key.code == KeyCode::Char('o') ==> after.pending_select == Some(
                SelectDump::LastAssistant,
            )
        }),
{
    reveal(TuiModel::key_taken);
    reveal(TuiModel::global_key);
    reveal(TuiModel::at_top);
    reveal(TuiModel::at_bottom);
    reveal(TuiModel::copy_asked);
    reveal(TuiModel::select_asked);
    reveal(TuiModel::say);
    reveal(TuiModel::ask);
}

/// Scrolling up goes to older lines and never below, scrolling down to newer
/// ones, by as much as asked or to the end.
pub proof fn law_scrolling_goes_where_it_says(m: TuiModel, n: int)
    requires
        n >= 0,
    ensures
        ({
            let (up, down) = (m.scrolled_by(-n).scroll, m.scrolled_by(n).scroll);
            let from = m.scroll.current_off();
            &&& n <= from ==> up.transcript_rowoff == from - n
            &&& n > from ==> up.transcript_rowoff == 0
            &&& from + n <= m.scroll.max_off() ==> down.transcript_rowoff == from + n
            &&& from + n > m.scroll.max_off() ==> down.transcript_rowoff == m.scroll.max_off()
            &&& m.scrolled_by(n).outbox == m.outbox && m.scrolled_by(n).chat == m.chat
            &&& m.scrolled_by(n).composer == m.composer
        }),
{
    reveal(TuiModel::scrolled_by);
}

/// The wheel scrolls three lines its way, unless a list is open; no other event
/// of the mouse does anything.
pub proof fn law_the_wheel_scrolls(m: TuiModel)
    ensures
        ({
            let list = m.pickers.show_model_picker || m.pickers.show_provider_picker
                || m.looks.show_theme_picker || m.saved.show_session_picker
                || m.composer.show_command_picker;
            &&& !list ==> m.moused(MouseEvent::ScrollUp) == (m.scrolled_by(-3), true)
            &&& !list ==> m.moused(MouseEvent::ScrollDown) == (m.scrolled_by(3), true)
            &&& list ==> m.moused(MouseEvent::ScrollUp) == (m, false)
            &&& list ==> m.moused(MouseEvent::ScrollDown) == (m, false)
            &&& m.moused(MouseEvent::Other) == (m, false)
        }),
{
}

/// Whether a transcript line is an answer that says something.
pub open spec fn answers(l: transcript::OutputView) -> bool {
    l.type_ == "text"@ && !chars::blank(l.content)
}

proof fn lemma_last_answer(ls: Seq<transcript::OutputView>)
    ensures
        match clipboard::last_answer(ls) {
            Some(t) => exists|k: int|
                0 <= k < ls.len() && answers(#[trigger] ls[k]) && ls[k].content == t && forall|
                    j: int,
                |
                    k < j < ls.len() ==> !answers(#[trigger] ls[j]),
            None => forall|j: int| 0 <= j < ls.len() ==> !answers(#[trigger] ls[j]),
        },
    decreases ls.len(),
{
    if ls.len() > 0 {
        let init = ls.drop_last();
        let n = ls.len() - 1;
        lemma_last_answer(init);
        if answers(ls.last()) {
            assert(answers(ls[n]));
        } else {
            match clipboard::last_answer(init) {
                Some(t) => {
                    let k = choose|k: int|
                        0 <= k < init.len() && answers(#[trigger] init[k]) && init[k].content == t
                            && forall|j: int| k < j < init.len() ==> !answers(#[trigger] init[j]);
                    assert(answers(ls[k]) && ls[k].content == t);
                    assert forall|j: int| k < j < ls.len() implies !answers(#[trigger] ls[j]) by {
                        if j < n {
                            assert(init[j] == ls[j]);
                        }
                    }
                },
                None => {
                    assert forall|j: int| 0 <= j < ls.len() implies !answers(#[trigger] ls[j]) by {
                        if j < n {
                            assert(init[j] == ls[j]);
                        }
                    }
                },
            }
        }
    }
}

/// What is copied is the latest answer in the transcript that says something;
/// where there is none yet, the one being streamed.
pub proof fn law_the_latest_answer_is_copied(m: TuiModel)
    ensures
        ({
            let ls = m.chat.output_lines;
            let none = forall|j: int| 0 <= j < ls.len() ==> !answers(#[trigger] ls[j]);
            &&& !none ==> exists|k: int|
                0 <= k < ls.len() && answers(#[trigger] ls[k]) && m.last_assistant() == Some(
                    ls[k].content,
                ) && forall|j: int| k < j < ls.len() ==> !answers(#[trigger] ls[j])
            &&& none && !chars::blank(m.chat.streaming_text) ==> m.last_assistant() == Some(
                m.chat.streaming_text,
            )
            &&& none && chars::blank(m.chat.streaming_text) ==> m.last_assistant() is None
            &&& m.last_assistant() is Some ==> m.select_dump(SelectDump::LastAssistant)
                == m.last_assistant()->0
        }),
{
    lemma_last_answer(m.chat.output_lines);
}

proof fn lemma_dump_holds(ls: Seq<transcript::OutputView>, i: int)
    requires
        0 <= i < ls.len(),
    ensures
        chars::has(clipboard::dumped(ls), ls[i].content),
    decreases ls.len(),
{
    let head = clipboard::dumped(ls.drop_last());
    let tail = clipboard::dumped_line(ls.last());
    if i < ls.len() - 1 {
        assert(ls.drop_last()[i] == ls[i]);
        lemma_dump_holds(ls.drop_last(), i);
        session_laws::lemma_has_left(head, tail, ls[i].content);
    } else {
        lemma_line_holds(ls[i]);
        session_laws::lemma_has_right(head, tail, ls[i].content);
    }
}

proof fn lemma_line_holds(l: transcript::OutputView)
    ensures
        chars::has(clipboard::dumped_line(l), l.content),
{
    let s = clipboard::dumped_line(l);
    let c = l.content;
    let lead: int = if l.type_ == "user"@ {
        "› "@.len() as int
    } else if l.type_ == "text"@ {
        0
    } else if l.type_ == "thinking"@ {
        "── Thinking ──\n"@.len() as int
    } else if l.type_ == "thinking_summary"@ {
        "✦ "@.len() as int
    } else if l.type_ == "tool_use"@ {
        ("● "@ + l.tool_name + " "@).len() as int
    } else if l.type_ == "tool_result"@ {
        ("● "@ + l.tool_name + " result:\n"@).len() as int
    } else if l.type_ == "error"@ {
        "Error: "@.len() as int
    } else {
        0
    };
    assert(s.subrange(lead, lead + c.len()) =~= c);
    assert(chars::occurs_at(s, c, lead));
}

/// Plain-text select mode shows every line of the session, whole, and what is
/// being streamed; a session that holds nothing is called empty.
pub proof fn law_select_mode_shows_every_line(m: TuiModel, i: int)
    requires
        0 <= i < m.chat.output_lines.len(),
        !chars::blank(m.chat.output_lines[i].content),
    ensures
        ({
            let all = m.select_dump(SelectDump::FullTranscript);
            &&& chars::has(all, m.chat.output_lines[i].content)
            &&& m.chat.streaming_text.len() > 0 ==> chars::has(all, m.chat.streaming_text)
        }),
{
    let ls = m.chat.output_lines;
    let c = ls[i].content;
    let body = clipboard::dumped(ls);
    let more = body + m.chat.streaming_text + "\n"@;
    lemma_dump_holds(ls, i);
    session_laws::lemma_has_left(body, m.chat.streaming_text, c);
    session_laws::lemma_has_left(body + m.chat.streaming_text, "\n"@, c);
    assert(chars::has(m.chat.streaming_text, m.chat.streaming_text)) by {
        session_laws::lemma_has_itself(m.chat.streaming_text);
    }
    session_laws::lemma_has_right(body, m.chat.streaming_text, m.chat.streaming_text);
    session_laws::lemma_has_left(
        body + m.chat.streaming_text,
        "\n"@,
        m.chat.streaming_text,
    );
    let all = if m.chat.streaming_text.len() == 0 {
        body
    } else {
        more
    };
    assert(chars::has(all, c));
    lemma_not_blank(all, c);
}

proof fn lemma_not_blank(s: Seq<char>, p: Seq<char>)
    requires
        chars::has(s, p),
        !chars::blank(p),
    ensures
        !chars::blank(s),
{
    let i = choose|i: int| chars::occurs_at(s, p, i);
    let j = choose|j: int| 0 <= j < p.len() && !chars::is_ws(#[trigger] p[j]);
    assert(s.subrange(i, i + p.len())[j] == s[i + j]);
    assert(!chars::is_ws(s[i + j]));
}

/// An image is asked of the clipboard only by an idle composer that has fewer
/// than four; one that was read joins those of the next message, behind them,
/// and one that could not be read joins nothing.
pub proof fn law_images_are_attached(
    m: TuiModel,
    img: llm::ImageView,
    bytes: usize,
    error: Seq<char>,
)
    ensures
        ({
            let asked = m.image_asked();
            let read = m.image_attached(Ok((img, bytes)));
            let failed = m.image_attached(Err(error));
            let wanted = !m.paste_blocked() && m.chat.state == State::Idle
                && m.composer.pending_images.len() < 4;
            &&& wanted ==> adds(m, asked, RequestView::ReadClipboardImage) && asked.chat == m.chat
            &&& !wanted ==> asked.outbox == m.outbox
            &&& asked.composer == m.composer
            &&& read.composer.pending_images == m.composer.pending_images.push(img)
            &&& read.composer.input_buf == m.composer.input_buf
            &&& failed.composer == m.composer
            &&& failed.chat.output_lines.last().type_ == "error"@
            &&& read.outbox == m.outbox && failed.outbox == m.outbox
        }),
{
    reveal(TuiModel::image_asked);
    reveal(TuiModel::say);
    reveal(TuiModel::ask);
}

/// The outcome of a copy is told as it was: how it was copied and how many
/// characters, or why it was not.
pub proof fn law_a_copy_is_reported(m: TuiModel, copied: Seq<char>, how: Seq<char>, error: Seq<char>)
    ensures
        ({
            let done = m.copy_reported(copied, Ok(how)).chat.output_lines;
            let failed = m.copy_reported(copied, Err(error)).chat.output_lines;
            &&& done.len() == m.chat.output_lines.len() + 1
            &&& chars::begins(
                done.last().content,
                "Copied last assistant message ("@ + chars::decimal(copied.len()) + " chars via "@
                    + how,
            )
            &&& failed.len() == m.chat.output_lines.len() + 1
            &&& chars::begins(failed.last().content, "Copy failed: "@ + error)
        }),
{
    reveal(TuiModel::say);
    let p = "Copied last assistant message ("@ + chars::decimal(copied.len()) + " chars via "@ + how;
    let q = "Copy failed: "@ + error;
    let done = m.copy_reported(copied, Ok(how)).chat.output_lines.last().content;
    let failed = m.copy_reported(copied, Err(error)).chat.output_lines.last().content;
    assert(done.take(p.len() as int) =~= p);
    assert(failed.take(q.len() as int) =~= q);
}

/// A prompt that is sent starts a turn: its time runs from now, its end is to
/// sound, the transcript follows it, a question about a failure is closed, and
/// no suggestion is left.
pub proof fn law_a_prompt_starts_a_turn(m: TuiModel, input: Seq<char>)
    ensures
        ({
            let after = m.prompt_sent(input);
            &&& after.chat.state == State::Running
            &&& after.chat.running_started == Some(m.host.now_ns)
            &&& after.chat.expect_turn_notify
            &&& after.scroll.transcript_follow
            &&& !after.prompts.show_recovery_prompt
            &&& after.composer.idle_suggestion is None
            &&& after.saved.last_checkpoint_save is None
            &&& after.account == m.account
            &&& after.chat.total_usage == m.chat.total_usage
            &&& after.chat.streaming_text == m.chat.streaming_text
        }),
{
    reveal(TuiModel::prompt_sent);
    reveal(TuiModel::remembered);
    reveal(TuiModel::turn_prepared);
    reveal(TuiModel::images_sent);
    reveal(TuiModel::say);
    reveal(TuiModel::ask);
    reveal(TuiModel::running);
    reveal(TuiModel::to_agent);
}

/// Ctrl+C on a typed prompt, with nothing open and nothing running, clears it
/// and does not leave; on an empty one the first press only arms the exit.
pub proof fn law_ctrl_c_clears_what_is_typed(m: TuiModel, key: KeyEvent)
    requires
        key.press,
        key.control_letter('c', 'C'),
        !m.navigation_owned(),
        !m.account.awaiting_api_key,
        !m.composer.show_command_picker,
        !m.prompts.show_recovery_prompt,
        m.chat.state == State::Idle,
    ensures
        ({
            let (after, goes_on) = m.keyed(key);
            &&& m.composer.input_buf.len() > 0 ==> goes_on && after.composer.input_buf.len() == 0
                && !after.ctrl_c_exit_armed && !after.composer.show_command_picker
                && after.composer.cmd_picker_filtered.len() == 0
            &&& m.composer.input_buf.len() == 0 && !m.ctrl_c_exit_armed ==> goes_on
                && after.ctrl_c_exit_armed
            &&& m.composer.input_buf.len() == 0 && m.ctrl_c_exit_armed ==> !goes_on
            &&& after.outbox == m.outbox
            &&& after.chat == m.chat
            &&& after.composer.history == m.composer.history
        }),
{
    reveal(TuiModel::interrupted);
    reveal(TuiModel::dismissed);
    reveal(TuiModel::composer_emptied);
}

/// A new size of the terminal has the screen built again; a key while idle, a
/// paste or a turn of the wheel that was acted on has it drawn again; any other
/// event of the terminal does nothing.
pub proof fn law_events_are_drawn(m: TuiModel, key: KeyEvent, data: Seq<char>, e: MouseEvent)
    ensures
        m.input_taken(TerminalView::Resize).0.dirty,
        m.input_taken(TerminalView::Resize).1 == Next::Rebuild,
        m.input_taken(TerminalView::Other) == (m, Next::GoOn),
        m.pasted(data).1 ==> m.input_taken(TerminalView::Paste(data)).0.dirty,
        m.moused(e).1 ==> m.input_taken(TerminalView::Mouse(e)).0.dirty,
        m.input_taken(TerminalView::Paste(data)).1 == Next::GoOn,
        m.input_taken(TerminalView::Mouse(e)).1 == Next::GoOn,
        m.chat.state == State::Idle && m.keyed(key).1 ==> m.input_taken(
            TerminalView::Key(key),
        ).0.dirty && m.input_taken(TerminalView::Key(key)).1 == Next::GoOn,
        m.chat.state == State::Idle && !m.keyed(key).1 ==> m.input_taken(TerminalView::Key(key)).1
            == Next::Leave,
        m.chat.state == State::Running ==> m.input_taken(TerminalView::Key(key)).1 == Next::GoOn,
        key.press && m.chat.state == State::Running ==> m.input_taken(
            TerminalView::Key(key),
        ).0.dirty,
{
}

} // verus!
