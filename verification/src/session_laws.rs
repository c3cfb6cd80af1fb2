//! What saving, resuming and deleting sessions come to.

use crate::chars;
use crate::command_laws::only_says;
use crate::events::EventView;
use crate::keys::{KeyCode, KeyEvent};
use crate::llm;
use crate::prompt_laws::adds;
use crate::request::{After, RequestView};
use crate::session;
use crate::session_ops;
use crate::state::{State, TuiModel};
use crate::transcript;
use vstd::prelude::*;

verus! {

/// Whether keys go to the list of saved sessions.
pub open spec fn sessions_own_keys(m: TuiModel) -> bool {
    &&& m.saved.show_session_picker
    &&& !m.pickers.show_provider_picker
    &&& !m.pickers.show_model_picker
    &&& !m.permission.show_permission_prompt
    &&& !m.prompts.show_help
    &&& !m.prompts.show_shortcuts
    &&& !m.prompts.show_recovery_prompt
    &&& m.prompts.confirm_remove_provider is None
    &&& m.prompts.confirm_history_provider is None
    &&& !m.account.awaiting_api_key
}

/// Enter in the list of saved sessions closes it and makes one request, for the
/// session that is selected: to remove it in the list that `/delete` opened, to
/// read it in any other.
pub proof fn law_enter_takes_the_selected_session(m: TuiModel, key: KeyEvent)
    requires
        sessions_own_keys(m),
        m.saved.picker_session_sel < m.saved.picker_sessions.len(),
        key == (KeyEvent {
            code: KeyCode::Enter,
            control: false,
            alt: false,
            command: false,
            press: true,
        }),
    ensures
        ({
            let id = m.saved.picker_sessions[m.saved.picker_session_sel as int].id;
            let after = m.keyed(key).0;
            &&& m.keyed(key).1
            &&& !after.saved.show_session_picker
            &&& m.saved.session_picker_delete ==> adds(m, after, RequestView::DeleteSession(id))
            &&& !m.saved.session_picker_delete ==> adds(m, after, RequestView::LoadSession(id))
            &&& after.chat == m.chat
        }),
{
    reveal(TuiModel::key_taken);
    reveal(TuiModel::composer_key);
    let d = m.disarmed();
    lemma_session_entered(d);
}

proof fn lemma_session_entered(m: TuiModel)
    requires
        m.saved.show_session_picker,
        !m.pickers.show_provider_picker,
        !m.pickers.show_model_picker,
        m.saved.picker_session_sel < m.saved.picker_sessions.len(),
    ensures
        ({
            let id = m.saved.picker_sessions[m.saved.picker_session_sel as int].id;
            let after = m.entered().0;
            &&& m.entered().1
            &&& !after.saved.show_session_picker
            &&& m.saved.session_picker_delete ==> adds(m, after, RequestView::DeleteSession(id))
            &&& !m.saved.session_picker_delete ==> adds(m, after, RequestView::LoadSession(id))
            &&& after.chat == m.chat
        }),
{
    reveal(TuiModel::entered);
    reveal(TuiModel::enter_taken);
    reveal(TuiModel::session_entered);
    reveal(TuiModel::session_picker_closed);
    reveal(TuiModel::completions_closed);
    reveal(TuiModel::ask);
}

/// From `/resume` to a session: whichever of the saved sessions is walked to,
/// Enter reads that one and removes none.
pub proof fn law_resume_reads_the_picked_session(m: TuiModel, k: int)
    requires
        0 <= k < m.host.sessions.len() <= usize::MAX,
        !m.pickers.show_provider_picker,
        !m.pickers.show_model_picker,
    ensures
        adds(
            m,
            m.resume_command().session_selected(k).entered().0,
            RequestView::LoadSession(m.host.sessions[k].id),
        ),
        adds(
            m,
            m.resume_command().entered().0,
            RequestView::LoadSession(m.host.sessions[0].id),
        ),
{
    reveal(TuiModel::resume_command);
    reveal(TuiModel::session_selected);
    lemma_session_entered(m.resume_command());
    lemma_session_entered(m.resume_command().session_selected(k));
}

/// From `/delete` to a session: whichever is walked to, Enter removes that one
/// and reads none.
pub proof fn law_delete_removes_the_picked_session(m: TuiModel, k: int)
    requires
        0 <= k < m.host.sessions.len() <= usize::MAX,
        !m.pickers.show_provider_picker,
        !m.pickers.show_model_picker,
    ensures
        adds(
            m,
            m.delete_command(seq!["/delete"@]).session_selected(k).entered().0,
            RequestView::DeleteSession(m.host.sessions[k].id),
        ),
        adds(
            m,
            m.delete_command(seq!["/delete"@]).entered().0,
            RequestView::DeleteSession(m.host.sessions[0].id),
        ),
{
    reveal(TuiModel::delete_command);
    reveal(TuiModel::session_selected);
    let open = m.delete_command(seq!["/delete"@]);
    lemma_session_entered(open);
    lemma_session_entered(open.session_selected(k));
}

/// Esc leaves the list of saved sessions with nothing read and nothing removed,
/// and the next list is one to read from unless it is asked for otherwise.
pub proof fn law_esc_leaves_the_sessions(m: TuiModel)
    requires
        sessions_own_keys(m),
        !m.composer.show_command_picker,
        m.composer.cmd_picker_filtered.len() == 0,
    ensures
        !m.escaped().saved.show_session_picker,
        !m.escaped().saved.session_picker_delete,
        m.escaped().outbox == m.outbox,
        m.escaped().chat == m.chat,
{
    reveal(TuiModel::escaped);
    reveal(TuiModel::session_picker_closed);
}

/// A session is written under the id it has, or a fresh one, with the model,
/// the provider and the whole conversation; its creation time is kept.
pub proof fn law_a_save_writes_the_conversation(m: TuiModel, then: After)
    ensures
        ({
            let f = m.session_file();
            &&& adds(m, m.save_asked(then), RequestView::SaveSession { session: f, then })
            &&& f.model == m.account.model
            &&& f.provider == m.account.provider
            &&& f.id == (match m.saved.current_session_id {
                Some(id) => id,
                None => m.host.fresh_session_id,
            })
            &&& f.updated_at == m.host.unix_secs
            &&& m.saved.session_created_at > 0 ==> f.created_at == m.saved.session_created_at
            &&& m.saved.session_created_at == 0 ==> f.created_at == m.host.unix_secs
            &&& m.saved.live_mirror is Some && m.saved.live_mirror->0.messages.len() > 0
                ==> f.messages == m.saved.live_mirror->0.messages && f.tokens_in
                == m.saved.live_mirror->0.tokens_in && f.tokens_out
                == m.saved.live_mirror->0.tokens_out
            &&& m.saved.live_mirror is None ==> f.tokens_in == m.chat.total_usage.input_tokens
                && f.tokens_out == m.chat.total_usage.output_tokens
            &&& m.save_asked(then).saved.current_session_id == Some(f.id)
            &&& m.save_asked(then).chat == m.chat
        }),
{
    reveal(TuiModel::ask);
}

/// Without a mirror, the messages of a session are the prompts, answers, tool
/// calls and tool results of the transcript, each with its text and in order;
/// nothing else of the transcript is written.
pub proof fn law_transcript_lines_become_messages(
    lines: Seq<transcript::OutputView>,
    l: transcript::OutputView,
)
    ensures
        ({
            let before = session_ops::line_messages(lines);
            let after = session_ops::line_messages(lines.push(l));
            &&& l.type_ == "user"@ ==> after == before.push(
                llm::MessageView { role: "user"@, content: llm::ContentView::Text(l.content) },
            )
            &&& l.type_ == "text"@ ==> after == before.push(
                llm::MessageView { role: "assistant"@, content: llm::ContentView::Text(l.content) },
            )
            &&& l.type_ == "tool_use"@ ==> after.len() == before.len() + 1 && after.drop_last()
                == before && after.last().role == "assistant"@ && (after.last().content matches
                llm::ContentView::ToolUse { id, name, input } && name == l.tool_name && input
                == l.content)
            &&& l.type_ == "tool_result"@ ==> after.len() == before.len() + 1 && after.drop_last()
                == before && after.last().role == "user"@ && (after.last().content matches
                llm::ContentView::ToolResult { tool_use_id, content } && content == l.content)
            &&& l.type_ != "user"@ && l.type_ != "text"@ && l.type_ != "tool_use"@ && l.type_
                != "tool_result"@ ==> after == before
        }),
        session_ops::line_messages(seq![]) == Seq::<llm::MessageView>::empty(),
{
    lemma_line_types();
    assert(lines.push(l).drop_last() =~= lines);
    let after = session_ops::line_messages(lines.push(l));
    if after.len() > 0 {
        assert(session_ops::line_message(l) is Some ==> after.drop_last()
            =~= session_ops::line_messages(lines));
    }
}

proof fn lemma_line_types()
    ensures
        "user"@ != "text"@,
        "user"@ != "tool_use"@,
        "user"@ != "tool_result"@,
        "text"@ != "tool_use"@,
        "text"@ != "tool_result"@,
        "tool_use"@ != "tool_result"@,
{
    reveal_strlit("user");
    reveal_strlit("text");
    reveal_strlit("tool_use");
    reveal_strlit("tool_result");
    assert("user"@[0] != "text"@[0]);
    assert("tool_use"@.len() != "tool_result"@.len());
}

/// A saved session that is read again is the same session: its id, creation
/// time, model, provider, messages and counts all come back.
pub proof fn law_a_saved_session_comes_back(m: TuiModel, other: TuiModel)
    requires
        other.saved.live_mirror is Some,
        m.snapshot().messages.len() > 0,
        m.session_file().created_at > 0,
    ensures
        ({
            let f = m.session_file();
            let again = other.load_finished(Ok(f)).session_file();
            &&& again.id == f.id
            &&& again.created_at == f.created_at
            &&& again.model == f.model
            &&& again.provider == f.provider
            &&& again.messages == f.messages
            &&& again.tokens_in == f.tokens_in
            &&& again.tokens_out == f.tokens_out
        }),
{
    session_ops::law_resumed_history_is_kept(other, m.session_file());
    reveal(TuiModel::ask);
    reveal(TuiModel::say);
    reveal(TuiModel::to_agent);
}

/// Reading a session puts its model and provider to use and its counts on show,
/// and tells the agent of the switch before it tells it what to load. One that
/// could not be read changes nothing but for an error line.
pub proof fn law_a_read_session_is_resumed(
    m: TuiModel,
    s: session::SessionView,
    error: Seq<char>,
)
    requires
        m.links.agent_tx is Some,
    ensures
        ({
            let after = m.load_finished(Ok(s));
            let switched = RequestView::Agent("__switch__:"@ + s.provider + ":"@ + s.model);
            let load = RequestView::Agent("__load_session__:"@ + s.id);
            &&& after.account.model == s.model
            &&& after.account.provider == s.provider
            &&& after.chat.total_usage.input_tokens == s.tokens_in
            &&& after.chat.total_usage.output_tokens == s.tokens_out
            &&& after.saved.current_session_id == Some(s.id)
            &&& m.saved.live_mirror is None ==> after.outbox == m.outbox.push(switched).push(load)
            &&& m.saved.live_mirror is Some ==> after.outbox == m.outbox.push(
                RequestView::StoreMirror,
            ).push(switched).push(load) && after.saved.live_mirror->0.messages == s.messages
            &&& after.chat.output_lines.last().type_ == "system"@
            &&& after.chat.output_lines.drop_last() == session_ops::replayed(
                s.messages,
                m.looks.show_thinking,
            ).0
        }),
        only_says(m, m.load_finished(Err(error)), "error"@),
{
    reveal(TuiModel::ask);
    reveal(TuiModel::say);
    reveal(TuiModel::to_agent);
    let after = m.load_finished(Ok(s));
    assert(after.chat.output_lines.drop_last() =~= session_ops::replayed(
        s.messages,
        m.looks.show_thinking,
    ).0);
    assert(m.load_finished(Err(error)).chat.output_lines.drop_last() =~= m.chat.output_lines);
}

/// A read conversation shows its messages in order: prompts as prompts, answers
/// as answers, tool calls by their name, each result under the name of the call
/// before it, and thinking in full only where it is shown.
pub proof fn law_messages_are_replayed_in_order(
    before: Seq<llm::MessageView>,
    msg: llm::MessageView,
    show: bool,
)
    ensures
        ({
            let told = session_ops::replayed(before, show).0;
            let after = session_ops::replayed(before.push(msg), show).0;
            let one = after.len() == told.len() + 1 && after.drop_last() == told;
            match msg.content {
                llm::ContentView::Text(t) => one && after.last() == transcript::plain(
                    if msg.role == "user"@ {
                        "user"@
                    } else {
                        "text"@
                    },
                    t,
                ),
                llm::ContentView::User { text, images } => one && after.last().type_ == "user"@
                    && after.last().content == llm::user_label(text, images.len()),
                llm::ContentView::Thinking(t) => if show {
                    one && after.last() == transcript::plain("thinking"@, t)
                } else if chars::blank(t) {
                    after == told
                } else {
                    one && after.last() == transcript::plain("thinking_summary"@, "Thought"@)
                },
                llm::ContentView::ToolUse { id, name, input } => one && after.last().type_
                    == "tool_use"@ && after.last().tool_name == name && after.last().content
                    == input,
                llm::ContentView::ToolResult { tool_use_id, content } => one && after.last().type_
                    == "tool_result"@ && after.last().content == content,
            }
        }),
        session_ops::replayed(seq![], show).0.len() == 0,
{
    assert(before.push(msg).drop_last() =~= before);
    let told = session_ops::replayed(before, show).0;
    let after = session_ops::replayed(before.push(msg), show).0;
    if after.len() > told.len() {
        assert(after.drop_last() =~= told);
    }
}

/// The result right after a tool call is shown under the call's name, and a
/// result without a call under a name for any tool.
pub proof fn law_results_follow_their_call(
    before: Seq<llm::MessageView>,
    id: Seq<char>,
    name: Seq<char>,
    input: Seq<char>,
    content: Seq<char>,
    show: bool,
)
    requires
        name.len() > 0,
    ensures
        ({
            let call = llm::MessageView {
                role: "assistant"@,
                content: llm::ContentView::ToolUse { id, name, input },
            };
            let result = llm::MessageView {
                role: "user"@,
                content: llm::ContentView::ToolResult { tool_use_id: id, content },
            };
            &&& session_ops::replayed(before.push(call).push(result), show).0.last().tool_name
                == name
            &&& session_ops::replayed(
                before.push(call).push(result).push(result),
                show,
            ).0.last().tool_name == "tool"@
        }),
{
    let call = llm::MessageView {
        role: "assistant"@,
        content: llm::ContentView::ToolUse { id, name, input },
    };
    let result = llm::MessageView {
        role: "user"@,
        content: llm::ContentView::ToolResult { tool_use_id: id, content },
    };
    assert(before.push(call).drop_last() =~= before);
    assert(before.push(call).push(result).drop_last() =~= before.push(call));
    assert(before.push(call).push(result).push(result).drop_last() =~= before.push(call).push(
        result,
    ));
    reveal_with_fuel(session_ops::replayed, 4);
}

/// The outcome of a save is told where that was asked for, and a failure
/// always; a save of what is gone tells nothing.
pub proof fn law_saves_are_reported(
    m: TuiModel,
    s: session::SessionView,
    error: Seq<char>,
)
    ensures
        m.save_finished(s, After::Quiet, None).chat == m.chat,
        m.save_finished(s, After::Quiet, None).saved.current_session_id == Some(s.id),
        m.save_finished(s, After::Quiet, None).saved.last_checkpoint_save == Some(m.host.now_ns),
        m.save_finished(s, After::Discard, None) == m,
        m.save_finished(s, After::Discard, Some(error)) == m,
        only_says(m, m.save_finished(s, After::Quiet, Some(error)), "error"@),
        only_says(m, m.save_finished(s, After::Announce, Some(error)), "error"@),
        m.save_finished(s, After::Announce, None).chat.output_lines.len()
            == m.chat.output_lines.len() + 1,
        m.save_finished(s, After::Announce, None).chat.output_lines.last().type_ == "system"@,
        m.save_finished(s, After::Announce, None).saved.current_session_id == Some(s.id),
{
    reveal(TuiModel::say);
    assert(m.save_finished(s, After::Quiet, Some(error)).chat.output_lines.drop_last()
        =~= m.chat.output_lines);
    assert(m.save_finished(s, After::Announce, Some(error)).chat.output_lines.drop_last()
        =~= m.chat.output_lines);
}

/// Removing a session is told by its short id, or the error; nothing else
/// changes.
pub proof fn law_deletions_are_reported(m: TuiModel, id: Seq<char>, error: Seq<char>)
    ensures
        only_says(m, m.deletion_reported(id, None), "system"@),
        only_says(m, m.deletion_reported(id, Some(error)), "error"@),
        m.deletion_reported(id, None).chat.output_lines.last().content == "Deleted session "@
            + session::short(id) + "."@,
        m.deletion_reported(id, Some(error)).chat.output_lines.last().content
            == "Failed to delete session: "@ + error,
{
    reveal(TuiModel::say);
    assert(m.deletion_reported(id, None).chat.output_lines.drop_last() =~= m.chat.output_lines);
    assert(m.deletion_reported(id, Some(error)).chat.output_lines.drop_last()
        =~= m.chat.output_lines);
}

/// A checkpoint writes what there is, quietly, once two seconds have passed
/// since the last one.
pub proof fn law_checkpoints_write_the_conversation(m: TuiModel)
    requires
        m.snapshot().messages.len() > 0,
        m.saved.last_checkpoint_save is None || m.saved.last_checkpoint_save->0 + 2_000_000_000
            <= m.host.now_ns,
    ensures
        adds(
            m,
            m.event_applied(EventView::Checkpoint),
            RequestView::SaveSession { session: m.session_file(), then: After::Quiet },
        ),
        m.event_applied(EventView::Checkpoint).chat == m.chat,
{
    reveal(TuiModel::checkpointed);
    reveal(TuiModel::ask);
}

/// The list of saved sessions names every one of them, by its short id and its
/// model, in the order the host gave.
pub proof fn law_listing_names_every_session(list: Seq<session::SummaryView>, now: nat, i: int)
    requires
        0 <= i < list.len(),
    ensures
        chars::has(session_ops::session_rows(list, now), session::short(list[i].id)),
        chars::has(session_ops::session_rows(list, now), list[i].model),
        session_ops::session_rows(list, now).len() >= list.len(),
    decreases list.len(),
{
    let init = session_ops::session_rows(list.drop_last(), now);
    let row = session_ops::session_row(list.last(), now);
    let all = session_ops::session_rows(list, now);
    let id = session::short(list[i].id);
    let model = list[i].model;
    if i < list.len() - 1 {
        law_listing_names_every_session(list.drop_last(), now, i);
        assert(list.drop_last()[i] == list[i]);
        lemma_has_left(init, row, id);
        lemma_has_left(init, row, model);
    } else {
        if list.len() > 1 {
            law_listing_names_every_session(list.drop_last(), now, 0);
        }
        lemma_row_names(list.last(), now);
        lemma_has_right(init, row, id);
        lemma_has_right(init, row, model);
    }
    lemma_row_names(list.last(), now);
}

pub proof fn lemma_has_left(a: Seq<char>, b: Seq<char>, p: Seq<char>)
    requires
        chars::has(a, p),
    ensures
        chars::has(a + b, p),
{
    let i = choose|i: int| chars::occurs_at(a, p, i);
    assert((a + b).subrange(i, i + p.len()) =~= a.subrange(i, i + p.len()));
    assert(chars::occurs_at(a + b, p, i));
}

pub proof fn lemma_has_right(a: Seq<char>, b: Seq<char>, p: Seq<char>)
    requires
        chars::has(b, p),
    ensures
        chars::has(a + b, p),
{
    let i = choose|i: int| chars::occurs_at(b, p, i);
    assert((a + b).subrange(a.len() + i, a.len() + i + p.len()) =~= b.subrange(i, i + p.len()));
    assert(chars::occurs_at(a + b, p, a.len() + i));
}

/// A text holds itself.
pub proof fn lemma_has_itself(p: Seq<char>)
    ensures
        chars::has(p, p),
{
    assert(p.subrange(0, p.len() as int) =~= p);
    assert(chars::occurs_at(p, p, 0));
}

proof fn lemma_row_names(s: session::SummaryView, now: nat)
    ensures
        chars::has(session_ops::session_row(s, now), session::short(s.id)),
        chars::has(session_ops::session_row(s, now), s.model),
        session_ops::session_row(s, now).len() > 0,
{
    let summary = crate::text::summary_cut(s.summary, 60);
    let id = session::short(s.id);
    let model = s.model;
    let n = chars::decimal(s.msg_count as nat);
    let age = crate::text::age(s.updated_at as nat, now);
    let rest = if summary.len() == 0 {
        seq![]
    } else {
        "    "@ + summary + "\n"@
    };
    let lead = "  "@ + id + "  "@;
    assert(chars::has(lead, id)) by {
        lemma_has_itself(id);
        lemma_has_right("  "@, id, id);
        lemma_has_left("  "@ + id, "  "@, id);
    }
    let r0 = lead + model;
    assert(chars::has(r0, id)) by {
        lemma_has_left(lead, model, id);
    }
    assert(chars::has(r0, model)) by {
        lemma_has_itself(model);
        lemma_has_right(lead, model, model);
    }
    assert(r0.len() > 0) by {
        reveal_strlit("  ");
    }
    lemma_both_left(r0, "  "@, id, model);
    lemma_both_left(r0 + "  "@, n, id, model);
    lemma_both_left(r0 + "  "@ + n, " msgs  "@, id, model);
    lemma_both_left(r0 + "  "@ + n + " msgs  "@, age, id, model);
    lemma_both_left(r0 + "  "@ + n + " msgs  "@ + age, "\n"@, id, model);
    lemma_both_left(r0 + "  "@ + n + " msgs  "@ + age + "\n"@, rest, id, model);
}

proof fn lemma_both_left(a: Seq<char>, b: Seq<char>, p: Seq<char>, q: Seq<char>)
    requires
        chars::has(a, p),
        chars::has(a, q),
    ensures
        chars::has(a + b, p),
        chars::has(a + b, q),
        (a + b).len() >= a.len(),
{
    lemma_has_left(a, b, p);
    lemma_has_left(a, b, q);
}

/// The end of a turn is written at once, and the turn is idle again.
pub proof fn law_the_end_of_a_turn_is_saved(m: TuiModel)
    ensures
        m.event_applied(EventView::Done).chat.state == State::Idle || m.account.pending_model_after_auth,
        m.saved.live_mirror is Some && m.saved.live_mirror->0.messages.len() > 0 ==> {
            let after = m.event_applied(EventView::Done);
            &&& after.chat.state == State::Idle
            &&& after.chat.running_started is None
            &&& after.chat.streaming_text.len() == 0
            &&& after.outbox.len() == m.outbox.len() + 1
            &&& after.outbox.last() matches RequestView::SaveSession { session: f, then }
                && f.messages == m.saved.live_mirror->0.messages && then == After::FinishTurn
        },
{
    reveal(TuiModel::turn_ended);
    reveal(TuiModel::flushed);
    reveal(TuiModel::say);
    reveal(TuiModel::ask);
    reveal(TuiModel::suggested);
}

} // verus!
