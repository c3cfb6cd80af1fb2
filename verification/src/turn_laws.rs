//! What a turn of the agent leaves in the transcript.

use crate::chars;
use crate::events::EventView;
use crate::llm::Usage;
use crate::prompt_laws;
use crate::request::{RequestView, Sound};
use crate::state::{ChatView, State, TuiModel};
use crate::text;
use crate::transcript::OutputView;
use vstd::prelude::*;

verus! {

/// A transcript line of a type, without a tool.
pub open spec fn line_is(l: OutputView, type_: Seq<char>, content: Seq<char>) -> bool {
    l.type_ == type_ && l.content == content && l.tool_name.len() == 0
}

/// The answer is what was streamed, piece by piece; so is the thinking. Neither
/// goes to the transcript or to the host by itself.
pub proof fn law_pieces_are_streamed_in_order(m: TuiModel, a: Seq<char>, b: Seq<char>)
    ensures
        ({
            let text = m.event_applied(EventView::Text(a)).event_applied(EventView::Text(b));
            let thought = m.event_applied(EventView::Thinking(a)).event_applied(
                EventView::Thinking(b),
            );
            &&& text.chat == ChatView {
                streaming_text: m.chat.streaming_text + a + b,
                ..m.chat
            }
            &&& thought.chat.stream_thinking == m.chat.stream_thinking + a + b
            &&& thought.chat.streaming_text == m.chat.streaming_text
            &&& thought.chat.output_lines == m.chat.output_lines
            &&& thought.chat.state == m.chat.state
            &&& m.chat.thinking_started is None ==> thought.chat.thinking_started == Some(
                m.host.now_ns,
            )
            &&& m.chat.thinking_started is Some ==> thought.chat.thinking_started
                == m.chat.thinking_started
            &&& text.outbox == m.outbox
            &&& thought.outbox == m.outbox
        }),
{
    reveal(TuiModel::text_streamed);
    reveal(TuiModel::thinking_streamed);
}

/// Whether an event closes what is being streamed.
pub open spec fn closes_the_stream(e: EventView) -> bool {
    match e {
        EventView::ToolUse(_, _) => true,
        EventView::Error { .. } => true,
        EventView::PermissionRequest(_, _) => true,
        EventView::Compacted(_) => true,
        _ => false,
    }
}

/// Before a tool call, a failure, a question or a compaction is shown, what was
/// streamed goes to the transcript, whole: the thinking first, in full or as a
/// label, then the answer. What was there stays.
pub proof fn law_streams_end_in_the_transcript(m: TuiModel, e: EventView)
    requires
        closes_the_stream(e),
    ensures
        ({
            let after = m.event_applied(e).chat;
            let old = m.chat.output_lines;
            let n = old.len() as int;
            let thinks = m.chat.stream_thinking.len() > 0;
            let answers = m.chat.streaming_text.len() > 0;
            let k: int = if thinks {
                1
            } else {
                0
            };
            &&& after.streaming_text.len() == 0
            &&& after.stream_thinking.len() == 0
            &&& after.output_lines.len() >= n
            &&& after.output_lines.take(n) == old
            &&& answers ==> after.output_lines.len() > n + k && line_is(
                after.output_lines[n + k],
                "text"@,
                m.chat.streaming_text,
            )
            &&& thinks ==> after.output_lines.len() > n
            &&& thinks && m.looks.show_thinking ==> line_is(
                after.output_lines[n],
                "thinking"@,
                m.chat.stream_thinking,
            )
            &&& thinks && !m.looks.show_thinking ==> after.output_lines[n].type_
                == "thinking_summary"@ && chars::begins(after.output_lines[n].content, "Thought"@)
            &&& thinks && !m.looks.show_thinking && m.chat.thinking_started is Some
                && m.chat.thinking_started->0 <= m.host.now_ns ==> after.output_lines[n].content
                == text::thought_label(
                Some(((m.host.now_ns - m.chat.thinking_started->0) / 1_000_000) as u64),
            )
        }),
{
    reveal(TuiModel::tool_called);
    reveal(TuiModel::tool_said);
    reveal(TuiModel::failed);
    reveal(TuiModel::permission_asked);
    reveal(TuiModel::compacted);
    reveal(TuiModel::flushed);
    reveal(TuiModel::say);
    reveal(TuiModel::ask);
    reveal(TuiModel::suggested);
    let after = m.event_applied(e).chat;
    let n = m.chat.output_lines.len() as int;
    assert(after.output_lines.take(n) =~= m.chat.output_lines);
    let elapsed: Option<u64> = match m.chat.thinking_started {
        Some(t) => Some((m.since(t) / 1_000_000) as u64),
        None => None,
    };
    lemma_label_says_thought(elapsed);
}

proof fn lemma_label_says_thought(elapsed: Option<u64>)
    ensures
        chars::begins(text::thought_label(elapsed), "Thought"@),
{
    let l = text::thought_label(elapsed);
    reveal_strlit("Thought");
    reveal_strlit("Thought briefly");
    reveal_strlit("Thought for <1s");
    reveal_strlit("Thought for ");
    reveal_strlit("s");
    reveal_strlit("m");
    reveal_strlit("m ");
    assert(l.take(7) =~= "Thought"@);
}

/// A tool call shows by its tool and its input, the result by the tool and its
/// output; a compaction by its count. Each is one line, the last one.
pub proof fn law_tools_speak_for_themselves(
    m: TuiModel,
    name: Seq<char>,
    input: Seq<char>,
    output: Seq<char>,
    n: usize,
)
    ensures
        ({
            let call = m.event_applied(EventView::ToolUse(name, input)).chat.output_lines;
            let result = m.event_applied(EventView::ToolResult(name, input, output)).chat;
            let compacted = m.event_applied(EventView::Compacted(n)).chat.output_lines;
            let quiet = m.chat.streaming_text.len() == 0 && m.chat.stream_thinking.len() == 0;
            &&& call.last().type_ == "tool_use"@
            &&& call.last().tool_name == name
            &&& call.last().content == input
            &&& quiet ==> call.len() == m.chat.output_lines.len() + 1
            &&& result.output_lines.len() == m.chat.output_lines.len() + 1
            &&& result.output_lines.drop_last() == m.chat.output_lines
            &&& result.output_lines.last().type_ == "tool_result"@
            &&& result.output_lines.last().tool_name == name
            &&& result.output_lines.last().content == output
            &&& result.streaming_text == m.chat.streaming_text
            &&& line_is(
                compacted.last(),
                "system"@,
                "Compacted "@ + chars::decimal(n as nat) + " earlier messages into a summary."@,
            )
            &&& quiet ==> compacted.len() == m.chat.output_lines.len() + 1
        }),
{
    reveal(TuiModel::tool_called);
    reveal(TuiModel::tool_said);
    reveal(TuiModel::compacted);
    reveal(TuiModel::flushed);
    reveal(TuiModel::say);
    assert(m.event_applied(EventView::ToolResult(name, input, output)).chat.output_lines.drop_last()
        =~= m.chat.output_lines);
}

/// Tokens add up over turns, whatever their order, and nothing else is touched.
pub proof fn law_tokens_add_up(m: TuiModel, a: Usage, b: Usage)
    requires
        m.chat.total_usage.input_tokens + a.input_tokens + b.input_tokens <= u64::MAX,
        m.chat.total_usage.output_tokens + a.output_tokens + b.output_tokens <= u64::MAX,
    ensures
        ({
            let after = m.event_applied(EventView::TurnEnd(a)).event_applied(EventView::TurnEnd(b));
            let total = after.chat.total_usage;
            &&& total.input_tokens == m.chat.total_usage.input_tokens + a.input_tokens
                + b.input_tokens
            &&& total.output_tokens == m.chat.total_usage.output_tokens + a.output_tokens
                + b.output_tokens
            &&& after == TuiModel {
                chat: ChatView { total_usage: total, ..m.chat },
                ..m
            }
            &&& after == m.event_applied(EventView::TurnEnd(b)).event_applied(
                EventView::TurnEnd(a),
            )
        }),
{
    reveal(TuiModel::usage_counted);
}

/// The end of a turn that was waited for sounds once, unless a prompt that is
/// open has sounded already; a second end does not sound.
pub proof fn law_the_end_sounds_once(m: TuiModel)
    ensures
        ({
            let after = m.turn_announced();
            let heard = m.permission.show_permission_prompt || m.prompts.show_recovery_prompt;
            &&& m.chat.expect_turn_notify && !heard ==> prompt_laws::adds(
                m,
                after,
                RequestView::Notify(Sound::Done),
            )
            &&& !m.chat.expect_turn_notify || heard ==> after.outbox == m.outbox
            &&& !after.chat.expect_turn_notify
            &&& after.turn_announced() == after
            &&& after.chat.output_lines == m.chat.output_lines
        }),
{
    reveal(TuiModel::ask);
}

/// The end of a turn brings the idle state back and leaves nothing streaming:
/// the answer stands in the transcript.
pub proof fn law_a_finished_turn_is_idle(m: TuiModel)
    requires
        !m.account.pending_model_after_auth,
    ensures
        ({
            let after = m.event_applied(EventView::Done);
            let n = m.chat.output_lines.len() as int;
            &&& after.chat.state == State::Idle
            &&& after.chat.running_started is None
            &&& after.chat.streaming_text.len() == 0
            &&& after.chat.output_lines.len() >= n
            &&& after.chat.output_lines.take(n) == m.chat.output_lines
            &&& m.chat.streaming_text.len() > 0 ==> line_is(
                after.chat.output_lines.last(),
                "text"@,
                m.chat.streaming_text,
            )
            &&& m.chat.streaming_text.len() == 0 && m.chat.stream_thinking.len() == 0
                ==> after.chat.output_lines == m.chat.output_lines
        }),
{
    reveal(TuiModel::turn_ended);
    reveal(TuiModel::flushed);
    reveal(TuiModel::say);
    reveal(TuiModel::ask);
    reveal(TuiModel::suggested);
    let after = m.event_applied(EventView::Done);
    let n = m.chat.output_lines.len() as int;
    assert(after.chat.output_lines.take(n) =~= m.chat.output_lines);
}

/// A change of provider that waited for a login goes on to that provider's
/// models where the login gave a credential, and to its API key where it did
/// not. Without such a change nothing happens.
pub proof fn law_a_login_leads_to_the_models(m: TuiModel)
    ensures
        ({
            let after = m.login_followed_up();
            let target = match m.account.pending_provider_selection {
                Some(p) => p,
                None => m.account.provider,
            };
            let signed_in = m.host.known(target).usable_credential;
            &&& !m.account.pending_model_after_auth ==> after == m
            &&& m.account.pending_model_after_auth && signed_in ==> after.pickers.show_model_picker
                && !after.account.pending_model_after_auth && after.account.awaiting_api_key
                == m.account.awaiting_api_key
            &&& m.account.pending_model_after_auth && !signed_in ==> after.account.awaiting_api_key
                && after.account.api_key_target == Some(target) && after.pickers == m.pickers
                && after.account.pending_model_after_auth
            &&& after.account.provider == m.account.provider
            &&& after.account.model == m.account.model
            &&& after.account.pending_provider_selection == m.account.pending_provider_selection
            &&& after.outbox == m.outbox
        }),
{
    reveal(TuiModel::say);
}

/// A think phase is shown by its time, in whole minutes and seconds.
pub proof fn law_thinking_time(ms: u64)
    ensures
        ({
            let label = text::thought_label(Some(ms));
            &&& ms < 100 ==> label == "Thought briefly"@
            &&& 100 <= ms < 1000 ==> label == "Thought for <1s"@
            &&& forall|s: nat|
                1 <= s < 60 && s * 1000 <= ms < s * 1000 + 1000 ==> label == "Thought for "@
                    + #[trigger] chars::decimal(s) + "s"@
            &&& forall|mins: nat, s: nat|
                mins >= 1 && 1 <= s < 60 && (mins * 60 + s) * 1000 <= ms < (mins * 60 + s) * 1000
                    + 1000 ==> label == "Thought for "@ + #[trigger] chars::decimal(mins) + "m "@
                    + #[trigger] chars::decimal(s) + "s"@
            &&& forall|mins: nat|
                mins >= 1 && mins * 60_000 <= ms < mins * 60_000 + 1000 ==> label == "Thought for "@
                    + #[trigger] chars::decimal(mins) + "m"@
        }),
{
}

/// Running time is shown in seconds up to a minute, then in minutes and two
/// digits of seconds.
pub proof fn law_running_time(ms: nat, mins: nat, s: nat)
    requires
        s < 60,
        (mins * 60 + s) * 1000 <= ms < (mins * 60 + s) * 1000 + 1000,
    ensures
        mins == 0 ==> text::elapsed_compact(ms) == chars::decimal(s) + "s"@,
        mins >= 1 && s >= 10 ==> text::elapsed_compact(ms) == chars::decimal(mins) + "m "@
            + chars::decimal(s) + "s"@,
        mins >= 1 && s < 10 ==> text::elapsed_compact(ms) == chars::decimal(mins) + "m "@ + ("0"@
            + chars::decimal(s)) + "s"@,
{
    assert(ms / 1000 == mins * 60 + s);
}

/// The age of a time is told by its two largest units: days and hours, hours
/// and minutes, or minutes; what is under a minute old, or still to come, is
/// just now.
pub proof fn law_ages(ts: nat, now: nat, d: nat, h: nat, mins: nat, s: nat)
    requires
        h < 24,
        mins < 60,
        s < 60,
        now == ts + d * 86400 + h * 3600 + mins * 60 + s,
    ensures
        d >= 1 ==> text::age(ts, now) == chars::decimal(d) + "d "@ + chars::decimal(h) + "h ago"@,
        d == 0 && h >= 1 ==> text::age(ts, now) == chars::decimal(h) + "h "@ + chars::decimal(mins)
            + "m ago"@,
        d == 0 && h == 0 && mins >= 1 ==> text::age(ts, now) == chars::decimal(mins) + "m ago"@,
        d == 0 && h == 0 && mins == 0 ==> text::age(ts, now) == "just now"@,
        text::age(now + 1, now) == "just now"@,
{
    let secs = (now - ts) as nat;
    assert(secs / 86400 == d && secs % 86400 == h * 3600 + mins * 60 + s);
    assert((h * 3600 + mins * 60 + s) / 3600 == h);
    assert(secs % 3600 == mins * 60 + s);
    assert((mins * 60 + s) / 60 == mins);
}

} // verus!
