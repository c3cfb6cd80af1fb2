//! Session snapshot, autosave, and resume.

use crate::chars;
use crate::llm;
use crate::llm::{Content, Message, ToolResult, ToolUse, Usage};
use crate::request;
use crate::request::{After, Request};
use crate::session;
use crate::session::{LiveMirror, Session};
use crate::state::{AccountView, ChatView, SavedView, Tui, TuiModel};
use crate::text;
use crate::transcript;
use crate::transcript::OutputLine;
use vstd::prelude::*;

verus! {

// ---------------------------------------------------------------------------
// What a session file holds
// ---------------------------------------------------------------------------

/// The message that a transcript line stands for, if it stands for one.
pub open spec fn line_message(l: transcript::OutputView) -> Option<llm::MessageView> {
    if l.type_ == "user"@ {
        Some(llm::MessageView { role: "user"@, content: llm::ContentView::Text(l.content) })
    } else if l.type_ == "text"@ {
        Some(llm::MessageView { role: "assistant"@, content: llm::ContentView::Text(l.content) })
    } else if l.type_ == "tool_use"@ {
        Some(
            llm::MessageView {
                role: "assistant"@,
                content: llm::ContentView::ToolUse {
                    id: seq![],
                    name: l.tool_name,
                    input: l.content,
                },
            },
        )
    } else if l.type_ == "tool_result"@ {
        Some(
            llm::MessageView {
                role: "user"@,
                content: llm::ContentView::ToolResult { tool_use_id: seq![], content: l.content },
            },
        )
    } else {
        None
    }
}

/// The messages that transcript lines stand for.
pub open spec fn line_messages(lines: Seq<transcript::OutputView>) -> Seq<llm::MessageView>
    decreases lines.len(),
{
    if lines.len() == 0 {
        seq![]
    } else {
        match line_message(lines.last()) {
            Some(m) => line_messages(lines.drop_last()).push(m),
            None => line_messages(lines.drop_last()),
        }
    }
}

/// The transcript lines that messages are shown as, and the name of the tool
/// call that still waits for its result.
pub open spec fn replayed(messages: Seq<llm::MessageView>, show_thinking: bool) -> (
    Seq<transcript::OutputView>,
    Seq<char>,
)
    decreases messages.len(),
{
    if messages.len() == 0 {
        (seq![], seq![])
    } else {
        let (lines, waiting) = replayed(messages.drop_last(), show_thinking);
        let role = messages.last().role;
        match messages.last().content {
            llm::ContentView::Text(t) => (
                lines.push(
                    transcript::plain(
                        if role == "user"@ {
                            "user"@
                        } else {
                            "text"@
                        },
                        t,
                    ),
                ),
                waiting,
            ),
            llm::ContentView::User { text, images } => (
                lines.push(transcript::plain("user"@, llm::user_label(text, images.len()))),
                waiting,
            ),
            llm::ContentView::Thinking(t) => if show_thinking {
                (lines.push(transcript::plain("thinking"@, t)), waiting)
            } else if chars::blank(t) {
                (lines, waiting)
            } else {
                (lines.push(transcript::plain("thinking_summary"@, "Thought"@)), waiting)
            },
            llm::ContentView::ToolUse { id, name, input } => (
                lines.push(transcript::about_tool("tool_use"@, input, name)),
                name,
            ),
            llm::ContentView::ToolResult { tool_use_id, content } => (
                lines.push(
                    transcript::about_tool(
                        "tool_result"@,
                        content,
                        if waiting.len() == 0 {
                            "tool"@
                        } else {
                            waiting
                        },
                    ),
                ),
                seq![],
            ),
        }
    }
}

/// How a list shows a saved session.
pub open spec fn session_row(s: session::SummaryView, now: nat) -> Seq<char> {
    let summary = text::summary_cut(s.summary, 60);
    "  "@ + session::short(s.id) + "  "@ + s.model + "  "@ + chars::decimal(s.msg_count as nat)
        + " msgs  "@ + text::age(s.updated_at as nat, now) + "\n"@ + if summary.len() == 0 {
        seq![]
    } else {
        "    "@ + summary + "\n"@
    }
}

/// How a list shows saved sessions.
pub open spec fn session_rows(list: Seq<session::SummaryView>, now: nat) -> Seq<char>
    decreases list.len(),
{
    if list.len() == 0 {
        seq![]
    } else {
        session_rows(list.drop_last(), now) + session_row(list.last(), now)
    }
}

/// The outcome of reading a session, as a value.
pub open spec fn loaded(r: Result<Session, String>) -> Result<session::SessionView, Seq<char>> {
    match r {
        Ok(s) => Ok(s@),
        Err(e) => Err(e@),
    }
}

/// The outcome of a request that gives a text, as a value.
pub open spec fn answered(r: Result<String, String>) -> Result<Seq<char>, Seq<char>> {
    match r {
        Ok(s) => Ok(s@),
        Err(e) => Err(e@),
    }
}

impl TuiModel {
    /// What there is to save: the agent's full transcript (tools included)
    /// where it holds anything, else what the transcript lines stand for.
    pub open spec fn snapshot(self) -> session::MirrorView {
        if self.saved.live_mirror is Some && self.saved.live_mirror->0.messages.len() > 0 {
            self.saved.live_mirror->0
        } else {
            session::MirrorView {
                messages: line_messages(self.chat.output_lines),
                tokens_in: self.chat.total_usage.input_tokens,
                tokens_out: self.chat.total_usage.output_tokens,
            }
        }
    }

    /// With an id and a creation time.
    pub open spec fn identified(self) -> TuiModel {
        TuiModel {
            saved: SavedView {
                current_session_id: match self.saved.current_session_id {
                    Some(id) => Some(id),
                    None => Some(self.host.fresh_session_id),
                },
                session_created_at: if self.saved.session_created_at == 0 {
                    self.host.unix_secs
                } else {
                    self.saved.session_created_at
                },
                ..self.saved
            },
            ..self
        }
    }

    /// The session file for the conversation as it is.
    pub open spec fn session_file(self) -> session::SessionView {
        let m = self.identified();
        let what = self.snapshot();
        session::SessionView {
            id: m.saved.current_session_id->0,
            model: self.account.model,
            provider: self.account.provider,
            messages: what.messages,
            tokens_in: what.tokens_in,
            tokens_out: what.tokens_out,
            created_at: m.saved.session_created_at,
            updated_at: self.host.unix_secs,
        }
    }

    /// With the conversation on its way to its file.
    pub open spec fn save_asked(self, then: After) -> TuiModel {
        self.identified().ask(
            request::RequestView::SaveSession { session: self.session_file(), then },
        )
    }

    /// With the conversation on its way to its file, where there is one.
    pub open spec fn autosaved(self, announce: bool) -> TuiModel {
        if self.snapshot().messages.len() > 0 {
            self.save_asked(
                if announce {
                    After::Announce
                } else {
                    After::Quiet
                },
            )
        } else if announce {
            self.say("system"@, "Nothing to save - no conversation yet."@)
        } else {
            self
        }
    }

    /// With a mid-turn checkpoint, unless one was written under two seconds ago.
    #[verifier::opaque]
    pub open spec fn checkpointed(self) -> TuiModel {
        if self.saved.last_checkpoint_save is Some && self.since(self.saved.last_checkpoint_save->0)
            < 2_000_000_000 {
            self
        } else {
            self.autosaved(false)
        }
    }

    /// With the outcome of a save taken in.
    pub open spec fn save_noted(
        self,
        id: Seq<char>,
        created_at: u64,
        count: nat,
        announce: bool,
        error: Option<Seq<char>>,
    ) -> TuiModel {
        match error {
            Some(e) => self.say("error"@, "Failed to save session: "@ + e),
            None => {
                let m = TuiModel {
                    saved: SavedView {
                        current_session_id: Some(id),
                        session_created_at: created_at,
                        last_checkpoint_save: Some(self.host.now_ns),
                        ..self.saved
                    },
                    ..self
                };
                if announce {
                    m.say(
                        "system"@,
                        "Session saved: "@ + session::short(id) + " ("@ + chars::decimal(count)
                            + " msgs) → "@ + self.host.sessions_dir,
                    )
                } else {
                    m
                }
            },
        }
    }

    /// With the outcome of a save taken in, and what follows it done.
    pub open spec fn save_finished(
        self,
        saved: session::SessionView,
        then: After,
        error: Option<Seq<char>>,
    ) -> TuiModel {
        let m = self.save_noted(
            saved.id,
            saved.created_at,
            saved.messages.len(),
            then == After::Announce,
            error,
        );
        match then {
            After::Discard => self,
            After::Quiet => m,
            After::Announce => m,
            After::FinishTurn => m.turn_finished(),
        }
    }

    /// With the saved sessions listed in the transcript.
    pub open spec fn sessions_listed(self) -> TuiModel {
        if self.host.sessions.len() == 0 {
            self.say("system"@, "No saved sessions."@)
        } else {
            self.say(
                "system"@,
                chars::trim_end(
                    "Saved sessions:\n"@ + session_rows(self.host.sessions, self.host.unix_secs as nat),
                ),
            )
        }
    }

    /// With the outcome of removing a session reported.
    pub open spec fn deletion_reported(self, id: Seq<char>, error: Option<Seq<char>>) -> TuiModel {
        match error {
            None => self.say("system"@, "Deleted session "@ + session::short(id) + "."@),
            Some(e) => self.say("error"@, "Failed to delete session: "@ + e),
        }
    }

    /// With the outcome of reading a session taken in.
    pub open spec fn load_finished(self, outcome: Result<session::SessionView, Seq<char>>) -> TuiModel {
        match outcome {
            Ok(s) => self.resumed(s),
            Err(e) => self.say("error"@, "Failed to load session: "@ + e),
        }
    }

    /// With the session that a query means on its way to being removed.
    pub open spec fn query_resolved(self, outcome: Result<Seq<char>, Seq<char>>) -> TuiModel {
        match outcome {
            Ok(id) => self.ask(request::RequestView::DeleteSession(id)),
            Err(e) => self.say("error"@, e),
        }
    }

    /// With a session that was read in place of the conversation.
    pub open spec fn session_taken(self, s: session::SessionView) -> TuiModel {
        TuiModel {
            chat: ChatView {
                output_lines: replayed(s.messages, self.looks.show_thinking).0,
                total_usage: Usage {
                    input_tokens: s.tokens_in,
                    output_tokens: s.tokens_out,
                    cache_read: 0,
                    cache_create: 0,
                },
                ..self.chat
            },
            saved: SavedView {
                live_mirror: match self.saved.live_mirror {
                    Some(_) => Some(
                        session::MirrorView {
                            messages: s.messages,
                            tokens_in: s.tokens_in,
                            tokens_out: s.tokens_out,
                        },
                    ),
                    None => None,
                },
                current_session_id: Some(s.id),
                session_created_at: if s.created_at > 0 {
                    s.created_at
                } else {
                    s.updated_at
                },
                ..self.saved
            },
            account: AccountView { model: s.model, provider: s.provider, ..self.account },
            ..self
        }
    }

    /// With a session that was read in place of the conversation, and the
    /// agent told of it.
    pub open spec fn resumed(self, s: session::SessionView) -> TuiModel {
        let m = self.session_taken(s);
        let m1 = if self.saved.live_mirror is Some {
            m.ask(request::RequestView::StoreMirror)
        } else {
            m
        };
        m1.to_agent("__switch__:"@ + s.provider + ":"@ + s.model).to_agent(
            "__load_session__:"@ + s.id,
        ).say(
            "system"@,
            "Resumed session "@ + session::short(s.id) + " (model: "@ + s.model + ", messages: "@
                + chars::decimal(s.messages.len()) + ")"@,
        )
    }
}

// ---------------------------------------------------------------------------
// Saving
// ---------------------------------------------------------------------------

fn message_of(l: &OutputLine) -> (r: Option<Message>)
    ensures
        match r {
            Some(m) => line_message(l@) == Some(m@),
            None => line_message(l@) is None,
        },
{
    let t = l.type_.as_str();
    if chars::str_eq(t, "user") {
        Some(Message { role: String::from_str("user"), content: Content::Text(l.content.clone()) })
    } else if chars::str_eq(t, "text") {
        Some(
            Message {
                role: String::from_str("assistant"),
                content: Content::Text(l.content.clone()),
            },
        )
    } else if chars::str_eq(t, "tool_use") {
        let id = String::new();
        assert(id@ =~= seq![]);
        Some(
            Message {
                role: String::from_str("assistant"),
                content: Content::ToolUse(
                    ToolUse { id, name: l.tool_name.clone(), input: l.content.clone() },
                ),
            },
        )
    } else if chars::str_eq(t, "tool_result") {
        let tool_use_id = String::new();
        assert(tool_use_id@ =~= seq![]);
        Some(
            Message {
                role: String::from_str("user"),
                content: Content::ToolResult(
                    ToolResult { tool_use_id, content: l.content.clone() },
                ),
            },
        )
    } else {
        None
    }
}

fn messages_of(lines: &Vec<OutputLine>) -> (r: Vec<Message>)
    ensures
        llm::messages(r@) == line_messages(transcript::outputs(lines@)),
{
    let ghost all = transcript::outputs(lines@);
    let mut out: Vec<Message> = Vec::new();
    let mut i: usize = 0;
    assert(llm::messages(out@) =~= line_messages(all.take(0)));
    while i < lines.len()
        invariant
            all == transcript::outputs(lines@),
            0 <= i <= lines@.len(),
            llm::messages(out@) == line_messages(all.take(i as int)),
        decreases lines@.len() - i,
    {
        proof {
            assert(all.take(i + 1).drop_last() =~= all.take(i as int));
            assert(all.take(i + 1).last() == lines@[i as int]@);
        }
        match message_of(&lines[i]) {
            Some(m) => {
                proof {
                    llm::lemma_messages_push(out@, m);
                }
                out.push(m);
            },
            None => {},
        }
        i = i + 1;
    }
    assert(all.take(i as int) =~= all);
    out
}

impl Tui {
    /// Prefer the agent's full transcript (tools included); fall back to transcript lines.
    pub fn session_snapshot(&self) -> (r: LiveMirror)
        ensures
            r@ == self@.snapshot(),
    {
        match &self.saved.live_mirror {
            Some(mirror) => {
                if mirror.messages.len() > 0 {
                    return LiveMirror {
                        messages: llm::clone_messages(&mirror.messages),
                        tokens_in: mirror.tokens_in,
                        tokens_out: mirror.tokens_out,
                    };
                }
            },
            None => {},
        }
        LiveMirror {
            messages: messages_of(&self.chat.output_lines),
            tokens_in: self.chat.total_usage.input_tokens,
            tokens_out: self.chat.total_usage.output_tokens,
        }
    }

    /// Ensure we have a stable session id before the first disk write so mid-turn
    /// checkpoints and the final Done save land on the same file.
    pub fn ensure_session_identity(&mut self)
        ensures
            final(self)@ == old(self)@.identified(),
            old(self)@.wf() ==> final(self)@.wf(),
    {
        if self.saved.current_session_id.is_none() {
            self.saved.current_session_id = Some(self.host.fresh_session_id.clone());
        }
        if self.saved.session_created_at == 0 {
            self.saved.session_created_at = self.host.unix_secs;
        }
    }

    /// Asks for the conversation to be written, where there is one. Says
    /// whether it did.
    pub fn queue_save(&mut self, then: After) -> (asked: bool)
        ensures
            asked == (old(self)@.snapshot().messages.len() > 0),
            final(self)@ == (if asked {
                old(self)@.save_asked(then)
            } else {
                old(self)@
            }),
            old(self)@.wf() ==> final(self)@.wf(),
    {
        let what = self.session_snapshot();
        assert(what@.messages.len() == what.messages@.len());
        if what.messages.len() == 0 {
            return false;
        }
        self.ensure_session_identity();
        let id = match &self.saved.current_session_id {
            Some(id) => id.clone(),
            None => self.host.fresh_session_id.clone(),
        };
        let session = Session {
            id,
            model: self.account.model.clone(),
            provider: self.account.provider.clone(),
            messages: what.messages,
            tokens_in: what.tokens_in,
            tokens_out: what.tokens_out,
            created_at: self.saved.session_created_at,
            updated_at: self.host.unix_secs,
        };
        self.ask(Request::SaveSession { session, then });
        true
    }

    /// Save (or update) the current session. When `announce` is true, print a
    /// system line (manual `/save`). Autosave stays quiet unless it fails.
    pub fn autosave_session(&mut self, announce: bool)
        ensures
            final(self)@ == old(self)@.autosaved(announce),
            old(self)@.wf() ==> final(self)@.wf(),
    {
        let then = if announce {
            After::Announce
        } else {
            After::Quiet
        };
        let asked = self.queue_save(then);
        if !asked && announce {
            self.say("system", "Nothing to save - no conversation yet.");
        }
    }

    pub fn save_session(&mut self)
        ensures
            final(self)@ == old(self)@.autosaved(true),
            old(self)@.wf() ==> final(self)@.wf(),
    {
        self.autosave_session(true);
    }

    /// Mid-turn durable checkpoint. Throttled so rapid tool loops do not hammer
    /// the disk, but always writes at least every few seconds while history grows.
    pub fn checkpoint_session(&mut self)
        ensures
            final(self)@ == old(self)@.checkpointed(),
            old(self)@.wf() ==> final(self)@.wf(),
    {
        proof {
            reveal(TuiModel::checkpointed);
        }
        match self.saved.last_checkpoint_save {
            Some(last) => {
                if self.since(last) < 2_000_000_000 {
                    return;
                }
            },
            None => {},
        }
        self.autosave_session(false);
    }

    fn note_save(
        &mut self,
        id: &str,
        created_at: u64,
        count: usize,
        announce: bool,
        result: &Result<(), String>,
    )
        ensures
            final(self)@ == old(self)@.save_noted(
                id@,
                created_at,
                count as nat,
                announce,
                crate::preferences::failure(*result),
            ),
            old(self)@.wf() ==> final(self)@.wf(),
    {
        match result {
            Err(e) => {
                // Always surface write failures (including silent autosave).
                let content = chars::cat2("Failed to save session: ", e.as_str());
                self.say("error", content.as_str());
            },
            Ok(_) => {
                self.saved.current_session_id = Some(String::from_str(id));
                self.saved.session_created_at = created_at;
                self.saved.last_checkpoint_save = Some(self.host.now_ns);
                if announce {
                    let short = session::short_id(id);
                    let n = chars::count_string(count);
                    let lead = chars::cat4("Session saved: ", short.as_str(), " (", n.as_str());
                    let content = chars::cat3(
                        lead.as_str(),
                        " msgs) → ",
                        self.host.sessions_dir.as_str(),
                    );
                    self.say("system", content.as_str());
                }
            },
        }
    }

    /// Takes in the outcome of writing a session.
    pub fn session_saved(&mut self, saved: &Session, then: After, result: Result<(), String>)
        ensures
            final(self)@ == old(self)@.save_finished(
                saved@,
                then,
                crate::preferences::failure(result),
            ),
            old(self)@.wf() ==> final(self)@.wf(),
    {
        if then == After::Discard {
            return;
        }
        self.note_save(
            saved.id.as_str(),
            saved.created_at,
            saved.messages.len(),
            then == After::Announce,
            &result,
        );
        if then == After::FinishTurn {
            self.finish_turn();
        }
    }

    pub fn list_sessions(&mut self)
        ensures
            final(self)@ == old(self)@.sessions_listed(),
            old(self)@.wf() ==> final(self)@.wf(),
    {
        if self.host.sessions.len() == 0 {
            self.say("system", "No saved sessions.");
            return;
        }
        let rows = rows_text(&self.host.sessions, self.host.unix_secs);
        let body = chars::cat2("Saved sessions:\n", rows.as_str());
        let content = chars::trimmed_end(body.as_str());
        self.say("system", content.as_str());
    }

    /// Asks for a session to be removed.
    pub fn delete_session(&mut self, id: &str)
        ensures
            final(self)@ == old(self)@.ask(request::RequestView::DeleteSession(id@)),
            old(self)@.wf() ==> final(self)@.wf(),
    {
        self.ask(Request::DeleteSession(String::from_str(id)));
    }

    /// Takes in the outcome of removing a session.
    pub fn session_deleted(&mut self, id: &str, result: Result<(), String>)
        ensures
            final(self)@ == old(self)@.deletion_reported(
                id@,
                crate::preferences::failure(result),
            ),
            old(self)@.wf() ==> final(self)@.wf(),
    {
        match result {
            Ok(_) => {
                let short = session::short_id(id);
                let content = chars::cat3("Deleted session ", short.as_str(), ".");
                self.say("system", content.as_str());
            },
            Err(e) => {
                let content = chars::cat2("Failed to delete session: ", e.as_str());
                self.say("error", content.as_str());
            },
        }
    }

    /// Takes in which session a query means, for it to be removed.
    pub fn session_resolved(&mut self, result: Result<String, String>)
        ensures
            final(self)@ == old(self)@.query_resolved(answered(result)),
            old(self)@.wf() ==> final(self)@.wf(),
    {
        match result {
            Ok(id) => self.delete_session(id.as_str()),
            Err(e) => self.say("error", e.as_str()),
        }
    }

    /// Asks for a session to be read.
    pub fn resume_session(&mut self, id: &str)
        ensures
            final(self)@ == old(self)@.ask(request::RequestView::LoadSession(id@)),
            old(self)@.wf() ==> final(self)@.wf(),
    {
        self.ask(Request::LoadSession(String::from_str(id)));
    }

    fn take_session(&mut self, s: &Session)
        ensures
            final(self)@ == old(self)@.session_taken(s@),
            old(self)@.wf() ==> final(self)@.wf(),
    {
        // Rebuild the transcript including tool calls/results for continuity.
        self.chat.output_lines = replay(&s.messages, self.looks.show_thinking);
        self.chat.total_usage =
        Usage {
            input_tokens: s.tokens_in,
            output_tokens: s.tokens_out,
            cache_read: 0,
            cache_create: 0,
        };
        // Seed the live mirror so the next autosave keeps full history.
        if self.saved.live_mirror.is_some() {
            self.saved.live_mirror =
            Some(
                LiveMirror {
                    messages: llm::clone_messages(&s.messages),
                    tokens_in: s.tokens_in,
                    tokens_out: s.tokens_out,
                },
            );
        }
        self.saved.current_session_id = Some(s.id.clone());
        self.saved.session_created_at = if s.created_at > 0 {
            s.created_at
        } else {
            s.updated_at
        };
        self.account.model = s.model.clone();
        self.account.provider = s.provider.clone();
    }

    fn resume_from(&mut self, s: &Session)
        ensures
            final(self)@ == old(self)@.resumed(s@),
            old(self)@.wf() ==> final(self)@.wf(),
    {
        let mirrored = self.saved.live_mirror.is_some();
        self.take_session(s);
        if mirrored {
            self.ask(Request::StoreMirror);
        }
        let switch = chars::cat4("__switch__:", s.provider.as_str(), ":", s.model.as_str());
        self.to_agent(switch.as_str());
        let load = chars::cat2("__load_session__:", s.id.as_str());
        self.to_agent(load.as_str());
        let short = session::short_id(s.id.as_str());
        let n = chars::count_string(s.messages.len());
        let lead = chars::cat4("Resumed session ", short.as_str(), " (model: ", s.model.as_str());
        let content = chars::cat4(lead.as_str(), ", messages: ", n.as_str(), ")");
        assert(s@.messages.len() == s.messages@.len());
        self.say("system", content.as_str());
    }

    /// Takes in the outcome of reading a session.
    pub fn session_loaded(&mut self, result: Result<Session, String>)
        ensures
            final(self)@ == old(self)@.load_finished(loaded(result)),
            old(self)@.wf() ==> final(self)@.wf(),
    {
        match result {
            Ok(s) => self.resume_from(&s),
            Err(e) => {
                let content = chars::cat2("Failed to load session: ", e.as_str());
                self.say("error", content.as_str());
            },
        }
    }
}

fn row_text(s: &crate::session::SessionSummary, now: u64) -> (r: String)
    ensures
        r@ == session_row(s@, now as nat),
{
    let short = session::short_id(s.id.as_str());
    let summary = text::truncate_summary(s.summary.as_str(), 60);
    let n = chars::count_string(s.msg_count);
    let age = text::format_timestamp(s.updated_at, now);
    let lead = chars::cat5("  ", short.as_str(), "  ", s.model.as_str(), "  ");
    let head = chars::cat5(lead.as_str(), n.as_str(), " msgs  ", age.as_str(), "\n");
    if summary.as_str().is_empty() {
        assert(head@ + Seq::<char>::empty() =~= head@);
        return head;
    }
    let tail = chars::cat3("    ", summary.as_str(), "\n");
    chars::cat2(head.as_str(), tail.as_str())
}

fn rows_text(list: &Vec<crate::session::SessionSummary>, now: u64) -> (r: String)
    ensures
        r@ == session_rows(session::summaries(list@), now as nat),
{
    let ghost all = session::summaries(list@);
    let mut out = String::new();
    let mut i: usize = 0;
    assert(out@ =~= session_rows(all.take(0), now as nat));
    while i < list.len()
        invariant
            all == session::summaries(list@),
            0 <= i <= list@.len(),
            out@ == session_rows(all.take(i as int), now as nat),
        decreases list@.len() - i,
    {
        proof {
            assert(all.take(i + 1).drop_last() =~= all.take(i as int));
            assert(all.take(i + 1).last() == list@[i as int]@);
        }
        let row = row_text(&list[i], now);
        out.append(row.as_str());
        i = i + 1;
    }
    assert(all.take(i as int) =~= all);
    out
}

/// The transcript lines that messages are shown as. Each tool result gets the
/// name of the tool call before it, so compact display rules still apply
/// (results alone have no name).
fn replay(messages: &Vec<Message>, show_thinking: bool) -> (r: Vec<OutputLine>)
    ensures
        transcript::outputs(r@) == replayed(llm::messages(messages@), show_thinking).0,
{
    let ghost all = llm::messages(messages@);
    let mut out: Vec<OutputLine> = Vec::new();
    let mut waiting = String::new();
    let mut i: usize = 0;
    proof {
        assert(transcript::outputs(out@) =~= replayed(all.take(0), show_thinking).0);
        assert(waiting@ =~= replayed(all.take(0), show_thinking).1);
    }
    while i < messages.len()
        invariant
            all == llm::messages(messages@),
            0 <= i <= messages@.len(),
            transcript::outputs(out@) == replayed(all.take(i as int), show_thinking).0,
            waiting@ == replayed(all.take(i as int), show_thinking).1,
        decreases messages@.len() - i,
    {
        proof {
            assert(all.take(i + 1).drop_last() =~= all.take(i as int));
            assert(all.take(i + 1).last() == messages@[i as int]@);
        }
        match &messages[i].content {
            Content::Text(t) => {
                let type_ = if chars::str_eq(messages[i].role.as_str(), "user") {
                    "user"
                } else {
                    "text"
                };
                let l = transcript::plain_line(type_, t.as_str());
                proof {
                    transcript::lemma_outputs_push(out@, l);
                }
                out.push(l);
            },
            Content::User(blocks) => {
                let label = blocks.display_label();
                let l = transcript::plain_line("user", label.as_str());
                proof {
                    transcript::lemma_outputs_push(out@, l);
                    assert(llm::images(blocks.images@).len() == blocks.images@.len());
                }
                out.push(l);
            },
            Content::Thinking(t) => {
                if show_thinking {
                    let l = transcript::plain_line("thinking", t.as_str());
                    proof {
                        transcript::lemma_outputs_push(out@, l);
                    }
                    out.push(l);
                } else if !chars::is_blank(t.as_str()) {
                    // Hidden mode: keep a marker, not the body.
                    let l = transcript::plain_line("thinking_summary", "Thought");
                    proof {
                        transcript::lemma_outputs_push(out@, l);
                    }
                    out.push(l);
                }
            },
            Content::ToolUse(tu) => {
                let l = transcript::tool_line("tool_use", tu.input.as_str(), tu.name.as_str());
                proof {
                    transcript::lemma_outputs_push(out@, l);
                }
                out.push(l);
                waiting = tu.name.clone();
            },
            Content::ToolResult(tr) => {
                let name = if waiting.as_str().is_empty() {
                    "tool"
                } else {
                    waiting.as_str()
                };
                let l = transcript::tool_line("tool_result", tr.content.as_str(), name);
                proof {
                    transcript::lemma_outputs_push(out@, l);
                }
                out.push(l);
                waiting = String::new();
                assert(waiting@ =~= seq![]);
            },
        }
        i = i + 1;
    }
    assert(all.take(i as int) =~= all);
    out
}

// ---------------------------------------------------------------------------
// Laws
// ---------------------------------------------------------------------------

/// The name that the result of a tool call still waits for.
pub open spec fn waiting_tool(lines: Seq<transcript::OutputView>) -> Seq<char>
    decreases lines.len(),
{
    if lines.len() == 0 {
        seq![]
    } else if lines.last().type_ == "tool_use"@ {
        lines.last().tool_name
    } else if lines.last().type_ == "tool_result"@ {
        seq![]
    } else {
        waiting_tool(lines.drop_last())
    }
}

/// Whether a transcript is a bare conversation: prompts, answers, tool calls,
/// and tool results under the name of the call that they belong to.
pub open spec fn bare_conversation(lines: Seq<transcript::OutputView>) -> bool
    decreases lines.len(),
{
    lines.len() == 0 || {
        let before = lines.drop_last();
        let l = lines.last();
        &&& bare_conversation(before)
        &&& l.duration.len() == 0
        &&& {
            ||| (l.type_ == "user"@ || l.type_ == "text"@) && l.tool_name.len() == 0
            ||| l.type_ == "tool_use"@
            ||| l.type_ == "tool_result"@ && l.tool_name == (if waiting_tool(before).len() == 0 {
                "tool"@
            } else {
                waiting_tool(before)
            })
        }
    }
}

proof fn lemma_type_names()
    ensures
        "user"@ != "text"@,
        "user"@ != "tool_use"@,
        "user"@ != "tool_result"@,
        "text"@ != "tool_use"@,
        "text"@ != "tool_result"@,
        "tool_use"@ != "tool_result"@,
        "user"@ != "assistant"@,
{
    reveal_strlit("user");
    reveal_strlit("text");
    reveal_strlit("tool_use");
    reveal_strlit("tool_result");
    reveal_strlit("assistant");
    assert("user"@[0] != "text"@[0]);
    assert("tool_use"@.len() != "tool_result"@.len());
}

/// A bare conversation that is saved from the transcript and read back shows
/// the same transcript.
pub proof fn law_saved_conversation_reads_back(
    lines: Seq<transcript::OutputView>,
    show_thinking: bool,
)
    requires
        bare_conversation(lines),
    ensures
        replayed(line_messages(lines), show_thinking).0 == lines,
        replayed(line_messages(lines), show_thinking).1 == waiting_tool(lines),
    decreases lines.len(),
{
    if lines.len() > 0 {
        let before = lines.drop_last();
        let l = lines.last();
        law_saved_conversation_reads_back(before, show_thinking);
        lemma_type_names();
        let ms = line_messages(before);
        let m = line_message(l)->0;
        assert(line_message(l) is Some);
        assert(ms.push(m).drop_last() =~= ms);
        assert(l.duration =~= seq![]);
        if l.type_ == "user"@ || l.type_ == "text"@ {
            assert(l.tool_name =~= seq![]);
        }
        assert(before.push(l) =~= lines);
    }
}

/// The id and the creation time of a session, once given, stay.
pub proof fn law_session_identity_is_stable(m: TuiModel, then: After)
    ensures
        m.identified().identified() == m.identified(),
        m.save_asked(then).session_file().id == m.session_file().id,
        m.save_asked(then).session_file().created_at == m.session_file().created_at,
        m.saved.current_session_id is Some ==> m.session_file().id == m.saved.current_session_id->0,
{
    reveal(TuiModel::ask);
}

/// After a session is read, the next save writes its whole history under its
/// id, where the agent's transcript is mirrored.
pub proof fn law_resumed_history_is_kept(m: TuiModel, s: session::SessionView)
    requires
        m.saved.live_mirror is Some,
        s.messages.len() > 0,
    ensures
        m.resumed(s).snapshot().messages == s.messages,
        m.resumed(s).snapshot().tokens_in == s.tokens_in,
        m.resumed(s).snapshot().tokens_out == s.tokens_out,
        m.resumed(s).session_file().id == s.id,
        m.resumed(s).session_file().model == s.model,
        m.resumed(s).session_file().provider == s.provider,
{
    reveal(TuiModel::ask);
    reveal(TuiModel::say);
    reveal(TuiModel::to_agent);
}

/// Under two seconds after a save, a checkpoint writes nothing.
pub proof fn law_checkpoints_are_throttled(
    m: TuiModel,
    id: Seq<char>,
    created_at: u64,
    count: nat,
    announce: bool,
    h: crate::host::HostView,
)
    requires
        m.host.now_ns <= h.now_ns < m.host.now_ns + 2_000_000_000,
    ensures
        ({
            let later = TuiModel { host: h, ..m.save_noted(id, created_at, count, announce, None) };
            later.checkpointed() == later
        }),
{
    reveal(TuiModel::say);
    reveal(TuiModel::checkpointed);
}

/// A save that failed leaves the session's identity as it was.
pub proof fn law_failed_save_keeps_identity(
    m: TuiModel,
    id: Seq<char>,
    created_at: u64,
    count: nat,
    announce: bool,
    error: Seq<char>,
)
    ensures
        m.save_noted(id, created_at, count, announce, Some(error)) == m.say(
            "error"@,
            "Failed to save session: "@ + error,
        ),
{
}

} // verus!
