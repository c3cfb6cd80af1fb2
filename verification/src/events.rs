//! Events that the agent sends while a turn runs, events of the terminal, and
//! the pace of the loop.

use crate::chars;
use crate::keys::{KeyEvent, MouseEvent};
use crate::llm::Usage;
use crate::request;
use crate::request::{After, Request, Sound};
use crate::state::{AccountView, ChatView, PermissionView, PromptsView, State, Tui, TuiModel};
use crate::transcript;
use vstd::prelude::*;

verus! {

/// What the agent reports while a turn runs.
#[derive(Debug, PartialEq, Eq)]
pub enum AgentEvent {
    Text(String),
    Thinking(String),
    /// A tool's name and input.
    ToolUse(String, String),
    /// A tool's name, input and output.
    ToolResult(String, String, String),
    /// A failure, as it is and as it may be shown.
    Error { message: String, redacted: String },
    /// A tool's name and input.
    PermissionRequest(String, String),
    TurnEnd(Usage),
    /// How many messages were summarized.
    Compacted(usize),
    Checkpoint,
    Done,
}

/// The mathematical value of an [`AgentEvent`].
pub enum EventView {
    Text(Seq<char>),
    Thinking(Seq<char>),
    ToolUse(Seq<char>, Seq<char>),
    ToolResult(Seq<char>, Seq<char>, Seq<char>),
    Error { message: Seq<char>, redacted: Seq<char> },
    PermissionRequest(Seq<char>, Seq<char>),
    TurnEnd(Usage),
    Compacted(usize),
    Checkpoint,
    Done,
}

impl View for AgentEvent {
    type V = EventView;

    open spec fn view(&self) -> EventView {
        match self {
            AgentEvent::Text(t) => EventView::Text(t@),
            AgentEvent::Thinking(t) => EventView::Thinking(t@),
            AgentEvent::ToolUse(n, i) => EventView::ToolUse(n@, i@),
            AgentEvent::ToolResult(n, i, o) => EventView::ToolResult(n@, i@, o@),
            AgentEvent::Error { message, redacted } => EventView::Error {
                message: message@,
                redacted: redacted@,
            },
            AgentEvent::PermissionRequest(n, i) => EventView::PermissionRequest(n@, i@),
            AgentEvent::TurnEnd(u) => EventView::TurnEnd(*u),
            AgentEvent::Compacted(n) => EventView::Compacted(*n),
            AgentEvent::Checkpoint => EventView::Checkpoint,
            AgentEvent::Done => EventView::Done,
        }
    }
}

impl TuiModel {
    /// With a line about a tool at the end of the transcript.
    #[verifier::opaque]
    pub open spec fn tool_said(
        self,
        type_: Seq<char>,
        content: Seq<char>,
        tool: Seq<char>,
    ) -> TuiModel {
        TuiModel {
            chat: ChatView {
                output_lines: self.chat.output_lines.push(transcript::about_tool(type_, content, tool)),
                ..self.chat
            },
            ..self
        }
    }

    /// With more of the answer streamed.
    #[verifier::opaque]
    pub open spec fn text_streamed(self, t: Seq<char>) -> TuiModel {
        TuiModel {
            chat: ChatView { streaming_text: self.chat.streaming_text + t, ..self.chat },
            ..self
        }
    }

    /// With more thinking streamed.
    #[verifier::opaque]
    pub open spec fn thinking_streamed(self, t: Seq<char>) -> TuiModel {
        TuiModel {
            chat: ChatView {
                thinking_started: match self.chat.thinking_started {
                    Some(at) => Some(at),
                    None => Some(self.host.now_ns),
                },
                stream_thinking: self.chat.stream_thinking + t,
                ..self.chat
            },
            ..self
        }
    }

    /// With a failure shown. A failure of the language model also offers a
    /// manual switch of model or provider; no other failure does.
    #[verifier::opaque]
    pub open spec fn failed(self, message: Seq<char>, redacted: Seq<char>) -> TuiModel {
        let m = self.flushed().say("error"@, redacted);
        if chars::begins(message, "LLM error:"@) {
            (TuiModel {
                prompts: PromptsView {
                    show_recovery_prompt: true,
                    recovery_selection: 0,
                    ..m.prompts
                },
                ..m
            }).ask(
                request::RequestView::Notify(Sound::Attention),
            ).suggested()
        } else {
            m
        }
    }

    /// With a tool's permission prompt open on Yes.
    #[verifier::opaque]
    pub open spec fn permission_asked(self, name: Seq<char>, input: Seq<char>) -> TuiModel {
        let m = self.flushed();
        (TuiModel {
            permission: PermissionView {
                show_permission_prompt: true,
                perm_tool_name: name,
                perm_tool_input: input,
                perm_selection: 0,
                perm_discuss_buf: seq![],
                perm_discuss_cursor: 0,
                ..m.permission
            },
            ..m
        }).ask(request::RequestView::Notify(Sound::Attention)).suggested()
    }

    /// With a turn's tokens counted.
    #[verifier::opaque]
    pub open spec fn usage_counted(self, u: Usage) -> TuiModel {
        TuiModel {
            chat: ChatView {
                total_usage: Usage {
                    input_tokens: (self.chat.total_usage.input_tokens + u.input_tokens) as u64,
                    output_tokens: (self.chat.total_usage.output_tokens + u.output_tokens) as u64,
                    ..self.chat.total_usage
                },
                ..self.chat
            },
            ..self
        }
    }

    /// With a compaction noted.
    #[verifier::opaque]
    pub open spec fn compacted(self, n: nat) -> TuiModel {
        self.flushed().say(
            "system"@,
            "Compacted "@ + chars::decimal(n) + " earlier messages into a summary."@,
        )
    }

    /// With a tool call shown.
    #[verifier::opaque]
    pub open spec fn tool_called(self, name: Seq<char>, input: Seq<char>) -> TuiModel {
        self.flushed().tool_said("tool_use"@, input, name)
    }

    /// With a turn over: idle, saved, and wound up after that.
    #[verifier::opaque]
    pub open spec fn turn_ended(self) -> TuiModel {
        let m = self.flushed();
        let m1 = TuiModel {
            chat: ChatView { state: State::Idle, running_started: None, ..m.chat },
            ..m
        };
        if m1.snapshot().messages.len() > 0 {
            m1.save_asked(After::FinishTurn)
        } else {
            m1.turn_finished()
        }
    }

    /// With an event of the agent taken in.
    pub open spec fn event_applied(self, e: EventView) -> TuiModel {
        match e {
            EventView::Text(t) => self.text_streamed(t),
            EventView::Thinking(t) => self.thinking_streamed(t),
            EventView::ToolUse(name, input) => self.tool_called(name, input),
            EventView::ToolResult(name, _, output) => self.tool_said(
                "tool_result"@,
                output,
                name,
            ),
            EventView::Error { message, redacted } => self.failed(message, redacted),
            EventView::PermissionRequest(name, input) => self.permission_asked(name, input),
            EventView::TurnEnd(u) => self.usage_counted(u),
            EventView::Compacted(n) => self.compacted(n as nat),
            EventView::Checkpoint => self.checkpointed(),
            EventView::Done => self.turn_ended(),
        }
    }

    /// Whether the token counts have room for an event.
    pub open spec fn has_room_for(self, e: EventView) -> bool {
        e matches EventView::TurnEnd(u) ==> {
            &&& self.chat.total_usage.input_tokens + u.input_tokens <= u64::MAX
            &&& self.chat.total_usage.output_tokens + u.output_tokens <= u64::MAX
        }
    }

    /// With the end of a turn announced, unless a prompt has already.
    pub open spec fn turn_announced(self) -> TuiModel {
        if !self.chat.expect_turn_notify {
            self
        } else if self.permission.show_permission_prompt || self.prompts.show_recovery_prompt {
            TuiModel {
                chat: ChatView { expect_turn_notify: false, ..self.chat },
                ..self
            }
        } else {
            (TuiModel {
                chat: ChatView { expect_turn_notify: false, ..self.chat },
                ..self
            }).ask(
                request::RequestView::Notify(Sound::Done),
            )
        }
    }

    /// With the change of provider that waited for a login carried on: to the
    /// model list, or to an API key where the login failed.
    pub open spec fn login_followed_up(self) -> TuiModel {
        let target = self.target_provider();
        if !self.account.pending_model_after_auth {
            self
        } else if self.host.known(target).usable_credential {
            (TuiModel {
                account: AccountView { pending_model_after_auth: false, ..self.account },
                ..self
            }).say(
                "system"@,
                "Signed in to "@ + target + ". Choose a model."@,
            ).model_picker_opened()
        } else {
            self.say(
                "system"@,
                "OAuth for "@ + target
                    + " did not complete. Paste an API key below, or run `/auth login "@ + target
                    + "` again."@,
            ).api_key_prompted(target)
        }
    }

    /// With a turn wound up, once the conversation is saved.
    pub open spec fn turn_finished(self) -> TuiModel {
        self.turn_announced().suggested().login_followed_up()
    }
}

impl Tui {
    fn announce_turn(&mut self)
        ensures
            final(self)@ == old(self)@.turn_announced(),
            old(self)@.wf() ==> final(self)@.wf(),
    {
        if self.chat.expect_turn_notify {
            self.chat.expect_turn_notify = false;
            // Permission/recovery already beeped Attention; skip double tone.
            if !self.permission.show_permission_prompt && !self.prompts.show_recovery_prompt {
                self.ask(Request::Notify(Sound::Done));
            }
        }
    }

    fn follow_up_login(&mut self)
        ensures
            final(self)@ == old(self)@.login_followed_up(),
            old(self)@.wf() ==> final(self)@.wf(),
    {
        if !self.account.pending_model_after_auth {
            return;
        }
        let target = match &self.account.pending_provider_selection {
            Some(p) => p.clone(),
            None => self.account.provider.clone(),
        };
        if self.host.known_of(target.as_str()).usable_credential {
            // Signed in - now pick a model (live catalog available).
            self.account.pending_model_after_auth = false;
            let content = chars::cat3("Signed in to ", target.as_str(), ". Choose a model.");
            self.say("system", content.as_str());
            self.open_model_picker();
        } else {
            // OAuth failed; keep pending so API key still continues to model picker.
            let content = chars::cat5(
                "OAuth for ",
                target.as_str(),
                " did not complete. Paste an API key below, or run `/auth login ",
                target.as_str(),
                "` again.",
            );
            self.say("system", content.as_str());
            self.begin_api_key_prompt(target.as_str());
        }
    }

    /// Winds a turn up, once the conversation is saved.
    pub fn finish_turn(&mut self)
        ensures
            final(self)@ == old(self)@.turn_finished(),
            old(self)@.wf() ==> final(self)@.wf(),
    {
        self.announce_turn();
        self.refresh_idle_suggestion();
        self.follow_up_login();
    }

    fn say_tool(&mut self, type_: &str, content: &str, tool: &str)
        ensures
            final(self)@ == old(self)@.tool_said(type_@, content@, tool@),
            old(self)@.wf() ==> final(self)@.wf(),
    {
        proof {
            reveal(TuiModel::tool_said);
        }
        let l = transcript::tool_line(type_, content, tool);
        self.add_output_line(l);
    }

    fn show_call(&mut self, name: &str, input: &str)
        ensures
            final(self)@ == old(self)@.tool_called(name@, input@),
            old(self)@.wf() ==> final(self)@.wf(),
    {
        proof {
            reveal(TuiModel::tool_called);
        }
        self.flush_streaming();
        self.say_tool("tool_use", input, name);
    }

    fn stream_text(&mut self, t: &str)
        ensures
            final(self)@ == old(self)@.text_streamed(t@),
            old(self)@.wf() ==> final(self)@.wf(),
    {
        proof {
            reveal(TuiModel::text_streamed);
        }
        self.chat.streaming_text = chars::cat2(self.chat.streaming_text.as_str(), t);
    }

    fn count_usage(&mut self, u: Usage)
        requires
            old(self)@.has_room_for(EventView::TurnEnd(u)),
        ensures
            final(self)@ == old(self)@.usage_counted(u),
            old(self)@.wf() ==> final(self)@.wf(),
    {
        proof {
            reveal(TuiModel::usage_counted);
        }
        let input_tokens = self.chat.total_usage.input_tokens + u.input_tokens;
        let output_tokens = self.chat.total_usage.output_tokens + u.output_tokens;
        self.chat.total_usage = Usage { input_tokens, output_tokens, ..self.chat.total_usage };
    }

    fn note_compaction(&mut self, n: usize)
        ensures
            final(self)@ == old(self)@.compacted(n as nat),
            old(self)@.wf() ==> final(self)@.wf(),
    {
        proof {
            reveal(TuiModel::compacted);
        }
        self.flush_streaming();
        let count = chars::count_string(n);
        let content = chars::cat3(
            "Compacted ",
            count.as_str(),
            " earlier messages into a summary.",
        );
        self.say("system", content.as_str());
    }

    fn stream_thinking(&mut self, t: &str)
        ensures
            final(self)@ == old(self)@.thinking_streamed(t@),
            old(self)@.wf() ==> final(self)@.wf(),
    {
        proof {
            reveal(TuiModel::thinking_streamed);
        }
        if self.chat.thinking_started.is_none() {
            self.chat.thinking_started = Some(self.host.now_ns);
        }
        self.chat.stream_thinking = chars::cat2(self.chat.stream_thinking.as_str(), t);
    }

    fn show_failure(&mut self, message: &str, redacted: &str)
        ensures
            final(self)@ == old(self)@.failed(message@, redacted@),
            old(self)@.wf() ==> final(self)@.wf(),
    {
        proof {
            reveal(TuiModel::failed);
        }
        self.flush_streaming();
        self.say("error", redacted);
        // Offer a manual model/provider switch after LLM failures only
        // (not for compact/session errors). Never silent multi-provider fallback.
        if chars::starts_with(message, "LLM error:") {
            self.prompts.show_recovery_prompt = true;
            self.prompts.recovery_selection = 0;
            self.ask(Request::Notify(Sound::Attention));
            self.refresh_idle_suggestion();
        }
    }

    fn ask_permission(&mut self, name: String, input: String)
        ensures
            final(self)@ == old(self)@.permission_asked(name@, input@),
            old(self)@.wf() ==> final(self)@.wf(),
    {
        proof {
            reveal(TuiModel::permission_asked);
        }
        self.flush_streaming();
        self.permission =
        crate::state::Permission {
            show_permission_prompt: true,
            perm_tool_name: name,
            perm_tool_input: input,
            perm_selection: 0,
            perm_discuss_buf: String::new(),
            perm_discuss_cursor: 0,
        };
        proof {
            assert(self.permission@.perm_discuss_buf =~= seq![]);
            chars::lemma_boundary_ends(Seq::<char>::empty());
        }
        self.ask(Request::Notify(Sound::Attention));
        self.refresh_idle_suggestion();
    }

    fn end_turn(&mut self)
        ensures
            final(self)@ == old(self)@.turn_ended(),
            old(self)@.wf() ==> final(self)@.wf(),
    {
        proof {
            reveal(TuiModel::turn_ended);
        }
        self.flush_streaming();
        self.chat.state = State::Idle;
        self.chat.running_started = None;
        // Always flush on turn end (bypass throttle).
        let asked = self.queue_save(After::FinishTurn);
        if !asked {
            self.finish_turn();
        }
    }

    /// Takes in an event of the agent.
    pub fn apply_event(&mut self, event: AgentEvent)
        requires
            old(self)@.has_room_for(event@),
        ensures
            final(self)@ == old(self)@.event_applied(event@),
            old(self)@.wf() ==> final(self)@.wf(),
    {
        match event {
            AgentEvent::Text(t) => self.stream_text(t.as_str()),
            AgentEvent::Thinking(t) => self.stream_thinking(t.as_str()),
            AgentEvent::ToolUse(name, input) => self.show_call(name.as_str(), input.as_str()),
            AgentEvent::ToolResult(name, _, output) => self.say_tool(
                "tool_result",
                output.as_str(),
                name.as_str(),
            ),
            AgentEvent::Error { message, redacted } => self.show_failure(
                message.as_str(),
                redacted.as_str(),
            ),
            AgentEvent::PermissionRequest(name, input) => self.ask_permission(name, input),
            AgentEvent::TurnEnd(u) => self.count_usage(u),
            AgentEvent::Compacted(n) => self.note_compaction(n),
            AgentEvent::Checkpoint => self.checkpoint_session(),
            AgentEvent::Done => self.end_turn(),
        }
    }
}

// ---------------------------------------------------------------------------
// The pace of the loop
// ---------------------------------------------------------------------------

/// Nanoseconds between spinner frames. Faster ticks look like flicker; slower
/// feels sticky.
pub const SPINNER_INTERVAL: u64 = 83_333_333;

/// Nanoseconds between full-frame redraws while the agent runs. Without this,
/// token-rate redraws thrash the terminal around the spinner.
pub const MIN_FRAME: u64 = 16_000_000;

/// What is left of `whole` after `part`.
pub open spec fn remaining(whole: u64, part: u64) -> u64 {
    if part <= whole {
        (whole - part) as u64
    } else {
        0
    }
}

fn time_left(whole: u64, part: u64) -> (r: u64)
    ensures
        r == remaining(whole, part),
{
    if part <= whole {
        whole - part
    } else {
        0
    }
}

/// How long to wait for input before the next useful wake.
pub open spec fn wait_time(dirty: bool, since_spinner: u64, since_draw: u64) -> u64 {
    if dirty {
        remaining(MIN_FRAME, since_draw)
    } else if remaining(SPINNER_INTERVAL, since_spinner) <= MIN_FRAME {
        remaining(SPINNER_INTERVAL, since_spinner)
    } else {
        MIN_FRAME
    }
}

/// A wait never outlasts a frame, so streamed text still drains at the frame
/// rate; and it ends no later than the spinner's next frame when nothing waits
/// to be drawn.
pub proof fn law_waits_are_short(dirty: bool, since_spinner: u64, since_draw: u64)
    ensures
        wait_time(dirty, since_spinner, since_draw) <= MIN_FRAME,
        !dirty && since_spinner <= SPINNER_INTERVAL ==> since_spinner + wait_time(
            dirty,
            since_spinner,
            since_draw,
        ) <= SPINNER_INTERVAL,
{
}

impl Tui {
    /// Whether the loop should block on input: nothing waits to be drawn.
    pub fn blocks_on_input(&self, needs_rebuild: bool) -> (r: bool)
        ensures
            r == (self@.chat.state == State::Idle && !self.dirty && !needs_rebuild),
            self@.chat.state == State::Running || self.dirty || needs_rebuild ==> !r,
    {
        self.chat.state == State::Idle && !self.dirty && !needs_rebuild
    }

    /// Advances the spinner when its time has come. Says whether it did.
    pub fn advance_spinner(&mut self, since_spinner: u64) -> (advanced: bool)
        ensures
            advanced == (since_spinner >= SPINNER_INTERVAL),
            final(self)@ == (if advanced {
                TuiModel {
                    chat: ChatView {
                        spinner_idx: if old(self)@.chat.spinner_idx == usize::MAX {
                            0
                        } else {
                            (old(self)@.chat.spinner_idx + 1) as usize
                        },
                        ..old(self)@.chat
                    },
                    dirty: true,
                    ..old(self)@
                }
            } else {
                old(self)@
            }),
            old(self)@.wf() ==> final(self)@.wf(),
    {
        if since_spinner < SPINNER_INTERVAL {
            return false;
        }
        self.chat.spinner_idx = if self.chat.spinner_idx == usize::MAX {
            0
        } else {
            self.chat.spinner_idx + 1
        };
        self.dirty = true;
        true
    }

    /// How long to wait for input before the next useful wake.
    pub fn poll_wait(&self, since_spinner: u64, since_draw: u64) -> (r: u64)
        ensures
            r == wait_time(self.dirty, since_spinner, since_draw),
    {
        if self.dirty {
            time_left(MIN_FRAME, since_draw)
        } else {
            let until_spinner = time_left(SPINNER_INTERVAL, since_spinner);
            if until_spinner <= MIN_FRAME {
                until_spinner
            } else {
                MIN_FRAME
            }
        }
    }

    /// Whether to draw now. While Running, draws are held back to the frame
    /// rate; idle always paints immediately so keystrokes stay snappy.
    pub fn draws_now(&self, since_draw: u64) -> (r: bool)
        ensures
            r == (self.dirty && !(self@.chat.state == State::Running && since_draw < MIN_FRAME)),
            !self.dirty ==> !r,
            self.dirty && self@.chat.state == State::Idle ==> r,
            self.dirty && since_draw >= MIN_FRAME ==> r,
    {
        self.dirty && !(self.chat.state == State::Running && since_draw < MIN_FRAME)
    }
}

// ---------------------------------------------------------------------------
// Events of the terminal
// ---------------------------------------------------------------------------

/// An event of the terminal.
#[derive(Debug, PartialEq, Eq)]
pub enum TerminalEvent {
    Key(KeyEvent),
    Paste(String),
    Mouse(MouseEvent),
    Resize,
    Other,
}

/// The mathematical value of a [`TerminalEvent`].
pub enum TerminalView {
    Key(KeyEvent),
    Paste(Seq<char>),
    Mouse(MouseEvent),
    Resize,
    Other,
}

impl View for TerminalEvent {
    type V = TerminalView;

    open spec fn view(&self) -> TerminalView {
        match self {
            TerminalEvent::Key(k) => TerminalView::Key(*k),
            TerminalEvent::Paste(t) => TerminalView::Paste(t@),
            TerminalEvent::Mouse(m) => TerminalView::Mouse(*m),
            TerminalEvent::Resize => TerminalView::Resize,
            TerminalEvent::Other => TerminalView::Other,
        }
    }
}

/// How the loop goes on after an event.
#[derive(Clone, Copy, PartialEq, Eq, Structural, Debug)]
pub enum Next {
    GoOn,
    /// Clear the screen before the next frame.
    Rebuild,
    /// Leave the program.
    Leave,
}

impl TuiModel {
    /// To be drawn again, where `shows` something new.
    pub open spec fn redrawn_if(self, shows: bool) -> TuiModel {
        TuiModel { dirty: self.dirty || shows, ..self }
    }

    /// What an event of the terminal does, and how the loop goes on. A key
    /// leaves the program only while Idle; while Running, only a press is worth
    /// a frame. A paste or a mouse event is worth one if it was acted on.
    pub open spec fn input_taken(self, e: TerminalView) -> (TuiModel, Next) {
        let idle = self.chat.state == State::Idle;
        match e {
            TerminalView::Key(key) => {
                let (m, goes_on) = self.keyed(key);
                if idle && !goes_on {
                    (m, Next::Leave)
                } else {
                    (m.redrawn_if(idle || key.press), Next::GoOn)
                }
            },
            TerminalView::Paste(data) => {
                let (m, changed) = self.pasted(data);
                (m.redrawn_if(changed), Next::GoOn)
            },
            TerminalView::Mouse(kind) => {
                let (m, acted) = self.moused(kind);
                (m.redrawn_if(acted), Next::GoOn)
            },
            TerminalView::Resize => (self.redrawn_if(true), Next::Rebuild),
            TerminalView::Other => (self, Next::GoOn),
        }
    }
}

impl Tui {
    fn redraw_if(&mut self, shows: bool)
        ensures
            final(self)@ == old(self)@.redrawn_if(shows),
            old(self)@.wf() ==> final(self)@.wf(),
    {
        if shows {
            self.dirty = true;
        }
    }

    /// Takes an event of the terminal. Says how the loop goes on.
    pub fn take_input(&mut self, event: TerminalEvent) -> (r: Next)
        requires
            old(self)@.wf(),
        ensures
            (final(self)@, r) == old(self)@.input_taken(event@),
            final(self)@.wf(),
    {
        let idle = self.chat.state == State::Idle;
        match event {
            TerminalEvent::Key(key) => {
                let goes_on = self.handle_key(key);
                if idle && !goes_on {
                    return Next::Leave;
                }
                self.redraw_if(idle || key.press);
                Next::GoOn
            },
            TerminalEvent::Paste(data) => {
                let changed = self.handle_paste(data.as_str());
                self.redraw_if(changed);
                Next::GoOn
            },
            TerminalEvent::Mouse(kind) => {
                let acted = self.handle_mouse(kind);
                self.redraw_if(acted);
                Next::GoOn
            },
            TerminalEvent::Resize => {
                self.redraw_if(true);
                Next::Rebuild
            },
            TerminalEvent::Other => Next::GoOn,
        }
    }
}

/// While a turn runs, no event of the terminal leaves the program.
pub proof fn law_a_running_turn_keeps_the_program(m: TuiModel, e: TerminalView)
    requires
        m.chat.state == State::Running,
    ensures
        m.input_taken(e).1 != Next::Leave,
{
}

} // verus!
