//! The steps that the UI takes between events.

use crate::chars;
use crate::completion;
use crate::host;
use crate::host::Host;
use crate::llm;
use crate::llm::ModelInfo;
use crate::request;
use crate::request::Request;
use crate::session::LiveMirror;
use crate::state::{
    ChatView, ComposerView, AccountView, LinksView, LooksView, PickersView, SavedView, State, Tui,
    TuiModel,
};
use crate::text;
use crate::theme;
use crate::transcript;
use crate::transcript::OutputLine;
use vstd::prelude::*;

verus! {

/// Frames of the busy spinner.
pub const SPINNER_CHARS: [&'static str; 10] = ["⠋", "⠙", "⠹", "⠸", "⠼", "⠴", "⠦", "⠧", "⠇", "⠏"];

/// Loading verbs, one per agent turn.
pub const SPINNER_VERBS: [&'static str; 43] = [
    "Thinking",
    "Brewing",
    "Composing",
    "Crafting",
    "Crunching",
    "Deciphering",
    "Exploring",
    "Figuring",
    "Forging",
    "Generating",
    "Mulling",
    "Noodling",
    "Pondering",
    "Reasoning",
    "Sculpting",
    "Synthesizing",
    "Unraveling",
    "Working",
    "Architecting",
    "Bootstrapping",
    "Calculating",
    "Cogitating",
    "Considering",
    "Contemplating",
    "Cooking",
    "Creating",
    "Crystallizing",
    "Deliberating",
    "Determining",
    "Envisioning",
    "Herding",
    "Incubating",
    "Manifesting",
    "Marinating",
    "Moseying",
    "Percolating",
    "Reticulating",
    "Ruminating",
    "Scheming",
    "Simmering",
    "Spelunking",
    "Transmuting",
    "Wrangling",
];

impl TuiModel {
    /// With a line at the end of the transcript.
    #[verifier::opaque]
    pub open spec fn say(self, type_: Seq<char>, content: Seq<char>) -> TuiModel {
        TuiModel {
            chat: ChatView {
                output_lines: self.chat.output_lines.push(transcript::plain(type_, content)),
                ..self.chat
            },
            ..self
        }
    }

    /// With a request for the host.
    #[verifier::opaque]
    pub open spec fn ask(self, r: request::RequestView) -> TuiModel {
        TuiModel { outbox: self.outbox.push(r), ..self }
    }

    /// With a command for the agent, where one listens.
    #[verifier::opaque]
    pub open spec fn to_agent(self, command: Seq<char>) -> TuiModel {
        if self.links.agent_tx is Some {
            self.ask(request::RequestView::Agent(command))
        } else {
            self
        }
    }

    /// With the flag that cancels a turn set, where there is one.
    #[verifier::opaque]
    pub open spec fn set_cancel(self, on: bool) -> TuiModel {
        if self.links.cancel_flag is Some {
            self.ask(request::RequestView::SetCancel(on))
        } else {
            self
        }
    }

    /// Nanoseconds since `started`.
    pub open spec fn since(self, started: u64) -> u64 {
        if started <= self.host.now_ns {
            (self.host.now_ns - started) as u64
        } else {
            0
        }
    }

    /// With a theme out of the catalogue, by name.
    pub open spec fn with_theme_name(self, name: Seq<char>) -> TuiModel {
        let chosen = self.host.theme_named(name);
        let at = theme::place(self.host.themes, chosen.name);
        TuiModel {
            looks: LooksView {
                theme: chosen,
                theme_picker_list: self.host.themes,
                theme_picker_sel: if at < 0 {
                    0
                } else {
                    at as usize
                },
                ..self.looks
            },
            ..self
        }
    }

    /// With a turn started now.
    #[verifier::opaque]
    pub open spec fn running(self) -> TuiModel {
        let seed = self.chat.spinner_idx + self.chat.total_usage.input_tokens + self.chat.output_lines.len() + 1;
        TuiModel {
            chat: ChatView {
                state: State::Running,
                running_started: Some(self.host.now_ns),
                spinner_verb_idx: ((seed % (usize::MAX + 1)) % SPINNER_VERBS@.len() as int) as usize,
                ..self.chat
            },
            saved: SavedView { last_checkpoint_save: None, ..self.saved },
            ..self
        }
    }

    /// With the ready-to-send prompt brought up to date.
    #[verifier::opaque]
    pub open spec fn suggested(self) -> TuiModel {
        if !self.looks.show_suggestions {
            TuiModel {
                composer: ComposerView { idle_suggestion: None, ..self.composer },
                ..self
            }
        } else if self.composer.input_buf.len() > 0 || self.chat.state != State::Idle {
            self
        } else if self.permission.show_permission_prompt || self.prompts.show_recovery_prompt {
            TuiModel {
                composer: ComposerView { idle_suggestion: None, ..self.composer },
                ..self
            }
        } else {
            TuiModel {
                composer: ComposerView {
                    idle_suggestion: Some(completion::idle_suggestion(self.chat.output_lines)),
                    ..self.composer
                },
                ..self
            }
        }
    }

    /// With suggestions switched on or off.
    pub open spec fn suggesting(self, show: bool) -> TuiModel {
        let set = TuiModel {
            looks: LooksView { show_suggestions: show, ..self.looks },
            ..self
        };
        if show {
            set.suggested()
        } else {
            TuiModel {
                composer: ComposerView { idle_suggestion: None, ..set.composer },
                ..set
            }
        }
    }

    /// What the composer can be completed with.
    pub open spec fn candidates(self) -> Seq<Seq<char>> {
        completion::completions(
            self.composer.input_buf,
            self.composer.cmd_picker_list,
            self.host.model_ids(self.account.provider),
            self.host.provider_names(),
            theme::names(self.host.themes),
            host::short_ids(self.host.sessions),
        )
    }

    /// With the command list brought up to date.
    #[verifier::opaque]
    pub open spec fn completed(self) -> TuiModel {
        if self.account.awaiting_api_key || self.composer.input_buf.len() == 0 || self.composer.input_buf[0] != '/' {
            TuiModel {
                composer: ComposerView {
                    show_command_picker: false,
                    cmd_picker_filtered: seq![],
                    ..self.composer
                },
                ..self
            }
        } else {
            let found = self.candidates();
            TuiModel {
                composer: ComposerView {
                    cmd_picker_filtered: found,
                    cmd_picker_sel: if self.composer.cmd_picker_sel < found.len() {
                        self.composer.cmd_picker_sel
                    } else if found.len() == 0 {
                        0
                    } else {
                        (found.len() - 1) as usize
                    },
                    show_command_picker: found.len() > 0,
                    ..self.composer
                },
                ..self
            }
        }
    }

    /// The completion that is selected.
    pub open spec fn selected_completion(self) -> Option<Seq<char>> {
        if self.composer.cmd_picker_sel < self.composer.cmd_picker_filtered.len() {
            Some(self.composer.cmd_picker_filtered[self.composer.cmd_picker_sel as int])
        } else {
            None
        }
    }

    /// With a completion in the composer.
    pub open spec fn filled_in(self, choice: Seq<char>) -> TuiModel {
        self.with_input(
            if completion::wants_more(choice) {
                choice + " "@
            } else {
                choice
            },
        ).completed()
    }

    /// With the composer's text replaced and the cursor at its end.
    pub open spec fn with_input(self, text: Seq<char>) -> TuiModel {
        TuiModel {
            composer: ComposerView {
                input_buf: text,
                cursor: chars::byte_len(text) as usize,
                ..self.composer
            },
            ..self
        }
    }

    /// With nothing streamed.
    pub open spec fn stream_ended(self) -> TuiModel {
        TuiModel {
            chat: ChatView {
                streaming_text: seq![],
                stream_thinking: seq![],
                thinking_started: None,
                ..self.chat
            },
            ..self
        }
    }

    /// With the streamed thinking shown in the transcript: in full, or by how
    /// long it took.
    pub open spec fn thought(self) -> TuiModel {
        let elapsed_ms: Option<u64> = match self.chat.thinking_started {
            Some(t) => Some((self.since(t) / 1_000_000) as u64),
            None => None,
        };
        if self.chat.stream_thinking.len() == 0 {
            self
        } else if self.looks.show_thinking {
            self.say("thinking"@, self.chat.stream_thinking)
        } else {
            self.say("thinking_summary"@, text::thought_label(elapsed_ms))
        }
    }

    /// With what was streamed moved into the transcript: first the thinking,
    /// then the answer.
    #[verifier::opaque]
    pub open spec fn flushed(self) -> TuiModel {
        if self.chat.streaming_text.len() == 0 && self.chat.stream_thinking.len() == 0 {
            self
        } else if self.chat.streaming_text.len() == 0 {
            self.thought().stream_ended()
        } else {
            self.thought().say("text"@, self.chat.streaming_text).stream_ended()
        }
    }

    /// How many models the picker shows at once.
    pub open spec fn visible_models(self) -> nat {
        let h = text::announced_height(self.host.term_lines) - 10;
        if h < 3 {
            3
        } else if h <= self.pickers.picker_models.len() {
            h as nat
        } else {
            self.pickers.picker_models.len()
        }
    }

    /// With the pending change of provider given up.
    pub open spec fn selection_cancelled(self) -> TuiModel {
        TuiModel {
            account: AccountView {
                pending_model_after_auth: false,
                pending_provider_selection: None,
                ..self.account
            },
            ..self
        }
    }
}

impl Tui {
    pub fn set_live_mirror(&mut self, mirror: LiveMirror)
        ensures
            final(self)@ == (TuiModel {
                saved: SavedView { live_mirror: Some(mirror@), ..old(self)@.saved },
                ..old(self)@
            }),
    {
        self.saved.live_mirror = Some(mirror);
    }

    /// Hands in what the host knows now.
    pub fn set_host(&mut self, host: Host)
        ensures
            final(self)@ == (TuiModel { host: host@, ..old(self)@ }),
    {
        self.host = host;
    }

    pub fn set_theme_name(&mut self, name: &str)
        ensures
            final(self)@ == old(self)@.with_theme_name(name@),
            old(self)@.wf() ==> final(self)@.wf(),
    {
        self.looks.theme = self.host.theme_or_default(name);
        self.looks.theme_picker_list = theme::clone_themes(&self.host.themes);
        self.looks.theme_picker_sel = match theme::find_theme(
            &self.host.themes,
            self.looks.theme.name.as_str(),
        ) {
            Some(i) => i,
            None => 0,
        };
    }

    pub fn set_show_thinking(&mut self, show: bool)
        ensures
            final(self)@ == (TuiModel {
                looks: LooksView { show_thinking: show, ..old(self)@.looks },
                ..old(self)@
            }),
    {
        self.looks.show_thinking = show;
    }

    pub fn set_show_suggestions(&mut self, show: bool)
        ensures
            final(self)@ == old(self)@.suggesting(show),
            old(self)@.wf() ==> final(self)@.wf(),
    {
        self.looks.show_suggestions = show;
        if show {
            self.refresh_idle_suggestion();
        } else {
            self.composer.idle_suggestion = None;
        }
    }

    pub fn set_agent_tx(&mut self, tx: std::sync::mpsc::Sender<String>)
        ensures
            final(self)@ == (TuiModel {
                links: LinksView { agent_tx: Some(tx), ..old(self)@.links },
                ..old(self)@
            }),
    {
        self.links.agent_tx = Some(tx);
    }

    pub fn set_perm_tx(&mut self, tx: std::sync::mpsc::Sender<String>)
        ensures
            final(self)@ == (TuiModel {
                links: LinksView { perm_tx: Some(tx), ..old(self)@.links },
                ..old(self)@
            }),
    {
        self.links.perm_tx = Some(tx);
    }

    pub fn set_cancel_flag(&mut self, flag: std::sync::Arc<std::sync::atomic::AtomicBool>)
        ensures
            final(self)@ == (TuiModel {
                links: LinksView { cancel_flag: Some(flag), ..old(self)@.links },
                ..old(self)@
            }),
    {
        self.links.cancel_flag = Some(flag);
    }

    pub fn set_picker_models(&mut self, models: Vec<ModelInfo>)
        ensures
            final(self)@ == (TuiModel {
                pickers: PickersView { picker_models: llm::models(models@), ..old(self)@.pickers },
                ..old(self)@
            }),
    {
        self.pickers.picker_models = models;
    }

    pub fn add_output_line(&mut self, line: OutputLine)
        ensures
            final(self)@ == (TuiModel {
                chat: ChatView {
                    output_lines: old(self)@.chat.output_lines.push(line@),
                    ..old(self)@.chat
                },
                ..old(self)@
            }),
    {
        proof {
            transcript::lemma_outputs_push(self.chat.output_lines@, line);
        }
        self.chat.output_lines.push(line);
    }

    /// Adds a line to the transcript.
    pub fn say(&mut self, type_: &str, content: &str)
        ensures
            final(self)@ == old(self)@.say(type_@, content@),
            old(self)@.wf() ==> final(self)@.wf(),
    {
        proof {
            reveal(TuiModel::say);
        }
        let line = transcript::plain_line(type_, content);
        self.add_output_line(line);
    }

    /// Queues work for the host.
    pub fn ask(&mut self, r: Request)
        ensures
            final(self)@ == old(self)@.ask(r@),
            old(self)@.wf() ==> final(self)@.wf(),
    {
        proof {
            reveal(TuiModel::ask);
        }
        proof {
            request::lemma_requests_push(self.outbox@, r);
        }
        self.outbox.push(r);
    }

    /// Hands out the work that is queued and forgets it.
    pub fn take_requests(&mut self) -> (r: Vec<Request>)
        ensures
            request::requests(r@) == old(self)@.outbox,
            final(self)@ == (TuiModel { outbox: seq![], ..old(self)@ }),
    {
        let mut out: Vec<Request> = Vec::new();
        std::mem::swap(&mut out, &mut self.outbox);
        assert(self@.outbox =~= seq![]);
        out
    }

    /// Queues a command for the agent, where one listens.
    pub fn to_agent(&mut self, command: &str)
        ensures
            final(self)@ == old(self)@.to_agent(command@),
            old(self)@.wf() ==> final(self)@.wf(),
    {
        proof {
            reveal(TuiModel::to_agent);
        }
        if self.links.agent_tx.is_some() {
            self.ask(Request::Agent(String::from_str(command)));
        }
    }

    /// Queues a change of the flag that cancels a turn, where there is one.
    pub fn set_cancel(&mut self, on: bool)
        ensures
            final(self)@ == old(self)@.set_cancel(on),
            old(self)@.wf() ==> final(self)@.wf(),
    {
        proof {
            reveal(TuiModel::set_cancel);
        }
        if self.links.cancel_flag.is_some() {
            self.ask(Request::SetCancel(on));
        }
    }

    /// Nanoseconds since `started`.
    pub fn since(&self, started: u64) -> (r: u64)
        ensures
            r == self@.since(started),
    {
        if started <= self.host.now_ns {
            self.host.now_ns - started
        } else {
            0
        }
    }

    /// Starts a turn.
    pub fn begin_running(&mut self)
        ensures
            final(self)@ == old(self)@.running(),
            old(self)@.wf() ==> final(self)@.wf(),
    {
        proof {
            reveal(TuiModel::running);
        }
        self.chat.state = State::Running;
        self.chat.running_started = Some(self.host.now_ns);
        // Allow the first mid-turn checkpoint of this run to hit disk even if
        // we just saved at the previous Done (throttle would otherwise skip it).
        self.saved.last_checkpoint_save = None;
        // New verb each turn.
        let seed: u128 = self.chat.spinner_idx as u128 + self.chat.total_usage.input_tokens as u128
            + self.chat.output_lines.len() as u128 + 1;
        let wrapped: u128 = seed % (usize::MAX as u128 + 1);
        self.chat.spinner_verb_idx = (wrapped % 43) as usize;
    }

    /// Refresh the grayed ready-to-send prompt in the empty composer.
    pub fn refresh_idle_suggestion(&mut self)
        ensures
            final(self)@ == old(self)@.suggested(),
            old(self)@.wf() ==> final(self)@.wf(),
    {
        proof {
            reveal(TuiModel::suggested);
        }
        if !self.looks.show_suggestions {
            self.composer.idle_suggestion = None;
            return;
        }
        if !self.composer.input_buf.as_str().is_empty() || self.chat.state != State::Idle {
            return;
        }
        // Permission/recovery own the chrome; no ghost prompt until they clear.
        if self.permission.show_permission_prompt || self.prompts.show_recovery_prompt {
            self.composer.idle_suggestion = None;
            return;
        }
        self.composer.idle_suggestion =
        Some(completion::compute_idle_suggestion(self.chat.output_lines.as_slice()));
    }

    /// Brings the command list up to date with the composer.
    pub fn update_cmd_picker(&mut self)
        ensures
            final(self)@ == old(self)@.completed(),
            old(self)@.wf() ==> final(self)@.wf(),
    {
        proof {
            reveal(TuiModel::completed);
        }
        if self.account.awaiting_api_key || !chars::starts_with_char(self.composer.input_buf.as_str(), '/') {
            self.composer.show_command_picker = false;
            self.composer.cmd_picker_filtered = Vec::new();
            assert(self@.composer.cmd_picker_filtered =~= seq![]);
            return;
        }
        let models = self.host.model_ids_of(self.account.provider.as_str());
        let provider_names = self.host.sorted_provider_names();
        let themes = theme::theme_names(&self.host.themes);
        let sessions = self.host.session_ids();
        self.composer.cmd_picker_filtered =
        completion::slash_completions(
            self.composer.input_buf.as_str(),
            &self.composer.cmd_picker_list,
            &models,
            &provider_names,
            &themes,
            &sessions,
        );
        let n = self.composer.cmd_picker_filtered.len();
        assert(self@.composer.cmd_picker_filtered.len() == n);
        if self.composer.cmd_picker_sel >= n {
            self.composer.cmd_picker_sel = if n == 0 {
                0
            } else {
                n - 1
            };
        }
        // Also gates mouse-wheel scrolling and Esc/Ctrl+C dismiss for the
        // visible Commands overlay rendered under the composer.
        self.composer.show_command_picker = n > 0;
    }

    /// Selected slash completion string, if any.
    pub fn selected_slash_completion(&self) -> (r: Option<String>)
        ensures
            chars::opt(r) == self@.selected_completion(),
    {
        if self.composer.cmd_picker_sel < self.composer.cmd_picker_filtered.len() {
            Some(self.composer.cmd_picker_filtered[self.composer.cmd_picker_sel].clone())
        } else {
            None
        }
    }

    /// Replaces the composer's text and puts the cursor at its end.
    pub fn set_input(&mut self, text: String)
        ensures
            final(self)@ == old(self)@.with_input(text@),
            old(self)@.wf() ==> final(self)@.wf(),
    {
        self.composer.cursor = chars::str_bytes(text.as_str());
        self.composer.input_buf = text;
        proof {
            chars::lemma_boundary_ends(self.composer.input_buf@);
        }
    }

    /// Empties the composer.
    pub fn clear_input(&mut self)
        ensures
            final(self)@ == old(self)@.with_input(seq![]),
            old(self)@.wf() ==> final(self)@.wf(),
    {
        self.set_input(String::new());
        assert(self@.composer.input_buf =~= seq![]);
    }

    /// Insert a completion into the composer. Adds a trailing space when more
    /// arguments are expected so the next Tab level can open immediately.
    pub fn apply_slash_completion(&mut self, choice: &str)
        ensures
            final(self)@ == old(self)@.filled_in(choice@),
            old(self)@.wf() ==> final(self)@.wf(),
    {
        let text = if completion::completion_wants_trailing_space(choice) {
            chars::cat2(choice, " ")
        } else {
            String::from_str(choice)
        };
        self.set_input(text);
        self.update_cmd_picker();
    }

    /// Forgets what was streamed.
    fn end_stream(&mut self)
        ensures
            final(self)@ == old(self)@.stream_ended(),
            old(self)@.wf() ==> final(self)@.wf(),
    {
        self.chat.thinking_started = None;
        self.chat.stream_thinking = String::new();
        self.chat.streaming_text = String::new();
        assert(self.chat@.streaming_text =~= seq![]);
        assert(self.chat@.stream_thinking =~= seq![]);
    }

    /// Moves the thinking that was streamed into the transcript.
    fn flush_thinking(&mut self)
        ensures
            final(self)@ == old(self)@.thought(),
            old(self)@.wf() ==> final(self)@.wf(),
    {
        if self.chat.stream_thinking.as_str().is_empty() {
            return;
        }
        if self.looks.show_thinking {
            let thought = self.chat.stream_thinking.clone();
            self.say("thinking", thought.as_str());
        } else {
            let elapsed: Option<u64> = match self.chat.thinking_started {
                Some(t) => Some(self.since(t) / 1_000_000),
                None => None,
            };
            let label = text::format_thought_label(elapsed);
            self.say("thinking_summary", label.as_str());
        }
    }

    /// Moves what was streamed into the transcript.
    pub fn flush_streaming(&mut self)
        ensures
            final(self)@ == old(self)@.flushed(),
            old(self)@.wf() ==> final(self)@.wf(),
    {
        proof {
            reveal(TuiModel::flushed);
        }
        if self.chat.streaming_text.as_str().is_empty()
            && self.chat.stream_thinking.as_str().is_empty() {
            return;
        }
        let answer = self.chat.streaming_text.clone();
        // Finish the think phase before answer text so the order matches.
        self.flush_thinking();
        if !answer.as_str().is_empty() {
            self.say("text", answer.as_str());
        }
        self.end_stream();
    }

    /// How many models the picker shows at once.
    pub fn picker_visible_height(&self) -> (r: usize)
        ensures
            r == self@.visible_models(),
    {
        let announced: usize = match text::terminal_height(&self.host.term_lines) {
            Some(n) => n,
            None => 24,
        };
        if announced < 13 {
            return 3;
        }
        let h: usize = announced - 10;
        if h <= self.pickers.picker_models.len() {
            h
        } else {
            self.pickers.picker_models.len()
        }
    }

    /// Gives up a pending change of provider.
    pub fn cancel_pending_provider_selection(&mut self)
        ensures
            final(self)@ == old(self)@.selection_cancelled(),
            old(self)@.wf() ==> final(self)@.wf(),
    {
        self.account.pending_model_after_auth = false;
        self.account.pending_provider_selection = None;
    }
}

} // verus!
