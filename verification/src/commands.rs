//! Slash-command dispatch.

use crate::chars;
use crate::llm::Usage;
use crate::preferences;
use crate::request;
use crate::request::{After, Request};
use crate::session;
use crate::session::LiveMirror;
use crate::state::{
    ChatView, ComposerView, LooksView, PromptsView, SavedView, SelectDump, State, Tui, TuiModel,
};
use crate::theme;
use vstd::prelude::*;

verus! {

// ---------------------------------------------------------------------------
// What the commands do
// ---------------------------------------------------------------------------

/// Whether a word switches something on.
pub open spec fn word_on(w: Seq<char>, show: bool, enable: bool) -> bool {
    w == "on"@ || w == "true"@ || w == "1"@ || (show && w == "show"@) || (enable && w
        == "enable"@)
}

/// Whether a word switches something off.
pub open spec fn word_off(w: Seq<char>, hide: bool, disable: bool) -> bool {
    w == "off"@ || w == "false"@ || w == "0"@ || (hide && w == "hide"@) || (disable && w
        == "disable"@)
}

/// What a switch is set to by an argument: the other way round without one;
/// an argument that says neither is handed back.
pub open spec fn switched(
    arg: Option<Seq<char>>,
    current: bool,
    show: bool,
    enable: bool,
) -> Result<bool, Seq<char>> {
    match arg {
        None => Ok(!current),
        Some(w) => if word_on(w, show, enable) {
            Ok(true)
        } else if word_off(w, show, enable) {
            Ok(false)
        } else {
            Err(w)
        },
    }
}

/// The lower-case form of the word at `i`, if there is one.
pub open spec fn argument(parts: Seq<Seq<char>>, i: int) -> Option<Seq<char>> {
    if i < parts.len() {
        Some(chars::lowered(parts[i]))
    } else {
        None
    }
}

/// The provider that an `/auth` command means.
pub open spec fn auth_provider(parts: Seq<Seq<char>>) -> Seq<char> {
    match argument(parts, 2) {
        Some(p) => p,
        None => chars::lowered("xai"@),
    }
}

impl TuiModel {
    /// With nothing of the conversation left.
    pub open spec fn emptied(self) -> TuiModel {
        TuiModel {
            chat: ChatView {
                output_lines: seq![],
                streaming_text: seq![],
                stream_thinking: seq![],
                thinking_started: None,
                total_usage: Usage::none(),
                ..self.chat
            },
            saved: SavedView {
                current_session_id: None,
                session_created_at: 0,
                last_checkpoint_save: None,
                ..self.saved
            },
            composer: ComposerView { pending_images: seq![], ..self.composer },
            ..self
        }
    }

    /// With the mirror of the agent's transcript emptied, where there is one.
    pub open spec fn mirror_emptied(self) -> TuiModel {
        if self.saved.live_mirror is None {
            self
        } else {
            (TuiModel {
                saved: SavedView { live_mirror: Some(session::blank_mirror()), ..self.saved },
                ..self
            }).ask(
                request::RequestView::StoreMirror,
            )
        }
    }

    /// With the conversation saved and cleared.
    #[verifier::opaque]
    pub open spec fn cleared(self) -> TuiModel {
        let m = if self.snapshot().messages.len() > 0 {
            self.save_asked(After::Discard)
        } else {
            self
        };
        if self.chat.state != State::Idle {
            self.say("system"@, "Wait for the current turn to finish before clearing."@)
        } else {
            m.emptied().to_agent("__clear__"@).mirror_emptied().say(
                "system"@,
                "Cleared conversation and session state."@,
            )
        }
    }

    #[verifier::opaque]
    pub open spec fn thinking_command(self, parts: Seq<Seq<char>>) -> TuiModel {
        match switched(argument(parts, 1), self.looks.show_thinking, true, false) {
            Ok(next) => self.ask(request::RequestView::SaveThinking(next)),
            Err(w) => self.say(
                "system"@,
                "Unknown /thinking option '"@ + w
                    + "'. Use /thinking, /thinking on, or /thinking off."@,
            ),
        }
    }

    #[verifier::opaque]
    pub open spec fn suggestions_command(self, parts: Seq<Seq<char>>) -> TuiModel {
        match switched(argument(parts, 1), self.looks.show_suggestions, true, true) {
            Ok(next) => self.ask(request::RequestView::SaveSuggestions(next)),
            Err(w) => self.say(
                "system"@,
                "Unknown /suggestions option '"@ + w
                    + "'. Use /suggestions, /suggestions on, or /suggestions off."@,
            ),
        }
    }

    /// With the mouse capture in effect reported.
    pub open spec fn mouse_reported(self) -> TuiModel {
        self.say(
            "system"@,
            "Mouse capture: "@ + preferences::on_off(self.looks.mouse_capture) + ". "@
                + if self.looks.mouse_capture {
                "Wheel scrolls the transcript. Shift+drag to select and copy (terminal-native)."@
            } else {
                "Mouse capture off. Select with a normal drag if the host allows it; scroll with PgUp/PgDn or Ctrl+U/D."@
            },
        )
    }

    /// With mouse capture switched, where the terminal did so, and reported.
    pub open spec fn mouse_switched(self, on: bool, done: bool) -> TuiModel {
        if done {
            (TuiModel {
                looks: LooksView { mouse_capture: on, ..self.looks },
                ..self
            }).mouse_reported()
        } else {
            self.mouse_reported()
        }
    }

    #[verifier::opaque]
    pub open spec fn mouse_command(self, parts: Seq<Seq<char>>) -> TuiModel {
        match switched(argument(parts, 1), self.looks.mouse_capture, false, true) {
            Ok(next) => if next == self.looks.mouse_capture {
                self.mouse_reported()
            } else {
                self.ask(request::RequestView::SetMouseCapture(next))
            },
            Err(w) => self.say(
                "system"@,
                "Unknown /mouse option '"@ + w + "'. Use /mouse, /mouse on, or /mouse off."@,
            ),
        }
    }

    #[verifier::opaque]
    pub open spec fn select_command(self, parts: Seq<Seq<char>>) -> TuiModel {
        match argument(parts, 1) {
            None => TuiModel { pending_select: Some(SelectDump::LastAssistant), ..self },
            Some(w) => if w == "all"@ || w == "full"@ || w == "session"@ {
                TuiModel { pending_select: Some(SelectDump::FullTranscript), ..self }
            } else if w == "last"@ || w == "reply"@ || w == "assistant"@ {
                TuiModel { pending_select: Some(SelectDump::LastAssistant), ..self }
            } else {
                self.say(
                    "system"@,
                    "Unknown /select option '"@ + w
                        + "'. Use /select, /select last, or /select all."@,
                )
            },
        }
    }

    #[verifier::opaque]
    pub open spec fn model_command(self, parts: Seq<Seq<char>>) -> TuiModel {
        if parts.len() > 1 {
            self.selection_asked(self.account.provider, chars::joined(parts.skip(1), " "@))
        } else {
            self.model_picker_opened()
        }
    }

    #[verifier::opaque]
    pub open spec fn cost_shown(self) -> TuiModel {
        let u = self.chat.total_usage;
        self.say(
            "system"@,
            "Tokens: "@ + chars::decimal(u.input_tokens as nat) + " in, "@ + chars::decimal(
                u.output_tokens as nat,
            ) + " out  •  "@ + chars::decimal((u.cache_read + u.cache_create) as nat)
                + "\nModel: "@ + self.account.model + "\nEstimated cost: "@ + self.host.cost_text,
        )
    }

    #[verifier::opaque]
    pub open spec fn provider_command(self, parts: Seq<Seq<char>>) -> TuiModel {
        match argument(parts, 1) {
            None => self.provider_picker_opened(),
            Some(name) => if self.host.offers(name) {
                self.provider_picked(name)
            } else {
                self.say(
                    "system"@,
                    "Unknown provider '"@ + name + "'. Use /provider to pick from the list."@,
                )
            },
        }
    }

    /// With the help overlay open. The transcript stays as it is.
    #[verifier::opaque]
    pub open spec fn help_opened(self) -> TuiModel {
        TuiModel {
            prompts: PromptsView { show_shortcuts: false, show_help: true, ..self.prompts },
            ..self
        }
    }

    /// With an account command sent to the agent, where one listens.
    pub open spec fn account_command(self, command: Seq<char>) -> TuiModel {
        if self.links.agent_tx is Some {
            self.running().to_agent(command)
        } else {
            self
        }
    }

    #[verifier::opaque]
    pub open spec fn auth_command(self, parts: Seq<Seq<char>>) -> TuiModel {
        let provider = auth_provider(parts);
        if parts.len() > 1 && parts[1] == "login"@ {
            self.login_started(provider, false)
        } else if parts.len() > 1 && parts[1] == "key"@ {
            if self.host.known(provider).requires_api_key {
                self.api_key_prompted(provider)
            } else {
                self.say(
                    "system"@,
                    "Provider '"@ + provider + "' does not use a cloud API key."@,
                )
            }
        } else if parts.len() > 1 && parts[1] == "logout"@ {
            self.account_command("__auth_logout__:"@ + provider)
        } else {
            self.account_command("__auth_status__"@)
        }
    }

    #[verifier::opaque]
    pub open spec fn theme_command(self, parts: Seq<Seq<char>>) -> TuiModel {
        let all = chars::joined(theme::names(self.host.themes), ", "@);
        let name = chars::joined(parts.skip(1), "-"@);
        let at = theme::place(self.host.themes, name);
        if parts.len() <= 1 {
            self.theme_picker_opened()
        } else if parts[1] == "list"@ {
            self.say("system"@, "Active theme: "@ + self.looks.theme.name + "\nThemes: "@ + all)
        } else if at >= 0 {
            self.ask(
                request::RequestView::SaveTheme {
                    selected: self.host.themes[at],
                    previous: self.looks.theme,
                },
            )
        } else {
            self.say("error"@, "Unknown theme '"@ + name + "'. Themes: "@ + all)
        }
    }

    #[verifier::opaque]
    pub open spec fn compact_command(self) -> TuiModel {
        if self.chat.state != State::Idle {
            self.say("system"@, "Wait for the current turn to finish before compacting."@)
        } else {
            self.account_command("__compact__"@)
        }
    }

    /// With the list of saved sessions open.
    pub open spec fn session_picker_opened(self, deleting: bool) -> TuiModel {
        TuiModel {
            saved: SavedView {
                show_session_picker: true,
                session_picker_delete: deleting,
                picker_sessions: self.host.sessions,
                picker_session_sel: 0,
                picker_session_scrl: 0,
                ..self.saved
            },
            ..self
        }
    }

    #[verifier::opaque]
    pub open spec fn delete_command(self, parts: Seq<Seq<char>>) -> TuiModel {
        if parts.len() > 1 {
            self.ask(
                request::RequestView::ResolveSession(chars::joined(parts.skip(1), " "@)),
            )
        } else if self.host.sessions.len() == 0 {
            self.say("system"@, "No saved sessions to delete."@)
        } else {
            self.session_picker_opened(true)
        }
    }

    #[verifier::opaque]
    pub open spec fn resume_command(self) -> TuiModel {
        if self.host.sessions.len() == 0 {
            self.say(
                "system"@,
                "No saved sessions. Use /save to save the current conversation first."@,
            )
        } else {
            self.session_picker_opened(false)
        }
    }

    /// With a command run that does not end the program.
    pub open spec fn command_run(self, parts: Seq<Seq<char>>) -> TuiModel {
        let name = parts[0];
        if name == "/clear"@ {
            self.cleared()
        } else if name == "/thinking"@ {
            self.thinking_command(parts)
        } else if name == "/suggestions"@ {
            self.suggestions_command(parts)
        } else if name == "/mouse"@ {
            self.mouse_command(parts)
        } else if name == "/copy"@ {
            self.copy_asked()
        } else if name == "/select"@ {
            self.select_command(parts)
        } else if name == "/model"@ {
            self.model_command(parts)
        } else if name == "/cost"@ {
            self.cost_shown()
        } else if name == "/provider"@ {
            self.provider_command(parts)
        } else if name == "/help"@ {
            self.help_opened()
        } else if name == "/skills"@ {
            self.ask(request::RequestView::ListSkills)
        } else if name == "/mcp"@ {
            self.ask(request::RequestView::ListMcpServers)
        } else if name == "/auth"@ {
            self.auth_command(parts)
        } else if name == "/theme"@ {
            self.theme_command(parts)
        } else if name == "/reset"@ {
            self.ask(request::RequestView::RunReset(parts.skip(1)))
        } else if name == "/compact"@ {
            self.compact_command()
        } else if name == "/save"@ {
            self.autosaved(true)
        } else if name == "/sessions"@ {
            self.sessions_listed()
        } else if name == "/delete"@ {
            self.delete_command(parts)
        } else if name == "/resume"@ {
            self.resume_command()
        } else {
            self.say("error"@, "Unknown command: "@ + name + " (type /help)"@)
        }
    }

    /// Whether a command ends the program.
    pub open spec fn ends_program(name: Seq<char>) -> bool {
        name == "/exit"@ || name == "/quit"@ || name == "/q"@
    }

    /// What a command line does, and whether the program goes on.
    #[verifier::opaque]
    pub open spec fn commanded(self, line: Seq<char>) -> (TuiModel, bool) {
        let parts = chars::words(line);
        if parts.len() == 0 {
            (self, true)
        } else if TuiModel::ends_program(parts[0]) {
            (self, false)
        } else {
            (self.command_run(parts), true)
        }
    }
}

// ---------------------------------------------------------------------------
// Running them
// ---------------------------------------------------------------------------

fn lowered_argument(parts: &Vec<String>, i: usize) -> (r: Option<String>)
    ensures
        chars::opt(r) == argument(chars::strs(parts@), i as int),
{
    if i < parts.len() {
        Some(chars::to_lower(parts[i].as_str()))
    } else {
        None
    }
}

fn switch_from(arg: Option<String>, current: bool, show: bool, enable: bool) -> (r: Result<
    bool,
    String,
>)
    ensures
        match r {
            Ok(b) => switched(chars::opt(arg), current, show, enable) == Ok::<bool, Seq<char>>(b),
            Err(w) => switched(chars::opt(arg), current, show, enable) == Err::<bool, Seq<char>>(
                w@,
            ),
        },
{
    match arg {
        None => Ok(!current),
        Some(word) => {
            let w = word.as_str();
            if chars::str_eq(w, "on") || chars::str_eq(w, "true") || chars::str_eq(w, "1") || (show
                && chars::str_eq(w, "show")) || (enable && chars::str_eq(w, "enable")) {
                Ok(true)
            } else if chars::str_eq(w, "off") || chars::str_eq(w, "false") || chars::str_eq(w, "0")
                || (show && chars::str_eq(w, "hide")) || (enable && chars::str_eq(w, "disable")) {
                Ok(false)
            } else {
                Err(word)
            }
        },
    }
}

impl Tui {
    fn empty_conversation(&mut self)
        ensures
            final(self)@ == old(self)@.emptied(),
            old(self)@.wf() ==> final(self)@.wf(),
    {
        self.chat.output_lines = Vec::new();
        self.chat.streaming_text = String::new();
        self.chat.stream_thinking = String::new();
        self.chat.thinking_started = None;
        self.chat.total_usage = Usage::zero();
        self.saved.current_session_id = None;
        self.saved.session_created_at = 0;
        self.saved.last_checkpoint_save = None;
        self.composer.pending_images = Vec::new();
        proof {
            assert(self.chat@.output_lines =~= seq![]);
            assert(self.chat@.streaming_text =~= seq![]);
            assert(self.chat@.stream_thinking =~= seq![]);
            assert(self.composer@.pending_images =~= seq![]);
        }
    }

    fn empty_mirror(&mut self)
        ensures
            final(self)@ == old(self)@.mirror_emptied(),
            old(self)@.wf() ==> final(self)@.wf(),
    {
        if self.saved.live_mirror.is_some() {
            self.saved.live_mirror = Some(LiveMirror::empty());
            self.ask(Request::StoreMirror);
        }
    }

    fn clear_command(&mut self)
        ensures
            final(self)@ == old(self)@.cleared(),
            old(self)@.wf() ==> final(self)@.wf(),
    {
        proof {
            reveal(TuiModel::cleared);
        }
        if self.chat.state != State::Idle {
            self.say("system", "Wait for the current turn to finish before clearing.");
            return;
        }
        let _ = self.queue_save(After::Discard);
        self.empty_conversation();
        self.to_agent("__clear__");
        self.empty_mirror();
        self.say("system", "Cleared conversation and session state.");
    }

    fn run_thinking(&mut self, parts: &Vec<String>)
        ensures
            final(self)@ == old(self)@.thinking_command(chars::strs(parts@)),
            old(self)@.wf() ==> final(self)@.wf(),
    {
        proof {
            reveal(TuiModel::thinking_command);
        }
        match switch_from(lowered_argument(parts, 1), self.looks.show_thinking, true, false) {
            Ok(next) => self.ask(Request::SaveThinking(next)),
            Err(w) => {
                let content = chars::cat3(
                    "Unknown /thinking option '",
                    w.as_str(),
                    "'. Use /thinking, /thinking on, or /thinking off.",
                );
                self.say("system", content.as_str());
            },
        }
    }

    fn run_suggestions(&mut self, parts: &Vec<String>)
        ensures
            final(self)@ == old(self)@.suggestions_command(chars::strs(parts@)),
            old(self)@.wf() ==> final(self)@.wf(),
    {
        proof {
            reveal(TuiModel::suggestions_command);
        }
        match switch_from(lowered_argument(parts, 1), self.looks.show_suggestions, true, true) {
            Ok(next) => self.ask(Request::SaveSuggestions(next)),
            Err(w) => {
                let content = chars::cat3(
                    "Unknown /suggestions option '",
                    w.as_str(),
                    "'. Use /suggestions, /suggestions on, or /suggestions off.",
                );
                self.say("system", content.as_str());
            },
        }
    }

    fn report_mouse(&mut self)
        ensures
            final(self)@ == old(self)@.mouse_reported(),
            old(self)@.wf() ==> final(self)@.wf(),
    {
        let on = self.looks.mouse_capture;
        let detail = if on {
            "Wheel scrolls the transcript. Shift+drag to select and copy (terminal-native)."
        } else {
            "Mouse capture off. Select with a normal drag if the host allows it; scroll with PgUp/PgDn or Ctrl+U/D."
        };
        let content = chars::cat4("Mouse capture: ", preferences::on_off_text(on), ". ", detail);
        self.say("system", content.as_str());
    }

    /// Takes in whether the terminal switched mouse capture.
    pub fn mouse_capture_switched(&mut self, on: bool, done: bool)
        ensures
            final(self)@ == old(self)@.mouse_switched(on, done),
            old(self)@.wf() ==> final(self)@.wf(),
    {
        if done {
            self.looks.mouse_capture = on;
        }
        self.report_mouse();
    }

    fn run_mouse(&mut self, parts: &Vec<String>)
        ensures
            final(self)@ == old(self)@.mouse_command(chars::strs(parts@)),
            old(self)@.wf() ==> final(self)@.wf(),
    {
        proof {
            reveal(TuiModel::mouse_command);
        }
        match switch_from(lowered_argument(parts, 1), self.looks.mouse_capture, false, true) {
            Ok(next) => {
                if next == self.looks.mouse_capture {
                    self.report_mouse();
                } else {
                    self.ask(Request::SetMouseCapture(next));
                }
            },
            Err(w) => {
                let content = chars::cat3(
                    "Unknown /mouse option '",
                    w.as_str(),
                    "'. Use /mouse, /mouse on, or /mouse off.",
                );
                self.say("system", content.as_str());
            },
        }
    }

    fn run_select(&mut self, parts: &Vec<String>)
        ensures
            final(self)@ == old(self)@.select_command(chars::strs(parts@)),
            old(self)@.wf() ==> final(self)@.wf(),
    {
        proof {
            reveal(TuiModel::select_command);
        }
        match lowered_argument(parts, 1) {
            None => {
                self.pending_select = Some(SelectDump::LastAssistant);
            },
            Some(word) => {
                let w = word.as_str();
                if chars::str_eq(w, "all") || chars::str_eq(w, "full") || chars::str_eq(
                    w,
                    "session",
                ) {
                    self.pending_select = Some(SelectDump::FullTranscript);
                } else if chars::str_eq(w, "last") || chars::str_eq(w, "reply") || chars::str_eq(
                    w,
                    "assistant",
                ) {
                    self.pending_select = Some(SelectDump::LastAssistant);
                } else {
                    let content = chars::cat3(
                        "Unknown /select option '",
                        w,
                        "'. Use /select, /select last, or /select all.",
                    );
                    self.say("system", content.as_str());
                }
            },
        }
    }

    fn run_model(&mut self, parts: &Vec<String>)
        ensures
            final(self)@ == old(self)@.model_command(chars::strs(parts@)),
            old(self)@.wf() ==> final(self)@.wf(),
    {
        proof {
            reveal(TuiModel::model_command);
        }
        if parts.len() > 1 {
            let rest = chars::tail(parts, 1);
            let model = chars::join(&rest, " ");
            let provider = self.account.provider.clone();
            self.finish_provider_model_selection(provider.as_str(), model.as_str());
        } else {
            self.open_model_picker();
        }
    }

    fn show_cost(&mut self)
        requires
            old(self)@.wf(),
        ensures
            final(self)@ == old(self)@.cost_shown(),
            final(self)@.wf(),
    {
        proof {
            reveal(TuiModel::cost_shown);
        }
        let u = self.chat.total_usage;
        let input = chars::decimal_string(u.input_tokens);
        let output = chars::decimal_string(u.output_tokens);
        let cached = chars::decimal_string(u.cache_read + u.cache_create);
        let lead = chars::cat5("Tokens: ", input.as_str(), " in, ", output.as_str(), " out  •  ");
        let head = chars::cat4(
            lead.as_str(),
            cached.as_str(),
            "\nModel: ",
            self.account.model.as_str(),
        );
        let content = chars::cat3(
            head.as_str(),
            "\nEstimated cost: ",
            self.host.cost_text.as_str(),
        );
        self.say("system", content.as_str());
    }

    fn run_provider(&mut self, parts: &Vec<String>)
        ensures
            final(self)@ == old(self)@.provider_command(chars::strs(parts@)),
            old(self)@.wf() ==> final(self)@.wf(),
    {
        proof {
            reveal(TuiModel::provider_command);
        }
        match lowered_argument(parts, 1) {
            None => self.open_provider_picker(),
            Some(name) => {
                if self.host.find_provider(name.as_str()).is_some() {
                    self.pick_provider(name.as_str());
                } else {
                    let content = chars::cat3(
                        "Unknown provider '",
                        name.as_str(),
                        "'. Use /provider to pick from the list.",
                    );
                    self.say("system", content.as_str());
                }
            },
        }
    }

    fn open_help(&mut self)
        ensures
            final(self)@ == old(self)@.help_opened(),
            old(self)@.wf() ==> final(self)@.wf(),
    {
        proof {
            reveal(TuiModel::help_opened);
        }
        // Overlay in bottom chrome; Esc / Enter dismisses.
        // Do not dump into the transcript (stays until /clear).
        self.prompts.show_shortcuts = false;
        self.prompts.show_help = true;
    }

    fn run_account(&mut self, command: &str)
        ensures
            final(self)@ == old(self)@.account_command(command@),
            old(self)@.wf() ==> final(self)@.wf(),
    {
        if self.links.agent_tx.is_some() {
            self.begin_running();
            self.to_agent(command);
        }
    }

    fn run_auth(&mut self, parts: &Vec<String>)
        ensures
            final(self)@ == old(self)@.auth_command(chars::strs(parts@)),
            old(self)@.wf() ==> final(self)@.wf(),
    {
        proof {
            reveal(TuiModel::auth_command);
        }
        let provider = match lowered_argument(parts, 2) {
            Some(p) => p,
            None => chars::to_lower("xai"),
        };
        if parts.len() > 1 && chars::str_eq(parts[1].as_str(), "login") {
            self.begin_oauth_login(provider.as_str(), false);
        } else if parts.len() > 1 && chars::str_eq(parts[1].as_str(), "key") {
            // Escape hatch: paste API key instead of OAuth.
            if self.host.known_of(provider.as_str()).requires_api_key {
                self.begin_api_key_prompt(provider.as_str());
            } else {
                let content = chars::cat3(
                    "Provider '",
                    provider.as_str(),
                    "' does not use a cloud API key.",
                );
                self.say("system", content.as_str());
            }
        } else if parts.len() > 1 && chars::str_eq(parts[1].as_str(), "logout") {
            let command = chars::cat2("__auth_logout__:", provider.as_str());
            self.run_account(command.as_str());
        } else {
            self.run_account("__auth_status__");
        }
    }

    fn run_theme(&mut self, parts: &Vec<String>)
        ensures
            final(self)@ == old(self)@.theme_command(chars::strs(parts@)),
            old(self)@.wf() ==> final(self)@.wf(),
    {
        proof {
            reveal(TuiModel::theme_command);
        }
        if parts.len() <= 1 {
            self.open_theme_picker();
            return;
        }
        let names = theme::theme_names(&self.host.themes);
        let all = chars::join(&names, ", ");
        if chars::str_eq(parts[1].as_str(), "list") {
            let content = chars::cat4(
                "Active theme: ",
                self.looks.theme.name.as_str(),
                "\nThemes: ",
                all.as_str(),
            );
            self.say("system", content.as_str());
            return;
        }
        let rest = chars::tail(parts, 1);
        let name = chars::join(&rest, "-");
        match theme::find_theme(&self.host.themes, name.as_str()) {
            Some(i) => {
                let selected = theme::clone_theme(&self.host.themes[i]);
                let previous = theme::clone_theme(&self.looks.theme);
                self.ask(Request::SaveTheme { selected, previous });
            },
            None => {
                let content = chars::cat4(
                    "Unknown theme '",
                    name.as_str(),
                    "'. Themes: ",
                    all.as_str(),
                );
                self.say("error", content.as_str());
            },
        }
    }

    fn run_compact(&mut self)
        ensures
            final(self)@ == old(self)@.compact_command(),
            old(self)@.wf() ==> final(self)@.wf(),
    {
        proof {
            reveal(TuiModel::compact_command);
        }
        if self.chat.state != State::Idle {
            self.say("system", "Wait for the current turn to finish before compacting.");
        } else {
            self.run_account("__compact__");
        }
    }

    fn open_session_picker(&mut self, deleting: bool)
        ensures
            final(self)@ == old(self)@.session_picker_opened(deleting),
            old(self)@.wf() ==> final(self)@.wf(),
    {
        self.saved.picker_sessions = session::clone_summaries(&self.host.sessions);
        self.saved.show_session_picker = true;
        self.saved.session_picker_delete = deleting;
        self.saved.picker_session_sel = 0;
        self.saved.picker_session_scrl = 0;
    }

    fn run_delete(&mut self, parts: &Vec<String>)
        ensures
            final(self)@ == old(self)@.delete_command(chars::strs(parts@)),
            old(self)@.wf() ==> final(self)@.wf(),
    {
        proof {
            reveal(TuiModel::delete_command);
        }
        if parts.len() > 1 {
            let rest = chars::tail(parts, 1);
            let query = chars::join(&rest, " ");
            self.ask(Request::ResolveSession(query));
        } else if self.host.sessions.len() == 0 {
            self.say("system", "No saved sessions to delete.");
        } else {
            self.open_session_picker(true);
        }
    }

    fn run_resume(&mut self)
        ensures
            final(self)@ == old(self)@.resume_command(),
            old(self)@.wf() ==> final(self)@.wf(),
    {
        proof {
            reveal(TuiModel::resume_command);
        }
        if self.host.sessions.len() == 0 {
            self.say(
                "system",
                "No saved sessions. Use /save to save the current conversation first.",
            );
        } else {
            self.open_session_picker(false);
        }
    }

    fn run_reset(&mut self, parts: &Vec<String>)
        requires
            parts@.len() > 0,
        ensures
            final(self)@ == old(self)@.ask(
                request::RequestView::RunReset(chars::strs(parts@).skip(1)),
            ),
            old(self)@.wf() ==> final(self)@.wf(),
    {
        let args = chars::tail(parts, 1);
        self.ask(Request::RunReset(args));
    }

    fn reject_command(&mut self, name: &str)
        ensures
            final(self)@ == old(self)@.say(
                "error"@,
                "Unknown command: "@ + name@ + " (type /help)"@,
            ),
            old(self)@.wf() ==> final(self)@.wf(),
    {
        let content = chars::cat3("Unknown command: ", name, " (type /help)");
        self.say("error", content.as_str());
    }

    fn run_command(&mut self, parts: &Vec<String>)
        requires
            parts@.len() > 0,
            old(self)@.wf(),
        ensures
            final(self)@ == old(self)@.command_run(chars::strs(parts@)),
            final(self)@.wf(),
    {
        let name = parts[0].as_str();
        if chars::str_eq(name, "/clear") {
            self.clear_command();
        } else if chars::str_eq(name, "/thinking") {
            self.run_thinking(parts);
        } else if chars::str_eq(name, "/suggestions") {
            self.run_suggestions(parts);
        } else if chars::str_eq(name, "/mouse") {
            self.run_mouse(parts);
        } else if chars::str_eq(name, "/copy") {
            self.copy_last_assistant_to_clipboard();
        } else if chars::str_eq(name, "/select") {
            self.run_select(parts);
        } else if chars::str_eq(name, "/model") {
            self.run_model(parts);
        } else if chars::str_eq(name, "/cost") {
            self.show_cost();
        } else if chars::str_eq(name, "/provider") {
            self.run_provider(parts);
        } else if chars::str_eq(name, "/help") {
            self.open_help();
        } else if chars::str_eq(name, "/skills") {
            self.ask(Request::ListSkills);
        } else if chars::str_eq(name, "/mcp") {
            self.ask(Request::ListMcpServers);
        } else if chars::str_eq(name, "/auth") {
            self.run_auth(parts);
        } else if chars::str_eq(name, "/theme") {
            self.run_theme(parts);
        } else if chars::str_eq(name, "/reset") {
            self.run_reset(parts);
        } else if chars::str_eq(name, "/compact") {
            self.run_compact();
        } else if chars::str_eq(name, "/save") {
            self.save_session();
        } else if chars::str_eq(name, "/sessions") {
            self.list_sessions();
        } else if chars::str_eq(name, "/delete") {
            self.run_delete(parts);
        } else if chars::str_eq(name, "/resume") {
            self.run_resume();
        } else {
            self.reject_command(name);
        }
    }

    /// Runs a command line. Returns `false` to exit the program.
    pub fn handle_command(&mut self, cmd: &str) -> (r: bool)
        requires
            old(self)@.wf(),
        ensures
            (final(self)@, r) == old(self)@.commanded(cmd@),
            final(self)@.wf(),
    {
        proof {
            reveal(TuiModel::commanded);
        }
        let parts = chars::split_words(cmd);
        assert(chars::words(cmd@).len() == parts@.len());
        if parts.len() == 0 {
            return true;
        }
        let name = parts[0].as_str();
        if chars::str_eq(name, "/exit") || chars::str_eq(name, "/quit") || chars::str_eq(
            name,
            "/q",
        ) {
            return false;
        }
        self.run_command(&parts);
        true
    }
}

} // verus!
