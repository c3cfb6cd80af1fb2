//! Enter: picking from a list, saving an API key, sending a prompt.

use crate::chars;
use crate::llm;
use crate::llm::ImageBlock;
use crate::request;
use crate::request::Request;
use crate::state::{
    AccountView, ChatView, ComposerView, LooksView, PromptsView, ScrollView, State, Tui, TuiModel,
};
use crate::theme;
use crate::wire;
use vstd::prelude::*;

verus! {

impl TuiModel {
    /// With the selected provider picked.
    #[verifier::opaque]
    pub open spec fn provider_entered(self) -> TuiModel {
        let m = self.provider_picker_closed();
        if self.pickers.provider_picker_sel < self.pickers.provider_picker_list.len() {
            m.provider_picked(self.pickers.provider_picker_list[self.pickers.provider_picker_sel as int])
        } else {
            m
        }
    }

    /// With no change of provider pending.
    #[verifier::opaque]
    pub open spec fn nothing_pending(self) -> TuiModel {
        TuiModel {
            account: AccountView { pending_provider_selection: None, ..self.account },
            ..self
        }
    }

    /// With the selected model on its way to being saved, along with the
    /// provider whose list it is from.
    #[verifier::opaque]
    pub open spec fn model_entered(self) -> TuiModel {
        let m = self.model_picker_closed();
        if self.pickers.picker_sel < self.pickers.picker_models.len() {
            m.nothing_pending().selection_asked(
                self.target_provider(),
                self.pickers.picker_models[self.pickers.picker_sel as int].id,
            )
        } else {
            m.selection_cancelled()
        }
    }

    /// With the selected session on its way to being read, or removed.
    #[verifier::opaque]
    pub open spec fn session_entered(self) -> TuiModel {
        let m = self.session_picker_closed();
        if self.saved.picker_session_sel < self.saved.picker_sessions.len() {
            let id = self.saved.picker_sessions[self.saved.picker_session_sel as int].id;
            if self.saved.session_picker_delete {
                m.ask(request::RequestView::DeleteSession(id))
            } else {
                m.ask(request::RequestView::LoadSession(id))
            }
        } else {
            m
        }
    }

    /// With the theme list closed, whatever theme is previewed.
    #[verifier::opaque]
    pub open spec fn theme_picker_closed(self) -> TuiModel {
        TuiModel {
            looks: LooksView { show_theme_picker: false, theme_before_picker: None, ..self.looks },
            ..self
        }
    }

    /// With the selected theme on its way to being saved.
    #[verifier::opaque]
    pub open spec fn theme_entered(self) -> TuiModel {
        if self.looks.theme_picker_sel < self.looks.theme_picker_list.len() {
            self.ask(
                request::RequestView::SaveTheme {
                    selected: self.looks.theme_picker_list[self.looks.theme_picker_sel as int],
                    previous: match self.looks.theme_before_picker {
                        Some(name) => self.host.theme_named(name),
                        None => self.looks.theme,
                    },
                },
            ).theme_picker_closed()
        } else {
            self.theme_picker_closed()
        }
    }

    /// With the entry of an API key over.
    #[verifier::opaque]
    pub open spec fn key_entry_over(self) -> TuiModel {
        TuiModel {
            account: AccountView { awaiting_api_key: false, api_key_target: None, ..self.account },
            ..self
        }
    }

    /// With the API key on its way to being saved, where one was typed.
    #[verifier::opaque]
    pub open spec fn api_key_entered(self) -> TuiModel {
        let key = chars::trim(self.composer.input_buf);
        let target = match self.account.api_key_target {
            Some(t) => t,
            None => self.account.provider,
        };
        let m = self.with_input(seq![]);
        if key.len() == 0 {
            m
        } else {
            m.key_entry_over().ask(request::RequestView::SaveApiKey { target, key })
        }
    }

    /// With a prompt in the history.
    #[verifier::opaque]
    pub open spec fn remembered(self, input: Seq<char>) -> TuiModel {
        if input.len() == 0 {
            self
        } else {
            TuiModel {
                composer: ComposerView {
                    history: self.composer.history.push(input),
                    hist_idx: (self.composer.history.len() + 1) as usize,
                    ..self.composer
                },
                ..self
            }
        }
    }

    /// With everything set for a new turn: no recovery prompt, the transcript
    /// at its bottom, no suggestion, and an end to be announced.
    #[verifier::opaque]
    pub open spec fn turn_prepared(self) -> TuiModel {
        TuiModel {
            prompts: PromptsView { show_recovery_prompt: false, ..self.prompts },
            scroll: ScrollView { transcript_follow: true, ..self.scroll },
            chat: ChatView { expect_turn_notify: true, ..self.chat },
            composer: ComposerView { idle_suggestion: None, ..self.composer },
            ..self
        }
    }

    /// With the attached images gone.
    #[verifier::opaque]
    pub open spec fn images_sent(self) -> TuiModel {
        TuiModel {
            composer: ComposerView { pending_images: seq![], ..self.composer },
            ..self
        }
    }

    /// With a prompt and the attached images sent to the agent.
    #[verifier::opaque]
    pub open spec fn prompt_sent(self, input: Seq<char>) -> TuiModel {
        let images = self.composer.pending_images;
        self.with_input(seq![]).remembered(input).turn_prepared().identified().images_sent().say(
            "user"@,
            llm::user_label(input, images.len()),
        ).running().to_agent(
            if images.len() == 0 {
                input
            } else {
                wire::user_json_cmd(input, images)
            },
        )
    }

    /// What Enter does in the composer, and whether the program goes on: run a
    /// command, else send a prompt, where there is anything to send.
    #[verifier::opaque]
    pub open spec fn submitted(self) -> (TuiModel, bool) {
        let input = chars::trim(self.composer.input_buf);
        if input.len() == 0 && self.composer.pending_images.len() == 0 {
            (self, true)
        } else if input.len() > 0 && input[0] == '/' && self.composer.pending_images.len() == 0 {
            self.with_input(seq![]).commanded(input)
        } else {
            (self.prompt_sent(input), true)
        }
    }

    /// With leftover completions gone.
    pub open spec fn ready_to_enter(self) -> TuiModel {
        if self.composer.show_command_picker || self.composer.cmd_picker_filtered.len() > 0 {
            self.completions_closed()
        } else {
            self
        }
    }

    /// What Enter does once completions are gone, and whether the program
    /// goes on.
    #[verifier::opaque]
    pub open spec fn enter_taken(self) -> (TuiModel, bool) {
        if self.pickers.show_provider_picker {
            (self.provider_entered(), true)
        } else if self.pickers.show_model_picker {
            (self.model_entered(), true)
        } else if self.saved.show_session_picker {
            (self.session_entered(), true)
        } else if self.looks.show_theme_picker {
            (self.theme_entered(), true)
        } else if self.account.awaiting_api_key {
            (self.api_key_entered(), true)
        } else if self.chat.state != State::Idle {
            (self, true)
        } else {
            self.submitted()
        }
    }

    /// Enter.
    #[verifier::opaque]
    pub open spec fn entered(self) -> (TuiModel, bool) {
        self.ready_to_enter().enter_taken()
    }
}

impl Tui {
    fn enter_provider(&mut self)
        ensures
            final(self)@ == old(self)@.provider_entered(),
            old(self)@.wf() ==> final(self)@.wf(),
    {
        proof {
            reveal(TuiModel::provider_entered);
        }
        let sel = self.pickers.provider_picker_sel;
        if sel < self.pickers.provider_picker_list.len() {
            let name = self.pickers.provider_picker_list[sel].clone();
            self.close_provider_picker();
            self.pick_provider(name.as_str());
        } else {
            self.close_provider_picker();
        }
    }

    fn clear_pending(&mut self)
        ensures
            final(self)@ == old(self)@.nothing_pending(),
            old(self)@.wf() ==> final(self)@.wf(),
    {
        proof {
            reveal(TuiModel::nothing_pending);
        }
        self.account.pending_provider_selection = None;
    }

    fn enter_model(&mut self)
        ensures
            final(self)@ == old(self)@.model_entered(),
            old(self)@.wf() ==> final(self)@.wf(),
    {
        proof {
            reveal(TuiModel::model_entered);
        }
        let sel = self.pickers.picker_sel;
        if sel < self.pickers.picker_models.len() {
            let model = self.pickers.picker_models[sel].id.clone();
            let provider = match &self.account.pending_provider_selection {
                Some(p) => p.clone(),
                None => self.account.provider.clone(),
            };
            self.close_model_picker();
            self.clear_pending();
            self.finish_provider_model_selection(provider.as_str(), model.as_str());
        } else {
            self.close_model_picker();
            self.cancel_pending_provider_selection();
        }
    }

    fn enter_session(&mut self)
        ensures
            final(self)@ == old(self)@.session_entered(),
            old(self)@.wf() ==> final(self)@.wf(),
    {
        proof {
            reveal(TuiModel::session_entered);
        }
        let sel = self.saved.picker_session_sel;
        if sel < self.saved.picker_sessions.len() {
            let id = self.saved.picker_sessions[sel].id.clone();
            let deleting = self.saved.session_picker_delete;
            self.close_session_picker();
            if deleting {
                self.delete_session(id.as_str());
            } else {
                self.resume_session(id.as_str());
            }
        } else {
            self.close_session_picker();
        }
    }

    fn close_theme_picker(&mut self)
        ensures
            final(self)@ == old(self)@.theme_picker_closed(),
            old(self)@.wf() ==> final(self)@.wf(),
    {
        proof {
            reveal(TuiModel::theme_picker_closed);
        }
        self.looks.show_theme_picker = false;
        self.looks.theme_before_picker = None;
    }

    fn enter_theme(&mut self)
        ensures
            final(self)@ == old(self)@.theme_entered(),
            old(self)@.wf() ==> final(self)@.wf(),
    {
        proof {
            reveal(TuiModel::theme_entered);
        }
        let sel = self.looks.theme_picker_sel;
        if sel < self.looks.theme_picker_list.len() {
            let selected = theme::clone_theme(&self.looks.theme_picker_list[sel]);
            let previous = match &self.looks.theme_before_picker {
                Some(name) => self.host.theme_or_default(name.as_str()),
                None => theme::clone_theme(&self.looks.theme),
            };
            self.ask(Request::SaveTheme { selected, previous });
        }
        self.close_theme_picker();
    }

    fn end_key_entry(&mut self)
        ensures
            final(self)@ == old(self)@.key_entry_over(),
            old(self)@.wf() ==> final(self)@.wf(),
    {
        proof {
            reveal(TuiModel::key_entry_over);
        }
        self.account.awaiting_api_key = false;
        self.account.api_key_target = None;
    }

    fn enter_api_key(&mut self)
        requires
            old(self)@.wf(),
        ensures
            final(self)@ == old(self)@.api_key_entered(),
            final(self)@.wf(),
    {
        proof {
            reveal(TuiModel::api_key_entered);
        }
        let key = chars::trimmed(self.composer.input_buf.as_str());
        let target = match &self.account.api_key_target {
            Some(t) => t.clone(),
            None => self.account.provider.clone(),
        };
        self.clear_input();
        if key.as_str().is_empty() {
            return;
        }
        self.end_key_entry();
        self.ask(Request::SaveApiKey { target, key });
    }

    fn remember_prompt(&mut self, input: &str)
        requires
            old(self)@.wf(),
        ensures
            final(self)@ == old(self)@.remembered(input@),
            final(self)@.wf(),
    {
        proof {
            reveal(TuiModel::remembered);
        }
        if input.is_empty() {
            return;
        }
        let entry = String::from_str(input);
        proof {
            chars::lemma_strs_push(self.composer.history@, entry);
        }
        self.composer.history.push(entry);
        self.composer.hist_idx = self.composer.history.len();
    }

    fn prepare_turn(&mut self)
        ensures
            final(self)@ == old(self)@.turn_prepared(),
            old(self)@.wf() ==> final(self)@.wf(),
    {
        proof {
            reveal(TuiModel::turn_prepared);
        }
        self.prompts.show_recovery_prompt = false;
        // New turn: pin transcript to bottom (follow latest output).
        self.scroll.transcript_follow = true;
        self.chat.expect_turn_notify = true;
        self.composer.idle_suggestion = None;
    }

    fn take_images(&mut self) -> (r: Vec<ImageBlock>)
        ensures
            llm::images(r@) == old(self)@.composer.pending_images,
            final(self)@ == old(self)@.images_sent(),
            old(self)@.wf() ==> final(self)@.wf(),
    {
        proof {
            reveal(TuiModel::images_sent);
        }
        let mut images: Vec<ImageBlock> = Vec::new();
        std::mem::swap(&mut images, &mut self.composer.pending_images);
        assert(self.composer@.pending_images =~= seq![]);
        images
    }

    fn send_prompt(&mut self, input: &str)
        requires
            old(self)@.wf(),
        ensures
            final(self)@ == old(self)@.prompt_sent(input@),
            final(self)@.wf(),
    {
        proof {
            reveal(TuiModel::prompt_sent);
            reveal(TuiModel::remembered);
            reveal(TuiModel::turn_prepared);
        }
        self.clear_input();
        self.remember_prompt(input);
        self.prepare_turn();
        // Stable id for the whole conversation so mid-turn checkpoints
        // and the final save share one file from the first prompt.
        self.ensure_session_identity();
        let images = self.take_images();
        assert(llm::images(images@).len() == images@.len());
        let label = llm::turn_label(input, images.len());
        self.say("user", label.as_str());
        self.begin_running();
        if images.len() == 0 {
            self.to_agent(input);
        } else {
            let command = wire::encode_user_json_cmd(input, images.as_slice());
            self.to_agent(command.as_str());
        }
    }

    fn submit(&mut self) -> (r: bool)
        requires
            old(self)@.wf(),
        ensures
            (final(self)@, r) == old(self)@.submitted(),
            final(self)@.wf(),
    {
        proof {
            reveal(TuiModel::submitted);
            assert(self@.composer.pending_images.len() == self.composer.pending_images@.len());
        }
        let input = chars::trimmed(self.composer.input_buf.as_str());
        let no_images = self.composer.pending_images.len() == 0;
        if input.as_str().is_empty() && no_images {
            return true;
        }
        if chars::starts_with_char(input.as_str(), '/') && no_images {
            self.clear_input();
            return self.handle_command(input.as_str());
        }
        self.send_prompt(input.as_str());
        true
    }

    fn take_enter(&mut self) -> (r: bool)
        requires
            old(self)@.wf(),
        ensures
            (final(self)@, r) == old(self)@.enter_taken(),
            final(self)@.wf(),
    {
        proof {
            reveal(TuiModel::enter_taken);
        }
        if self.pickers.show_provider_picker {
            self.enter_provider();
        } else if self.pickers.show_model_picker {
            self.enter_model();
        } else if self.saved.show_session_picker {
            self.enter_session();
        } else if self.looks.show_theme_picker {
            self.enter_theme();
        } else if self.account.awaiting_api_key {
            self.enter_api_key();
        } else if self.chat.state == State::Idle {
            return self.submit();
        }
        true
    }

    /// Enter always submits the typed buffer (Tab/Right accept the ghost first).
    /// Returns `false` to exit the program.
    pub fn handle_enter(&mut self) -> (r: bool)
        requires
            old(self)@.wf(),
        ensures
            (final(self)@, r) == old(self)@.entered(),
            final(self)@.wf(),
    {
        proof {
            reveal(TuiModel::entered);
        }
        // Clear any leftover slash-completion state so it does not steal focus.
        if self.composer.show_command_picker || self.composer.cmd_picker_filtered.len() > 0 {
            self.close_completions();
        }
        self.take_enter()
    }
}

} // verus!
