//! Keys that reach the lists and the composer.

use crate::chars;
use crate::completion;
use crate::edit;
use crate::state::{
    AccountView, ComposerView, LooksView, PickersView, PromptsView, SavedView, State, Tui, TuiModel,
};
use crate::theme;
use vstd::prelude::*;

verus! {

// ---------------------------------------------------------------------------
// Arrows
// ---------------------------------------------------------------------------

impl TuiModel {
    /// With another saved session selected.
    #[verifier::opaque]
    pub open spec fn session_selected(self, sel: int) -> TuiModel {
        TuiModel {
            saved: SavedView { picker_session_sel: sel as usize, ..self.saved },
            ..self
        }
    }

    /// With another theme selected and previewed.
    #[verifier::opaque]
    pub open spec fn theme_selected(self, sel: int) -> TuiModel {
        TuiModel {
            looks: LooksView {
                theme_picker_sel: sel as usize,
                theme: self.looks.theme_picker_list[sel],
                ..self.looks
            },
            ..self
        }
    }

    /// With another completion selected.
    #[verifier::opaque]
    pub open spec fn completion_selected(self, sel: int) -> TuiModel {
        TuiModel {
            composer: ComposerView { cmd_picker_sel: sel as usize, ..self.composer },
            ..self
        }
    }

    /// With another provider selected.
    #[verifier::opaque]
    pub open spec fn provider_selected(self, sel: int) -> TuiModel {
        TuiModel {
            pickers: PickersView { provider_picker_sel: sel as usize, ..self.pickers },
            ..self
        }
    }

    /// With another model selected, and the list scrolled to show it.
    #[verifier::opaque]
    pub open spec fn model_selected(self, sel: int) -> TuiModel {
        let vh = self.visible_models();
        TuiModel {
            pickers: PickersView {
                picker_sel: sel as usize,
                picker_scrl: if sel < self.pickers.picker_sel {
                    if sel < self.pickers.picker_scrl {
                        sel as usize
                    } else {
                        self.pickers.picker_scrl
                    }
                } else if sel >= self.pickers.picker_scrl + vh {
                    (sel - vh + 1) as usize
                } else {
                    self.pickers.picker_scrl
                },
                ..self.pickers
            },
            ..self
        }
    }

    /// Up: in the open list, else through the transcript where it overflows,
    /// else through the prompt history.
    #[verifier::opaque]
    pub open spec fn up(self) -> TuiModel {
        if self.saved.show_session_picker {
            if self.saved.picker_session_sel > 0 {
                self.session_selected(self.saved.picker_session_sel - 1)
            } else {
                self
            }
        } else if self.looks.show_theme_picker {
            if self.looks.theme_picker_sel > 0 {
                self.theme_selected(self.looks.theme_picker_sel - 1)
            } else {
                self
            }
        } else if self.composer.cmd_picker_filtered.len() > 0 {
            if self.composer.cmd_picker_sel > 0 {
                self.completion_selected(self.composer.cmd_picker_sel - 1)
            } else {
                self
            }
        } else if self.pickers.show_provider_picker {
            if self.pickers.provider_picker_sel > 0 {
                self.provider_selected(self.pickers.provider_picker_sel - 1)
            } else {
                self
            }
        } else if self.pickers.show_model_picker {
            if self.pickers.picker_sel > 0 {
                self.model_selected(self.pickers.picker_sel - 1)
            } else {
                self
            }
        } else if self.scroll.max_off() > 0 {
            self.scrolled_by(-3)
        } else {
            self.history_back()
        }
    }

    /// Down: in the open list, else through the transcript where it overflows,
    /// else through the prompt history.
    #[verifier::opaque]
    pub open spec fn down(self) -> TuiModel {
        if self.saved.show_session_picker {
            if self.saved.picker_session_sel + 1 < self.saved.picker_sessions.len() {
                self.session_selected(self.saved.picker_session_sel + 1)
            } else {
                self
            }
        } else if self.looks.show_theme_picker {
            if self.looks.theme_picker_sel + 1 < self.looks.theme_picker_list.len() {
                self.theme_selected(self.looks.theme_picker_sel + 1)
            } else {
                self
            }
        } else if self.composer.cmd_picker_filtered.len() > 0 {
            if self.composer.cmd_picker_sel + 1 < self.composer.cmd_picker_filtered.len() {
                self.completion_selected(self.composer.cmd_picker_sel + 1)
            } else {
                self
            }
        } else if self.pickers.show_provider_picker {
            if self.pickers.provider_picker_sel + 1 < self.pickers.provider_picker_list.len() {
                self.provider_selected(self.pickers.provider_picker_sel + 1)
            } else {
                self
            }
        } else if self.pickers.show_model_picker {
            if self.pickers.picker_sel + 1 < self.pickers.picker_models.len() {
                self.model_selected(self.pickers.picker_sel + 1)
            } else {
                self
            }
        } else if self.scroll.max_off() > 0 {
            self.scrolled_by(3)
        } else {
            self.history_forward()
        }
    }

    /// With the composer's cursor moved.
    #[verifier::opaque]
    pub open spec fn cursor_at(self, at: int) -> TuiModel {
        TuiModel {
            composer: ComposerView { cursor: at as usize, ..self.composer },
            ..self
        }
    }

    /// Left: one character back.
    pub open spec fn left(self) -> TuiModel {
        self.cursor_at(edit::left_of(self.composer.input_buf, self.composer.cursor as int))
    }

    /// With the ready-to-send prompt in the composer.
    #[verifier::opaque]
    pub open spec fn suggestion_taken(self, hint: Seq<char>) -> TuiModel {
        (TuiModel {
            composer: ComposerView { idle_suggestion: None, ..self.composer },
            ..self
        }).with_input(hint)
    }

    /// What Right accepts at the end of the composer: the slash completion
    /// that extends it, else the ready-to-send prompt.
    pub open spec fn accepted(self) -> Option<TuiModel> {
        if self.composer.cursor < chars::byte_len(self.composer.input_buf) || self.account.awaiting_api_key {
            None
        } else if self.selected_completion() is Some && completion::ghost_suffix(
            self.composer.input_buf,
            self.selected_completion()->0,
        ) is Some {
            Some(self.filled_in(self.selected_completion()->0))
        } else if self.composer.input_buf.len() == 0 && self.composer.idle_suggestion is Some {
            Some(self.suggestion_taken(self.composer.idle_suggestion->0))
        } else {
            None
        }
    }

    /// Right: accept what is offered at the end, else one character on.
    #[verifier::opaque]
    pub open spec fn right(self) -> TuiModel {
        match self.accepted() {
            Some(m) => m,
            None => self.cursor_at(edit::right_of(self.composer.input_buf, self.composer.cursor as int)),
        }
    }

    /// Tab: the ready-to-send prompt in an empty composer, else the selected
    /// completion.
    #[verifier::opaque]
    pub open spec fn tabbed(self) -> TuiModel {
        if self.composer.input_buf.len() == 0 && !self.account.awaiting_api_key && !self.pickers.show_model_picker
            && !self.pickers.show_provider_picker && !self.looks.show_theme_picker && !self.saved.show_session_picker
            && self.composer.idle_suggestion is Some {
            self.suggestion_taken(self.composer.idle_suggestion->0)
        } else {
            let m = if self.composer.input_buf.len() > 0 && self.composer.input_buf[0] == '/' {
                self.completed()
            } else {
                self
            };
            match m.selected_completion() {
                Some(choice) => m.filled_in(choice),
                None => m,
            }
        }
    }
}

impl Tui {
    fn select_session(&mut self, sel: usize)
        requires
            old(self)@.wf(),
            sel < usize::MAX,
        ensures
            final(self)@ == old(self)@.session_selected(sel as int),
            final(self)@.wf(),
    {
        proof {
            reveal(TuiModel::session_selected);
        }
        self.saved.picker_session_sel = sel;
    }

    fn select_theme(&mut self, sel: usize)
        requires
            old(self)@.wf(),
            sel < old(self)@.looks.theme_picker_list.len(),
        ensures
            final(self)@ == old(self)@.theme_selected(sel as int),
            final(self)@.wf(),
    {
        proof {
            reveal(TuiModel::theme_selected);
        }
        self.looks.theme_picker_sel = sel;
        self.looks.theme = theme::clone_theme(&self.looks.theme_picker_list[sel]);
    }

    fn select_completion(&mut self, sel: usize)
        ensures
            final(self)@ == old(self)@.completion_selected(sel as int),
            old(self)@.wf() ==> final(self)@.wf(),
    {
        proof {
            reveal(TuiModel::completion_selected);
        }
        self.composer.cmd_picker_sel = sel;
    }

    fn select_provider(&mut self, sel: usize)
        ensures
            final(self)@ == old(self)@.provider_selected(sel as int),
            old(self)@.wf() ==> final(self)@.wf(),
    {
        proof {
            reveal(TuiModel::provider_selected);
        }
        self.pickers.provider_picker_sel = sel;
    }

    fn select_model(&mut self, sel: usize)
        requires
            old(self)@.wf(),
            sel < usize::MAX,
            sel < old(self)@.pickers.picker_sel || sel + 1 <= old(self)@.pickers.picker_models.len(),
        ensures
            final(self)@ == old(self)@.model_selected(sel as int),
            final(self)@.wf(),
    {
        proof {
            reveal(TuiModel::model_selected);
        }
        let vh = self.picker_visible_height();
        let top = self.pickers.picker_scrl;
        let first: usize = if sel < self.pickers.picker_sel {
            if sel < top {
                sel
            } else {
                top
            }
        } else if sel >= top && sel - top >= vh {
            sel - vh + 1
        } else {
            top
        };
        self.pickers.picker_scrl = first;
        self.pickers.picker_sel = sel;
    }

    pub(crate) fn handle_up(&mut self)
        requires
            old(self)@.wf(),
        ensures
            final(self)@ == old(self)@.up(),
            final(self)@.wf(),
    {
        proof {
            reveal(TuiModel::up);
        }
        if self.saved.show_session_picker {
            if self.saved.picker_session_sel > 0 {
                let sel = self.saved.picker_session_sel - 1;
                self.select_session(sel);
            }
        } else if self.looks.show_theme_picker {
            if self.looks.theme_picker_sel > 0 {
                let sel = self.looks.theme_picker_sel - 1;
                self.select_theme(sel);
            }
        } else if self.composer.cmd_picker_filtered.len() > 0 {
            // Cycle slash ghost candidates without a multi-line picker.
            if self.composer.cmd_picker_sel > 0 {
                let sel = self.composer.cmd_picker_sel - 1;
                self.select_completion(sel);
            }
        } else if self.pickers.show_provider_picker {
            if self.pickers.provider_picker_sel > 0 {
                let sel = self.pickers.provider_picker_sel - 1;
                self.select_provider(sel);
            }
        } else if self.pickers.show_model_picker {
            if self.pickers.picker_sel > 0 {
                let sel = self.pickers.picker_sel - 1;
                self.select_model(sel);
            }
        } else if self.transcript_max_off() > 0 {
            // Terminals on the alt screen often send the mouse wheel as bare
            // Up/Down. Prefer transcript scroll whenever the chat overflows so
            // the wheel does not walk prompt history.
            self.scroll_transcript(false, 3);
        } else {
            self.history_prev();
        }
    }

    pub(crate) fn handle_down(&mut self)
        requires
            old(self)@.wf(),
        ensures
            final(self)@ == old(self)@.down(),
            final(self)@.wf(),
    {
        proof {
            reveal(TuiModel::down);
        }
        if self.saved.show_session_picker {
            let sel = self.saved.picker_session_sel + 1;
            if sel < self.saved.picker_sessions.len() {
                self.select_session(sel);
            }
        } else if self.looks.show_theme_picker {
            let n = self.looks.theme_picker_list.len();
            if self.looks.theme_picker_sel < n && self.looks.theme_picker_sel + 1 < n {
                let sel = self.looks.theme_picker_sel + 1;
                self.select_theme(sel);
            }
        } else if self.composer.cmd_picker_filtered.len() > 0 {
            let n = self.composer.cmd_picker_filtered.len();
            if self.composer.cmd_picker_sel < n && self.composer.cmd_picker_sel + 1 < n {
                let sel = self.composer.cmd_picker_sel + 1;
                self.select_completion(sel);
            }
        } else if self.pickers.show_provider_picker {
            let n = self.pickers.provider_picker_list.len();
            if self.pickers.provider_picker_sel < n && self.pickers.provider_picker_sel + 1 < n {
                let sel = self.pickers.provider_picker_sel + 1;
                self.select_provider(sel);
            }
        } else if self.pickers.show_model_picker {
            let sel = self.pickers.picker_sel + 1;
            if sel < self.pickers.picker_models.len() {
                self.select_model(sel);
            }
        } else if self.transcript_max_off() > 0 {
            self.scroll_transcript(true, 3);
        } else {
            self.history_next();
        }
    }

    fn put_cursor(&mut self, at: usize)
        requires
            old(self)@.wf(),
            chars::on_boundary(old(self)@.composer.input_buf, at as int),
        ensures
            final(self)@ == old(self)@.cursor_at(at as int),
            final(self)@.wf(),
    {
        proof {
            reveal(TuiModel::cursor_at);
        }
        self.composer.cursor = at;
    }

    pub(crate) fn handle_left(&mut self)
        requires
            old(self)@.wf(),
        ensures
            final(self)@ == old(self)@.left(),
            final(self)@.wf(),
    {
        let at = edit::move_left(self.composer.input_buf.as_str(), self.composer.cursor);
        self.put_cursor(at);
    }

    fn take_suggestion(&mut self, hint: String)
        requires
            old(self)@.wf(),
        ensures
            final(self)@ == old(self)@.suggestion_taken(hint@),
            final(self)@.wf(),
    {
        proof {
            reveal(TuiModel::suggestion_taken);
        }
        self.composer.idle_suggestion = None;
        self.set_input(hint);
    }

    fn accept_offer(&mut self) -> (done: bool)
        requires
            old(self)@.wf(),
        ensures
            done == (old(self)@.accepted() is Some),
            final(self)@ == (match old(self)@.accepted() {
                Some(m) => m,
                None => old(self)@,
            }),
            final(self)@.wf(),
    {
        if self.composer.cursor < chars::str_bytes(self.composer.input_buf.as_str())
            || self.account.awaiting_api_key {
            return false;
        }
        match self.selected_slash_completion() {
            Some(cmd) => {
                if completion::slash_ghost_suffix(
                    self.composer.input_buf.as_str(),
                    cmd.as_str(),
                ).is_some() {
                    self.apply_slash_completion(cmd.as_str());
                    return true;
                }
            },
            None => {},
        }
        if self.composer.input_buf.as_str().is_empty() {
            match chars::clone_opt(&self.composer.idle_suggestion) {
                Some(hint) => {
                    self.take_suggestion(hint);
                    return true;
                },
                None => {},
            }
        }
        false
    }

    pub(crate) fn handle_right(&mut self)
        requires
            old(self)@.wf(),
        ensures
            final(self)@ == old(self)@.right(),
            final(self)@.wf(),
    {
        proof {
            reveal(TuiModel::right);
        }
        if !self.accept_offer() {
            let at = edit::move_right(self.composer.input_buf.as_str(), self.composer.cursor);
            self.put_cursor(at);
        }
    }

    fn complete_selected(&mut self)
        requires
            old(self)@.wf(),
        ensures
            final(self)@ == (match old(self)@.selected_completion() {
                Some(choice) => old(self)@.filled_in(choice),
                None => old(self)@,
            }),
            final(self)@.wf(),
    {
        match self.selected_slash_completion() {
            Some(cmd) => self.apply_slash_completion(cmd.as_str()),
            None => {},
        }
    }

    pub(crate) fn handle_tab(&mut self)
        requires
            old(self)@.wf(),
        ensures
            final(self)@ == old(self)@.tabbed(),
            final(self)@.wf(),
    {
        proof {
            reveal(TuiModel::tabbed);
        }
        // Empty composer: accept grayed ready-to-send prompt.
        if self.composer.input_buf.as_str().is_empty() && !self.account.awaiting_api_key
            && !self.pickers.show_model_picker && !self.pickers.show_provider_picker
            && !self.looks.show_theme_picker && !self.saved.show_session_picker {
            match chars::clone_opt(&self.composer.idle_suggestion) {
                Some(hint) => {
                    self.take_suggestion(hint);
                    return;
                },
                None => {},
            }
        }
        // Slash ghost: Tab fills the selected completion (then next-arg candidates).
        if chars::starts_with_char(self.composer.input_buf.as_str(), '/') {
            self.update_cmd_picker();
        }
        self.complete_selected();
    }
}

// ---------------------------------------------------------------------------
// Leaving things
// ---------------------------------------------------------------------------

impl TuiModel {
    /// With the entry of an API key given up.
    #[verifier::opaque]
    pub open spec fn key_entry_cancelled(self) -> TuiModel {
        let m = self.selection_cancelled().with_input(seq![]);
        (TuiModel {
            account: AccountView { awaiting_api_key: false, api_key_target: None, ..m.account },
            ..m
        }).say(
            "system"@,
            "API key entry cancelled."@,
        )
    }

    /// With the command list dismissed.
    #[verifier::opaque]
    pub open spec fn completions_closed(self) -> TuiModel {
        TuiModel {
            composer: ComposerView {
                show_command_picker: false,
                cmd_picker_filtered: seq![],
                cmd_picker_sel: 0,
                ..self.composer
            },
            ..self
        }
    }

    /// With the provider list closed.
    #[verifier::opaque]
    pub open spec fn provider_picker_closed(self) -> TuiModel {
        TuiModel {
            pickers: PickersView { show_provider_picker: false, ..self.pickers },
            ..self
        }
    }

    /// With the model list closed.
    #[verifier::opaque]
    pub open spec fn model_picker_closed(self) -> TuiModel {
        TuiModel {
            pickers: PickersView { show_model_picker: false, ..self.pickers },
            ..self
        }
    }

    /// With the list of saved sessions closed.
    #[verifier::opaque]
    pub open spec fn session_picker_closed(self) -> TuiModel {
        TuiModel {
            saved: SavedView {
                show_session_picker: false,
                session_picker_delete: false,
                ..self.saved
            },
            ..self
        }
    }

    /// With the running turn told to stop. It stays the running turn until the
    /// agent reports that it is done.
    #[verifier::opaque]
    pub open spec fn turn_cancelled(self, word: Seq<char>) -> TuiModel {
        self.set_cancel(true).selection_cancelled().flushed().say("system"@, word)
    }

    /// Esc.
    #[verifier::opaque]
    pub open spec fn escaped(self) -> TuiModel {
        if self.account.awaiting_api_key {
            self.key_entry_cancelled()
        } else if self.prompts.show_help {
            self.help_closed()
        } else if self.prompts.show_shortcuts {
            self.shortcuts_closed()
        } else if self.composer.show_command_picker || self.composer.cmd_picker_filtered.len() > 0 {
            self.completions_closed()
        } else if self.pickers.show_provider_picker {
            self.provider_picker_closed()
        } else if self.pickers.show_model_picker {
            self.model_picker_closed().selection_cancelled()
        } else if self.saved.show_session_picker {
            self.session_picker_closed()
        } else if self.looks.show_theme_picker {
            self.theme_picker_left()
        } else if self.chat.state == State::Running {
            self.turn_cancelled("Cancelled."@)
        } else {
            self
        }
    }

    /// With the command list hidden.
    #[verifier::opaque]
    pub open spec fn completions_hidden(self) -> TuiModel {
        TuiModel {
            composer: ComposerView { show_command_picker: false, ..self.composer },
            ..self
        }
    }

    /// With the composer emptied, and its completions.
    #[verifier::opaque]
    pub open spec fn composer_emptied(self) -> TuiModel {
        let m = self.with_input(seq![]);
        TuiModel {
            composer: ComposerView {
                show_command_picker: false,
                cmd_picker_filtered: seq![],
                ..m.composer
            },
            ..m
        }
    }

    /// What Ctrl+C dismisses, if there is anything: overlays and prompts
    /// first, then the running turn, then what is typed.
    #[verifier::opaque]
    pub open spec fn dismissed(self) -> Option<TuiModel> {
        if self.account.awaiting_api_key {
            Some(self.key_entry_cancelled())
        } else if self.prompts.confirm_remove_provider is Some {
            Some(self.removal_closed())
        } else if self.prompts.confirm_history_provider is Some {
            Some(self.handover_closed())
        } else if self.composer.show_command_picker {
            Some(self.completions_hidden())
        } else if self.pickers.show_provider_picker {
            Some(self.provider_picker_closed())
        } else if self.pickers.show_model_picker {
            Some(self.model_picker_closed().selection_cancelled())
        } else if self.prompts.show_help {
            Some(self.help_closed())
        } else if self.prompts.show_shortcuts {
            Some(self.shortcuts_closed())
        } else if self.saved.show_session_picker {
            Some(self.session_picker_closed())
        } else if self.looks.show_theme_picker {
            Some(self.theme_picker_left())
        } else if self.prompts.show_recovery_prompt {
            Some(self.recovery_closed())
        } else if self.permission.show_permission_prompt {
            Some(self.decided("deny"@))
        } else if self.chat.state == State::Running {
            Some(self.turn_cancelled("Interrupted."@))
        } else if self.composer.input_buf.len() > 0 {
            Some(self.composer_emptied())
        } else {
            None
        }
    }

    /// What Ctrl+C does, and whether the program goes on: dismiss something,
    /// else arm the exit, else exit.
    #[verifier::opaque]
    pub open spec fn interrupted(self) -> (TuiModel, bool) {
        match self.dismissed() {
            Some(m) => (m.disarmed(), true),
            None => if self.ctrl_c_exit_armed {
                (self, false)
            } else {
                (TuiModel { ctrl_c_exit_armed: true, ..self }, true)
            },
        }
    }
}

impl Tui {
    fn cancel_key_entry(&mut self)
        requires
            old(self)@.wf(),
        ensures
            final(self)@ == old(self)@.key_entry_cancelled(),
            final(self)@.wf(),
    {
        proof {
            reveal(TuiModel::key_entry_cancelled);
        }
        self.cancel_pending_provider_selection();
        self.clear_input();
        self.account.awaiting_api_key = false;
        self.account.api_key_target = None;
        self.say("system", "API key entry cancelled.");
    }

    pub(crate) fn close_completions(&mut self)
        ensures
            final(self)@ == old(self)@.completions_closed(),
            old(self)@.wf() ==> final(self)@.wf(),
    {
        proof {
            reveal(TuiModel::completions_closed);
        }
        self.composer.show_command_picker = false;
        self.composer.cmd_picker_filtered = Vec::new();
        self.composer.cmd_picker_sel = 0;
        assert(self.composer@.cmd_picker_filtered =~= seq![]);
    }

    pub(crate) fn close_provider_picker(&mut self)
        ensures
            final(self)@ == old(self)@.provider_picker_closed(),
            old(self)@.wf() ==> final(self)@.wf(),
    {
        proof {
            reveal(TuiModel::provider_picker_closed);
        }
        self.pickers.show_provider_picker = false;
    }

    pub(crate) fn close_model_picker(&mut self)
        ensures
            final(self)@ == old(self)@.model_picker_closed(),
            old(self)@.wf() ==> final(self)@.wf(),
    {
        proof {
            reveal(TuiModel::model_picker_closed);
        }
        self.pickers.show_model_picker = false;
    }

    pub(crate) fn close_session_picker(&mut self)
        ensures
            final(self)@ == old(self)@.session_picker_closed(),
            old(self)@.wf() ==> final(self)@.wf(),
    {
        proof {
            reveal(TuiModel::session_picker_closed);
        }
        self.saved.show_session_picker = false;
        self.saved.session_picker_delete = false;
    }

    fn cancel_turn(&mut self, word: &str)
        ensures
            final(self)@ == old(self)@.turn_cancelled(word@),
            old(self)@.wf() ==> final(self)@.wf(),
    {
        proof {
            reveal(TuiModel::turn_cancelled);
        }
        self.set_cancel(true);
        self.cancel_pending_provider_selection();
        self.flush_streaming();
        self.say("system", word);
    }

    pub(crate) fn handle_esc(&mut self)
        requires
            old(self)@.wf(),
        ensures
            final(self)@ == old(self)@.escaped(),
            final(self)@.wf(),
    {
        proof {
            reveal(TuiModel::escaped);
        }
        if self.account.awaiting_api_key {
            self.cancel_key_entry();
        } else if self.prompts.show_help {
            self.close_help();
        } else if self.prompts.show_shortcuts {
            self.close_shortcuts();
        } else if self.composer.show_command_picker || self.composer.cmd_picker_filtered.len() > 0 {
            self.close_completions();
        } else if self.pickers.show_provider_picker {
            self.close_provider_picker();
        } else if self.pickers.show_model_picker {
            self.close_model_picker();
            self.cancel_pending_provider_selection();
        } else if self.saved.show_session_picker {
            self.close_session_picker();
        } else if self.looks.show_theme_picker {
            self.leave_theme_picker();
        } else if self.chat.state == State::Running {
            self.cancel_turn("Cancelled.");
        }
    }

    fn hide_completions(&mut self)
        ensures
            final(self)@ == old(self)@.completions_hidden(),
            old(self)@.wf() ==> final(self)@.wf(),
    {
        proof {
            reveal(TuiModel::completions_hidden);
        }
        self.composer.show_command_picker = false;
    }

    fn empty_composer(&mut self)
        requires
            old(self)@.wf(),
        ensures
            final(self)@ == old(self)@.composer_emptied(),
            final(self)@.wf(),
    {
        proof {
            reveal(TuiModel::composer_emptied);
        }
        self.clear_input();
        self.composer.show_command_picker = false;
        self.composer.cmd_picker_filtered = Vec::new();
        assert(self.composer@.cmd_picker_filtered =~= seq![]);
    }

    fn dismiss(&mut self) -> (done: bool)
        requires
            old(self)@.wf(),
        ensures
            done == (old(self)@.dismissed() is Some),
            final(self)@ == (match old(self)@.dismissed() {
                Some(m) => m,
                None => old(self)@,
            }),
            final(self)@.wf(),
    {
        proof {
            reveal(TuiModel::dismissed);
        }
        // Close overlays / cancel key entry first (same spirit as Esc).
        if self.account.awaiting_api_key {
            self.cancel_key_entry();
        } else if self.prompts.confirm_remove_provider.is_some() {
            self.close_removal();
        } else if self.prompts.confirm_history_provider.is_some() {
            self.close_handover();
        } else if self.composer.show_command_picker {
            self.hide_completions();
        } else if self.pickers.show_provider_picker {
            self.close_provider_picker();
        } else if self.pickers.show_model_picker {
            self.close_model_picker();
            self.cancel_pending_provider_selection();
        } else if self.prompts.show_help {
            self.close_help();
        } else if self.prompts.show_shortcuts {
            self.close_shortcuts();
        } else if self.saved.show_session_picker {
            self.close_session_picker();
        } else if self.looks.show_theme_picker {
            self.leave_theme_picker();
        } else if self.prompts.show_recovery_prompt {
            self.close_recovery();
        } else if self.permission.show_permission_prompt {
            self.submit_permission("deny");
        } else if self.chat.state == State::Running {
            // Interrupt a running agent turn.
            self.cancel_turn("Interrupted.");
        } else if !self.composer.input_buf.as_str().is_empty() {
            // Idle: clear non-empty prompt (first action).
            self.empty_composer();
        } else {
            return false;
        }
        true
    }

    /// Ctrl+C: interrupt running work; clear prompt when idle with
    /// text; on empty idle prompt, arm exit then quit on a second press.
    /// Returns `false` to exit the program.
    pub fn handle_ctrl_c(&mut self) -> (r: bool)
        requires
            old(self)@.wf(),
        ensures
            (final(self)@, r) == old(self)@.interrupted(),
            final(self)@.wf(),
    {
        proof {
            reveal(TuiModel::interrupted);
        }
        if self.dismiss() {
            self.ctrl_c_exit_armed = false;
            return true;
        }
        // Empty idle prompt: second Ctrl+C exits; first arms confirmation.
        // The hint stands in the footer chrome, not in a transcript line.
        if self.ctrl_c_exit_armed {
            return false;
        }
        self.ctrl_c_exit_armed = true;
        true
    }
}

// ---------------------------------------------------------------------------
// Editing
// ---------------------------------------------------------------------------

impl TuiModel {
    /// With the character before the cursor dropped.
    #[verifier::opaque]
    pub open spec fn input_backspaced(self) -> TuiModel {
        TuiModel {
            composer: ComposerView {
                input_buf: edit::backspaced(self.composer.input_buf, self.composer.cursor as int),
                cursor: edit::left_of(self.composer.input_buf, self.composer.cursor as int) as usize,
                ..self.composer
            },
            ..self
        }
    }

    /// Backspace.
    #[verifier::opaque]
    pub open spec fn backspace_pressed(self) -> TuiModel {
        if self.composer.cursor > 0 && self.composer_focused() {
            let m = self.input_backspaced().completed();
            if m.composer.input_buf.len() == 0 {
                m.suggested()
            } else {
                m
            }
        } else {
            self
        }
    }

    /// With the removal of an API key asked about.
    #[verifier::opaque]
    pub open spec fn removal_asked(self, name: Seq<char>) -> TuiModel {
        if self.host.known(name).config_has_api_key {
            TuiModel {
                prompts: PromptsView {
                    confirm_remove_provider: Some(name),
                    confirm_remove_sel: 0,
                    ..self.prompts
                },
                ..self
            }
        } else {
            self.say(
                "system"@,
                "No saved API key for "@ + name + " in the config file."@,
            )
        }
    }

    /// With the character at the cursor dropped.
    #[verifier::opaque]
    pub open spec fn input_deleted(self) -> TuiModel {
        TuiModel {
            composer: ComposerView {
                input_buf: edit::deleted(self.composer.input_buf, self.composer.cursor as int),
                ..self.composer
            },
            ..self
        }
    }

    /// Delete: a saved API key in the provider list, else the character at the
    /// cursor.
    #[verifier::opaque]
    pub open spec fn delete_pressed(self) -> TuiModel {
        if self.pickers.show_provider_picker {
            if self.pickers.provider_picker_sel < self.pickers.provider_picker_list.len() {
                self.removal_asked(self.pickers.provider_picker_list[self.pickers.provider_picker_sel as int])
            } else {
                self
            }
        } else if self.composer_focused() {
            self.input_deleted()
        } else {
            self
        }
    }

    /// Whether `?` opens the shortcuts panel instead of being typed.
    pub open spec fn shortcuts_offered(self) -> bool {
        !self.account.awaiting_api_key && self.composer.input_buf.len() == 0 && self.chat.state == State::Idle
            && !self.pickers.show_model_picker && !self.pickers.show_provider_picker && !self.looks.show_theme_picker
            && !self.saved.show_session_picker && !self.permission.show_permission_prompt
            && !self.prompts.show_recovery_prompt && self.prompts.confirm_remove_provider is None
            && self.prompts.confirm_history_provider is None
    }

    /// With the shortcuts panel toggled.
    #[verifier::opaque]
    pub open spec fn shortcuts_toggled(self) -> TuiModel {
        TuiModel {
            prompts: PromptsView { show_shortcuts: !self.prompts.show_shortcuts, ..self.prompts },
            ..self
        }
    }

    /// A character.
    #[verifier::opaque]
    pub open spec fn char_pressed(self, ch: char) -> TuiModel {
        if ch == '?' && self.shortcuts_offered() {
            self.shortcuts_toggled()
        } else if self.composer_focused() {
            self.input_typed(seq![ch]).recompleted()
        } else {
            self
        }
    }
}

impl Tui {
    fn backspace_input(&mut self)
        requires
            old(self)@.wf(),
        ensures
            final(self)@ == old(self)@.input_backspaced(),
            final(self)@.wf(),
    {
        proof {
            reveal(TuiModel::input_backspaced);
        }
        let (buf, at) = edit::backspace(self.composer.input_buf.as_str(), self.composer.cursor);
        self.composer.input_buf = buf;
        self.composer.cursor = at;
    }

    pub(crate) fn handle_backspace(&mut self)
        requires
            old(self)@.wf(),
        ensures
            final(self)@ == old(self)@.backspace_pressed(),
            final(self)@.wf(),
    {
        proof {
            reveal(TuiModel::backspace_pressed);
        }
        if self.composer.cursor > 0 && self.composer_has_focus() {
            self.backspace_input();
            self.update_cmd_picker();
            if self.composer.input_buf.as_str().is_empty() {
                self.refresh_idle_suggestion();
            }
        }
    }

    fn ask_removal(&mut self, name: &str)
        ensures
            final(self)@ == old(self)@.removal_asked(name@),
            old(self)@.wf() ==> final(self)@.wf(),
    {
        proof {
            reveal(TuiModel::removal_asked);
        }
        if self.host.known_of(name).config_has_api_key {
            self.prompts.confirm_remove_provider = Some(String::from_str(name));
            self.prompts.confirm_remove_sel = 0;
        } else {
            let content = chars::cat3("No saved API key for ", name, " in the config file.");
            self.say("system", content.as_str());
        }
    }

    fn delete_input(&mut self)
        requires
            old(self)@.wf(),
        ensures
            final(self)@ == old(self)@.input_deleted(),
            final(self)@.wf(),
    {
        proof {
            reveal(TuiModel::input_deleted);
        }
        self.composer.input_buf =
        edit::delete(self.composer.input_buf.as_str(), self.composer.cursor);
    }

    pub(crate) fn handle_delete(&mut self)
        requires
            old(self)@.wf(),
        ensures
            final(self)@ == old(self)@.delete_pressed(),
            final(self)@.wf(),
    {
        proof {
            reveal(TuiModel::delete_pressed);
        }
        if self.pickers.show_provider_picker {
            let sel = self.pickers.provider_picker_sel;
            if sel < self.pickers.provider_picker_list.len() {
                let name = self.pickers.provider_picker_list[sel].clone();
                self.ask_removal(name.as_str());
            }
        } else if self.composer_has_focus() {
            self.delete_input();
        }
    }

    fn offers_shortcuts(&self) -> (r: bool)
        ensures
            r == self@.shortcuts_offered(),
    {
        !self.account.awaiting_api_key && self.composer.input_buf.as_str().is_empty()
            && self.chat.state == State::Idle && !self.pickers.show_model_picker
            && !self.pickers.show_provider_picker && !self.looks.show_theme_picker
            && !self.saved.show_session_picker && !self.permission.show_permission_prompt
            && !self.prompts.show_recovery_prompt
            && self.prompts.confirm_remove_provider.is_none()
            && self.prompts.confirm_history_provider.is_none()
    }

    fn toggle_shortcuts(&mut self)
        ensures
            final(self)@ == old(self)@.shortcuts_toggled(),
            old(self)@.wf() ==> final(self)@.wf(),
    {
        proof {
            reveal(TuiModel::shortcuts_toggled);
        }
        self.prompts.show_shortcuts = !self.prompts.show_shortcuts;
    }

    pub(crate) fn handle_char(&mut self, ch: char)
        requires
            old(self)@.wf(),
        ensures
            final(self)@ == old(self)@.char_pressed(ch),
            final(self)@.wf(),
    {
        proof {
            reveal(TuiModel::char_pressed);
        }
        // Footer advertises "? for shortcuts" when the composer is empty.
        // Toggle the panel instead of inserting `?` into the prompt.
        if ch == '?' && self.offers_shortcuts() {
            self.toggle_shortcuts();
        } else if self.composer_has_focus() {
            // Allow typing into the API-key prompt and the normal input
            // (but not while a list picker is focused).
            let mut t = String::new();
            t.push(ch);
            assert(t@ =~= seq![ch]);
            self.type_input(t.as_str());
            self.recomplete();
        }
    }
}

} // verus!
