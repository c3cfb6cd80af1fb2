//! What each key does, and Ctrl+C.

use crate::chars;
use crate::keys;
use crate::keys::{KeyCode, KeyEvent};
use crate::request;
use crate::request::Request;
use crate::state::{PromptsView, SelectDump, Tui, TuiModel};
use vstd::prelude::*;

verus! {

// ---------------------------------------------------------------------------
// Overlays and questions
// ---------------------------------------------------------------------------

impl TuiModel {
    /// What an arrow scrolls while an overlay is open: one line with Ctrl,
    /// three without.
    pub open spec fn arrow_scrolled(self, key: KeyEvent, down: bool) -> TuiModel {
        let rows: int = if key.control {
            1
        } else {
            3
        };
        self.scrolled_by(
            if down {
                rows
            } else {
                -rows
            },
        )
    }

    /// With the help overlay closed.
    #[verifier::opaque]
    pub open spec fn help_closed(self) -> TuiModel {
        TuiModel {
            prompts: PromptsView { show_help: false, ..self.prompts },
            ..self
        }
    }

    /// What a key does while the help overlay is open.
    #[verifier::opaque]
    pub open spec fn help_key(self, key: KeyEvent) -> TuiModel {
        match key.code {
            KeyCode::Esc => self.help_closed(),
            KeyCode::Enter => self.help_closed(),
            KeyCode::Char(c) => if c == '?' {
                self.help_closed()
            } else {
                self
            },
            KeyCode::PageUp => self.paged(false),
            KeyCode::PageDown => self.paged(true),
            KeyCode::Up => self.arrow_scrolled(key, false),
            KeyCode::Down => self.arrow_scrolled(key, true),
            _ => self,
        }
    }

    /// With the shortcuts panel closed.
    #[verifier::opaque]
    pub open spec fn shortcuts_closed(self) -> TuiModel {
        TuiModel {
            prompts: PromptsView { show_shortcuts: false, ..self.prompts },
            ..self
        }
    }

    /// What a key does while the shortcuts panel is open.
    #[verifier::opaque]
    pub open spec fn shortcuts_key(self, key: KeyEvent) -> TuiModel {
        match key.code {
            KeyCode::Esc => self.shortcuts_closed(),
            KeyCode::PageUp => self.paged(false),
            KeyCode::PageDown => self.paged(true),
            KeyCode::Up => self.arrow_scrolled(key, false),
            KeyCode::Down => self.arrow_scrolled(key, true),
            KeyCode::Char(c) => if c == '?' {
                self.shortcuts_closed()
            } else if key.control_letter('u', 'U') {
                self.half_paged(false)
            } else if key.control_letter('d', 'D') {
                self.half_paged(true)
            } else {
                self
            },
            _ => self,
        }
    }

    /// Whether a list, a prompt or an overlay owns the navigation keys.
    pub open spec fn navigation_owned(self) -> bool {
        self.pickers.show_model_picker || self.pickers.show_provider_picker || self.looks.show_theme_picker
            || self.saved.show_session_picker || self.permission.show_permission_prompt || self.prompts.show_help
            || self.prompts.show_shortcuts || self.prompts.confirm_remove_provider is Some
            || self.prompts.confirm_history_provider is Some
    }

    /// With plain-text select mode to come.
    #[verifier::opaque]
    pub open spec fn select_asked(self) -> TuiModel {
        TuiModel { pending_select: Some(SelectDump::LastAssistant), ..self }
    }

    /// What a key does that scrolls, walks the prompt history, copies, or
    /// selects; nothing for any other key.
    #[verifier::opaque]
    pub open spec fn global_key(self, key: KeyEvent) -> Option<TuiModel> {
        if key.code == KeyCode::PageUp {
            Some(self.paged(false))
        } else if key.code == KeyCode::PageDown {
            Some(self.paged(true))
        } else if !key.control {
            None
        } else {
            match key.code {
                KeyCode::Up => Some(self.scrolled_by(-1)),
                KeyCode::Down => Some(self.scrolled_by(1)),
                KeyCode::Home => Some(self.at_top()),
                KeyCode::End => Some(self.at_bottom()),
                KeyCode::Char(_) => if keys::letter(key.code, 'u', 'U') {
                    Some(self.half_paged(false))
                } else if keys::letter(key.code, 'd', 'D') {
                    Some(self.half_paged(true))
                } else if keys::letter(key.code, 'p', 'P') {
                    Some(self.history_back())
                } else if keys::letter(key.code, 'n', 'N') {
                    Some(self.history_forward())
                } else if keys::letter(key.code, 'y', 'Y') {
                    Some(self.copy_asked())
                } else if keys::letter(key.code, 'o', 'O') {
                    Some(self.select_asked())
                } else {
                    None
                },
                _ => None,
            }
        }
    }

    /// With the recovery prompt closed.
    pub open spec fn recovery_closed(self) -> TuiModel {
        TuiModel {
            prompts: PromptsView { show_recovery_prompt: false, ..self.prompts },
            ..self
        }
    }

    /// With another recovery option highlighted.
    #[verifier::opaque]
    pub open spec fn recovery_moved(self, right: bool) -> TuiModel {
        TuiModel {
            prompts: PromptsView {
                recovery_selection: if right {
                    if self.prompts.recovery_selection < 2 {
                        (self.prompts.recovery_selection + 1) as usize
                    } else {
                        self.prompts.recovery_selection
                    }
                } else if self.prompts.recovery_selection > 0 {
                    (self.prompts.recovery_selection - 1) as usize
                } else {
                    0
                },
                ..self.prompts
            },
            ..self
        }
    }

    /// What a key does while the recovery prompt is open.
    #[verifier::opaque]
    pub open spec fn recovery_key(self, code: KeyCode) -> TuiModel {
        let m = self.recovery_closed();
        if code == KeyCode::Left {
            self.recovery_moved(false)
        } else if code == KeyCode::Right {
            self.recovery_moved(true)
        } else if keys::letter(code, 'm', 'M') || (code == KeyCode::Enter
            && self.prompts.recovery_selection == 0) {
            m.model_picker_opened()
        } else if keys::letter(code, 'p', 'P') || (code == KeyCode::Enter
            && self.prompts.recovery_selection == 1) {
            m.provider_picker_opened()
        } else if keys::letter(code, 'd', 'D') || code == KeyCode::Esc || code == KeyCode::Enter {
            m.suggested()
        } else {
            self
        }
    }

    /// With a choice highlighted for the removal of an API key.
    #[verifier::opaque]
    pub open spec fn removal_choice(self, sel: usize) -> TuiModel {
        TuiModel {
            prompts: PromptsView { confirm_remove_sel: sel, ..self.prompts },
            ..self
        }
    }

    /// With the removal of an API key no longer asked about.
    #[verifier::opaque]
    pub open spec fn removal_closed(self) -> TuiModel {
        TuiModel {
            prompts: PromptsView { confirm_remove_provider: None, ..self.prompts },
            ..self
        }
    }

    /// What a key does while the removal of an API key is to be confirmed.
    #[verifier::opaque]
    pub open spec fn confirm_remove_key(self, name: Seq<char>, code: KeyCode) -> TuiModel {
        match code {
            KeyCode::Left => self.removal_choice(0),
            KeyCode::Right => self.removal_choice(1),
            KeyCode::Esc => self.removal_closed(),
            KeyCode::Enter => if self.prompts.confirm_remove_sel == 1 {
                self.removal_closed().ask(request::RequestView::RemoveApiKey(name))
            } else {
                self.removal_closed()
            },
            _ => self,
        }
    }

    /// With a choice highlighted for handing the conversation over.
    #[verifier::opaque]
    pub open spec fn handover_choice(self, sel: usize) -> TuiModel {
        TuiModel {
            prompts: PromptsView { confirm_history_sel: sel, ..self.prompts },
            ..self
        }
    }

    /// With the handing over of the conversation no longer asked about.
    #[verifier::opaque]
    pub open spec fn handover_closed(self) -> TuiModel {
        TuiModel {
            prompts: PromptsView { confirm_history_provider: None, ..self.prompts },
            ..self
        }
    }

    /// What a key does while handing the conversation to a provider is to be
    /// confirmed.
    #[verifier::opaque]
    pub open spec fn confirm_history_key(self, name: Seq<char>, code: KeyCode) -> TuiModel {
        match code {
            KeyCode::Left => self.handover_choice(0),
            KeyCode::Right => self.handover_choice(1),
            KeyCode::Esc => self.handover_closed(),
            KeyCode::Enter => if self.prompts.confirm_history_sel == 1 {
                self.handover_closed().provider_chosen(name)
            } else {
                self.handover_closed()
            },
            _ => self,
        }
    }
}

impl Tui {
    fn scroll_arrow(&mut self, key: KeyEvent, down: bool)
        ensures
            final(self)@ == old(self)@.arrow_scrolled(key, down),
            old(self)@.wf() ==> final(self)@.wf(),
    {
        let rows: usize = if key.control {
            1
        } else {
            3
        };
        self.scroll_transcript(down, rows);
    }

    pub(crate) fn close_help(&mut self)
        ensures
            final(self)@ == old(self)@.help_closed(),
            old(self)@.wf() ==> final(self)@.wf(),
    {
        proof {
            reveal(TuiModel::help_closed);
        }
        self.prompts.show_help = false;
    }

    fn handle_help_key(&mut self, key: KeyEvent)
        ensures
            final(self)@ == old(self)@.help_key(key),
            old(self)@.wf() ==> final(self)@.wf(),
    {
        proof {
            reveal(TuiModel::help_key);
        }
        match key.code {
            KeyCode::Esc => self.close_help(),
            KeyCode::Enter => self.close_help(),
            KeyCode::Char(c) => {
                if c == '?' {
                    self.close_help();
                }
            },
            KeyCode::PageUp => self.scroll_page(false),
            KeyCode::PageDown => self.scroll_page(true),
            KeyCode::Up => self.scroll_arrow(key, false),
            KeyCode::Down => self.scroll_arrow(key, true),
            _ => {},
        }
    }

    pub(crate) fn close_shortcuts(&mut self)
        ensures
            final(self)@ == old(self)@.shortcuts_closed(),
            old(self)@.wf() ==> final(self)@.wf(),
    {
        proof {
            reveal(TuiModel::shortcuts_closed);
        }
        self.prompts.show_shortcuts = false;
    }

    fn handle_shortcuts_key(&mut self, key: KeyEvent)
        ensures
            final(self)@ == old(self)@.shortcuts_key(key),
            old(self)@.wf() ==> final(self)@.wf(),
    {
        proof {
            reveal(TuiModel::shortcuts_key);
        }
        match key.code {
            KeyCode::Esc => self.close_shortcuts(),
            // Keep scroll available while the help panel is open.
            KeyCode::PageUp => self.scroll_page(false),
            KeyCode::PageDown => self.scroll_page(true),
            KeyCode::Up => self.scroll_arrow(key, false),
            KeyCode::Down => self.scroll_arrow(key, true),
            KeyCode::Char(c) => {
                if c == '?' {
                    self.close_shortcuts();
                } else if key.is_control_letter('u', 'U') {
                    self.scroll_half_page(false);
                } else if key.is_control_letter('d', 'D') {
                    self.scroll_half_page(true);
                }
            },
            _ => {},
        }
    }

    fn owns_navigation(&self) -> (r: bool)
        ensures
            r == self@.navigation_owned(),
    {
        self.pickers.show_model_picker || self.pickers.show_provider_picker
            || self.looks.show_theme_picker || self.saved.show_session_picker
            || self.permission.show_permission_prompt || self.prompts.show_help
            || self.prompts.show_shortcuts || self.prompts.confirm_remove_provider.is_some()
            || self.prompts.confirm_history_provider.is_some()
    }

    fn scroll_to_top(&mut self)
        ensures
            final(self)@ == old(self)@.at_top(),
            old(self)@.wf() ==> final(self)@.wf(),
    {
        proof {
            reveal(TuiModel::at_top);
        }
        self.scroll.transcript_follow = false;
        self.scroll.transcript_rowoff = 0;
    }

    fn scroll_to_bottom(&mut self)
        ensures
            final(self)@ == old(self)@.at_bottom(),
            old(self)@.wf() ==> final(self)@.wf(),
    {
        proof {
            reveal(TuiModel::at_bottom);
        }
        self.scroll.transcript_follow = true;
    }

    fn ask_select(&mut self)
        ensures
            final(self)@ == old(self)@.select_asked(),
            old(self)@.wf() ==> final(self)@.wf(),
    {
        proof {
            reveal(TuiModel::select_asked);
        }
        self.pending_select = Some(SelectDump::LastAssistant);
    }

    fn handle_global_key(&mut self, key: KeyEvent) -> (done: bool)
        requires
            old(self)@.wf(),
        ensures
            done == (old(self)@.global_key(key) is Some),
            final(self)@ == (match old(self)@.global_key(key) {
                Some(m) => m,
                None => old(self)@,
            }),
            final(self)@.wf(),
    {
        proof {
            reveal(TuiModel::global_key);
        }
        match key.code {
            KeyCode::PageUp => {
                self.scroll_page(false);
                return true;
            },
            KeyCode::PageDown => {
                self.scroll_page(true);
                return true;
            },
            _ => {},
        }
        if !key.control {
            return false;
        }
        match key.code {
            KeyCode::Up => self.scroll_transcript(false, 1),
            KeyCode::Down => self.scroll_transcript(true, 1),
            KeyCode::Home => self.scroll_to_top(),
            KeyCode::End => self.scroll_to_bottom(),
            KeyCode::Char(_) => {
                if key.is_letter('u', 'U') {
                    self.scroll_half_page(false);
                } else if key.is_letter('d', 'D') {
                    self.scroll_half_page(true);
                } else if key.is_letter('p', 'P') {
                    // Readline-style history that works even when Up/Down scroll the chat.
                    self.history_prev();
                } else if key.is_letter('n', 'N') {
                    self.history_next();
                } else if key.is_letter('y', 'Y') {
                    // Copy last assistant message to the system clipboard.
                    self.copy_last_assistant_to_clipboard();
                } else if key.is_letter('o', 'O') {
                    // Plain-text select mode (reliable drag-select).
                    self.ask_select();
                } else {
                    return false;
                }
            },
            _ => {
                return false;
            },
        }
        true
    }

    pub(crate) fn close_recovery(&mut self)
        ensures
            final(self)@ == old(self)@.recovery_closed(),
            old(self)@.wf() ==> final(self)@.wf(),
    {
        self.prompts.show_recovery_prompt = false;
    }

    fn move_recovery(&mut self, right: bool)
        ensures
            final(self)@ == old(self)@.recovery_moved(right),
            old(self)@.wf() ==> final(self)@.wf(),
    {
        proof {
            reveal(TuiModel::recovery_moved);
        }
        let at = self.prompts.recovery_selection;
        self.prompts.recovery_selection = if right {
            if at < 2 {
                at + 1
            } else {
                at
            }
        } else if at > 0 {
            at - 1
        } else {
            0
        };
    }

    fn handle_recovery_key(&mut self, key: KeyEvent)
        ensures
            final(self)@ == old(self)@.recovery_key(key.code),
            old(self)@.wf() ==> final(self)@.wf(),
    {
        proof {
            reveal(TuiModel::recovery_key);
        }
        let sel = self.prompts.recovery_selection;
        let enter = key.code == KeyCode::Enter;
        if key.code == KeyCode::Left {
            self.move_recovery(false);
        } else if key.code == KeyCode::Right {
            self.move_recovery(true);
        } else if key.is_letter('m', 'M') || (enter && sel == 0) {
            self.close_recovery();
            self.open_model_picker();
        } else if key.is_letter('p', 'P') || (enter && sel == 1) {
            self.close_recovery();
            self.open_provider_picker();
        } else if key.is_letter('d', 'D') || key.code == KeyCode::Esc || enter {
            self.close_recovery();
            self.refresh_idle_suggestion();
        }
    }

    fn choose_removal(&mut self, sel: usize)
        ensures
            final(self)@ == old(self)@.removal_choice(sel),
            old(self)@.wf() ==> final(self)@.wf(),
    {
        proof {
            reveal(TuiModel::removal_choice);
        }
        self.prompts.confirm_remove_sel = sel;
    }

    pub(crate) fn close_removal(&mut self)
        ensures
            final(self)@ == old(self)@.removal_closed(),
            old(self)@.wf() ==> final(self)@.wf(),
    {
        proof {
            reveal(TuiModel::removal_closed);
        }
        self.prompts.confirm_remove_provider = None;
    }

    fn handle_confirm_remove_key(&mut self, name: &str, key: KeyEvent)
        ensures
            final(self)@ == old(self)@.confirm_remove_key(name@, key.code),
            old(self)@.wf() ==> final(self)@.wf(),
    {
        proof {
            reveal(TuiModel::confirm_remove_key);
        }
        match key.code {
            KeyCode::Left => self.choose_removal(0),
            KeyCode::Right => self.choose_removal(1),
            KeyCode::Esc => self.close_removal(),
            KeyCode::Enter => {
                let remove = self.prompts.confirm_remove_sel == 1;
                self.close_removal();
                if remove {
                    self.ask(Request::RemoveApiKey(String::from_str(name)));
                }
            },
            _ => {},
        }
    }

    fn choose_handover(&mut self, sel: usize)
        ensures
            final(self)@ == old(self)@.handover_choice(sel),
            old(self)@.wf() ==> final(self)@.wf(),
    {
        proof {
            reveal(TuiModel::handover_choice);
        }
        self.prompts.confirm_history_sel = sel;
    }

    pub(crate) fn close_handover(&mut self)
        ensures
            final(self)@ == old(self)@.handover_closed(),
            old(self)@.wf() ==> final(self)@.wf(),
    {
        proof {
            reveal(TuiModel::handover_closed);
        }
        self.prompts.confirm_history_provider = None;
    }

    fn handle_confirm_history_key(&mut self, name: &str, key: KeyEvent)
        ensures
            final(self)@ == old(self)@.confirm_history_key(name@, key.code),
            old(self)@.wf() ==> final(self)@.wf(),
    {
        proof {
            reveal(TuiModel::confirm_history_key);
        }
        match key.code {
            KeyCode::Left => self.choose_handover(0),
            KeyCode::Right => self.choose_handover(1),
            KeyCode::Esc => self.close_handover(),
            KeyCode::Enter => {
                let proceed = self.prompts.confirm_history_sel == 1;
                self.close_handover();
                if proceed {
                    self.begin_provider_selection(name);
                }
            },
            _ => {},
        }
    }
}

// ---------------------------------------------------------------------------
// Every key
// ---------------------------------------------------------------------------

impl TuiModel {
    /// What a key does that reached the lists or the composer, and whether the
    /// program goes on.
    #[verifier::opaque]
    pub open spec fn composer_key(self, code: KeyCode) -> (TuiModel, bool) {
        match code {
            KeyCode::Up => (self.up(), true),
            KeyCode::Down => (self.down(), true),
            KeyCode::Left => (self.left(), true),
            KeyCode::Right => (self.right(), true),
            KeyCode::Tab => (self.tabbed(), true),
            KeyCode::Esc => (self.escaped(), true),
            KeyCode::Enter => self.entered(),
            KeyCode::Backspace => (self.backspace_pressed(), true),
            KeyCode::Delete => (self.delete_pressed(), true),
            KeyCode::Char(ch) => (self.char_pressed(ch), true),
            _ => (self, true),
        }
    }

    /// What a key other than Ctrl+C does: whatever owns the keys gets it.
    #[verifier::opaque]
    pub open spec fn key_taken(self, key: KeyEvent) -> (TuiModel, bool) {
        if key.pastes_image(self.host.platform) {
            (self.image_asked(), true)
        } else if self.prompts.show_help {
            (self.help_key(key), true)
        } else if !self.navigation_owned() && self.global_key(key) is Some {
            (self.global_key(key)->0, true)
        } else if self.prompts.show_shortcuts {
            (self.shortcuts_key(key), true)
        } else if self.permission.show_permission_prompt {
            (self.permission_key(key.code), true)
        } else if self.prompts.show_recovery_prompt {
            (self.recovery_key(key.code), true)
        } else if self.prompts.confirm_remove_provider is Some {
            (self.confirm_remove_key(self.prompts.confirm_remove_provider->0, key.code), true)
        } else if self.prompts.confirm_history_provider is Some {
            (self.confirm_history_key(self.prompts.confirm_history_provider->0, key.code), true)
        } else {
            self.composer_key(key.code)
        }
    }

    /// What a key event does, and whether the program goes on. Only presses
    /// count; any key other than Ctrl+C disarms the exit.
    pub open spec fn keyed(self, key: KeyEvent) -> (TuiModel, bool) {
        if !key.press {
            (self, true)
        } else if key.control_letter('c', 'C') {
            self.interrupted()
        } else {
            self.disarmed().key_taken(key)
        }
    }
}

impl Tui {
    fn handle_composer_key(&mut self, key: KeyEvent) -> (r: bool)
        requires
            old(self)@.wf(),
        ensures
            (final(self)@, r) == old(self)@.composer_key(key.code),
            final(self)@.wf(),
    {
        proof {
            reveal(TuiModel::composer_key);
        }
        match key.code {
            KeyCode::Up => self.handle_up(),
            KeyCode::Down => self.handle_down(),
            KeyCode::Left => self.handle_left(),
            KeyCode::Right => self.handle_right(),
            KeyCode::Tab => self.handle_tab(),
            KeyCode::Esc => self.handle_esc(),
            KeyCode::Enter => {
                return self.handle_enter();
            },
            KeyCode::Backspace => self.handle_backspace(),
            KeyCode::Delete => self.handle_delete(),
            KeyCode::Char(ch) => self.handle_char(ch),
            _ => {},
        }
        true
    }

    fn take_key(&mut self, key: KeyEvent) -> (r: bool)
        requires
            old(self)@.wf(),
        ensures
            (final(self)@, r) == old(self)@.key_taken(key),
            final(self)@.wf(),
    {
        proof {
            reveal(TuiModel::key_taken);
        }
        if key.is_image_paste_chord(self.host.platform) {
            self.paste_clipboard_image();
            return true;
        }
        if self.prompts.show_help {
            self.handle_help_key(key);
            return true;
        }
        // Transcript scroll (Page / Ctrl-U/D + arrows with Ctrl).
        // Skip when a list picker owns navigation keys. Slash ghost completion is
        // inline (not a multi-line list), so page/wheel scroll still works while
        // typing `/…`. Bare Up/Down still cycle slash candidates first.
        if !self.owns_navigation() && self.handle_global_key(key) {
            return true;
        }
        if self.prompts.show_shortcuts {
            self.handle_shortcuts_key(key);
            return true;
        }
        if self.permission.show_permission_prompt {
            self.handle_permission_key(key);
            return true;
        }
        if self.prompts.show_recovery_prompt {
            self.handle_recovery_key(key);
            return true;
        }
        let removal = chars::clone_opt(&self.prompts.confirm_remove_provider);
        if let Some(name) = removal {
            self.handle_confirm_remove_key(name.as_str(), key);
            return true;
        }
        let handover = chars::clone_opt(&self.prompts.confirm_history_provider);
        if let Some(name) = handover {
            self.handle_confirm_history_key(name.as_str(), key);
            return true;
        }
        self.handle_composer_key(key)
    }

    /// Handles a key. Returns `false` to exit the program.
    pub fn handle_key(&mut self, key: KeyEvent) -> (r: bool)
        requires
            old(self)@.wf(),
        ensures
            (final(self)@, r) == old(self)@.keyed(key),
            final(self)@.wf(),
    {
        if !key.press {
            return true;
        }
        if key.is_control_letter('c', 'C') {
            return self.handle_ctrl_c();
        }
        // Any key other than Ctrl+C disarms the "press again to exit" arm.
        self.ctrl_c_exit_armed = false;
        self.take_key(key)
    }
}

} // verus!
