//! Key, mouse, and paste handling for the composer and overlays.

use crate::chars;
use crate::edit;
use crate::keys::MouseEvent;
use crate::state::{ComposerView, PermissionView, ScrollView, Tui, TuiModel};
use crate::text;
use vstd::prelude::*;

verus! {

// ---------------------------------------------------------------------------
// Scrolling
// ---------------------------------------------------------------------------

impl Tui {
    /// Max transcript scroll offset from the last paint (0 = everything fits).
    pub fn transcript_max_off(&self) -> (r: usize)
        ensures
            r == self@.scroll.max_off(),
    {
        let shown: usize = if self.scroll.last_body_h == 0 {
            1
        } else {
            self.scroll.last_body_h
        };
        if self.scroll.last_body_wrapped <= shown {
            0
        } else {
            self.scroll.last_body_wrapped - shown
        }
    }

    /// Scroll the transcript by some wrapped lines.
    pub fn scroll_transcript(&mut self, down: bool, rows: usize)
        ensures
            final(self)@ == old(self)@.scrolled_by(
                if down {
                    rows as int
                } else {
                    -(rows as int)
                },
            ),
            old(self)@.wf() ==> final(self)@.wf(),
    {
        proof {
            reveal(TuiModel::scrolled_by);
        }
        let max_off = self.transcript_max_off();
        let cur: usize = if self.scroll.transcript_follow || self.scroll.transcript_rowoff
            >= max_off {
            max_off
        } else {
            self.scroll.transcript_rowoff
        };
        let next: usize = if down {
            if rows >= max_off - cur {
                max_off
            } else {
                cur + rows
            }
        } else if rows >= cur {
            0
        } else {
            cur - rows
        };
        self.scroll.transcript_rowoff = next;
        self.scroll.transcript_follow = next >= max_off;
    }

    pub(crate) fn scroll_page(&mut self, down: bool)
        ensures
            final(self)@ == old(self)@.paged(down),
            old(self)@.wf() ==> final(self)@.wf(),
    {
        let page: usize = if self.scroll.last_body_h == 0 {
            0
        } else {
            self.scroll.last_body_h - 1
        };
        self.scroll_transcript(down, page);
    }

    pub(crate) fn scroll_half_page(&mut self, down: bool)
        ensures
            final(self)@ == old(self)@.half_paged(down),
            old(self)@.wf() ==> final(self)@.wf(),
    {
        let half: usize = if self.scroll.last_body_h <= 3 {
            1
        } else {
            self.scroll.last_body_h / 2
        };
        self.scroll_transcript(down, half);
    }
}

impl TuiModel {
    /// With the transcript scrolled.
    #[verifier::opaque]
    pub open spec fn scrolled_by(self, delta: int) -> TuiModel {
        TuiModel { scroll: self.scroll.scrolled(delta), ..self }
    }

    /// With the transcript scrolled by a page.
    pub open spec fn paged(self, down: bool) -> TuiModel {
        self.scrolled_by(
            if down {
                self.scroll.page()
            } else {
                -self.scroll.page()
            },
        )
    }

    /// With the transcript scrolled by half a page.
    pub open spec fn half_paged(self, down: bool) -> TuiModel {
        self.scrolled_by(
            if down {
                self.scroll.half_page()
            } else {
                -self.scroll.half_page()
            },
        )
    }

    /// With the transcript at its top.
    #[verifier::opaque]
    pub open spec fn at_top(self) -> TuiModel {
        TuiModel {
            scroll: ScrollView { transcript_follow: false, transcript_rowoff: 0, ..self.scroll },
            ..self
        }
    }

    /// With the transcript pinned to its bottom.
    #[verifier::opaque]
    pub open spec fn at_bottom(self) -> TuiModel {
        TuiModel {
            scroll: ScrollView { transcript_follow: true, ..self.scroll },
            ..self
        }
    }

    // -----------------------------------------------------------------------
    // Prompt history
    // -----------------------------------------------------------------------

    /// With the previous prompt in the composer, where there is one.
    #[verifier::opaque]
    pub open spec fn history_back(self) -> TuiModel {
        if self.composer.hist_idx > 0 {
            let i = (self.composer.hist_idx - 1) as usize;
            (TuiModel {
                composer: ComposerView { hist_idx: i, ..self.composer },
                ..self
            }).with_input(self.composer.history[i as int])
        } else {
            self
        }
    }

    /// With the next prompt in the composer, or an empty composer after the
    /// last one.
    #[verifier::opaque]
    pub open spec fn history_forward(self) -> TuiModel {
        if self.composer.hist_idx + 1 < self.composer.history.len() {
            let i = (self.composer.hist_idx + 1) as usize;
            (TuiModel {
                composer: ComposerView { hist_idx: i, ..self.composer },
                ..self
            }).with_input(self.composer.history[i as int])
        } else {
            (TuiModel {
                composer: ComposerView {
                    hist_idx: self.composer.history.len() as usize,
                    ..self.composer
                },
                ..self
            }).with_input(seq![])
        }
    }

    // -----------------------------------------------------------------------
    // Paste and mouse
    // -----------------------------------------------------------------------

    /// Whether a key reaches the composer rather than an overlay.
    pub open spec fn composer_focused(self) -> bool {
        self.account.awaiting_api_key || (!self.pickers.show_model_picker && !self.pickers.show_provider_picker
            && !self.looks.show_theme_picker && !self.saved.show_session_picker && !self.prompts.show_help
            && !self.prompts.show_shortcuts)
    }

    /// Whether Discuss owns the permission prompt.
    pub open spec fn discussing(self) -> bool {
        self.permission.show_permission_prompt && self.permission.perm_selection == 3
    }

    /// With Ctrl+C no longer armed to exit.
    pub open spec fn disarmed(self) -> TuiModel {
        TuiModel { ctrl_c_exit_armed: false, ..self }
    }

    /// With text put into the feedback at its cursor.
    #[verifier::opaque]
    pub open spec fn feedback_typed(self, t: Seq<char>) -> TuiModel {
        TuiModel {
            permission: PermissionView {
                perm_discuss_buf: edit::inserted(
                    self.permission.perm_discuss_buf,
                    self.permission.perm_discuss_cursor as int,
                    t,
                ),
                perm_discuss_cursor: (self.permission.perm_discuss_cursor + chars::byte_len(t)) as usize,
                ..self.permission
            },
            ..self
        }
    }

    /// With text put into the composer at its cursor.
    #[verifier::opaque]
    pub open spec fn input_typed(self, t: Seq<char>) -> TuiModel {
        TuiModel {
            composer: ComposerView {
                input_buf: edit::inserted(self.composer.input_buf, self.composer.cursor as int, t),
                cursor: (self.composer.cursor + chars::byte_len(t)) as usize,
                ..self.composer
            },
            ..self
        }
    }

    /// With the command list brought up to date, unless an API key is typed.
    pub open spec fn recompleted(self) -> TuiModel {
        if self.account.awaiting_api_key {
            self
        } else {
            self.completed()
        }
    }

    /// What a paste does, and whether anything changed: the text without its
    /// control sequences goes where typing would.
    pub open spec fn pasted(self, data: Seq<char>) -> (TuiModel, bool) {
        let cleaned = text::sanitized(data);
        let m = self.disarmed();
        if cleaned.len() == 0 {
            (self, false)
        } else if self.discussing() {
            (m.feedback_typed(cleaned), true)
        } else if !self.composer_focused() || self.permission.show_permission_prompt {
            (self, false)
        } else {
            ((TuiModel {
                composer: ComposerView { idle_suggestion: None, ..m.composer },
                ..m
            }).input_typed(cleaned).recompleted(), true)
        }
    }

    /// What a mouse event does, and whether it was acted on.
    pub open spec fn moused(self, e: MouseEvent) -> (TuiModel, bool) {
        if self.pickers.show_model_picker || self.pickers.show_provider_picker || self.looks.show_theme_picker
            || self.saved.show_session_picker || self.composer.show_command_picker {
            (self, false)
        } else {
            match e {
                MouseEvent::ScrollUp => (self.scrolled_by(-3), true),
                MouseEvent::ScrollDown => (self.scrolled_by(3), true),
                MouseEvent::Other => (self, false),
            }
        }
    }
}

impl Tui {
    /// Previous entry in the local prompt history (shell-style).
    pub(crate) fn history_prev(&mut self)
        requires
            old(self)@.wf(),
        ensures
            final(self)@ == old(self)@.history_back(),
            final(self)@.wf(),
    {
        proof {
            reveal(TuiModel::history_back);
        }
        assert(self@.composer.history.len() == self.composer.history@.len());
        if self.composer.hist_idx > 0 {
            self.composer.hist_idx = self.composer.hist_idx - 1;
            let prompt = self.composer.history[self.composer.hist_idx].clone();
            self.set_input(prompt);
        }
    }

    /// Next entry in the local prompt history (shell-style).
    pub(crate) fn history_next(&mut self)
        requires
            old(self)@.wf(),
        ensures
            final(self)@ == old(self)@.history_forward(),
            final(self)@.wf(),
    {
        proof {
            reveal(TuiModel::history_forward);
        }
        assert(self@.composer.history.len() == self.composer.history@.len());
        let n = self.composer.history.len();
        if self.composer.hist_idx < n && self.composer.hist_idx + 1 < n {
            self.composer.hist_idx = self.composer.hist_idx + 1;
            let prompt = self.composer.history[self.composer.hist_idx].clone();
            self.set_input(prompt);
        } else {
            self.composer.hist_idx = n;
            self.clear_input();
        }
    }

    /// True when a key should reach the composer buffer rather than an
    /// overlay (model/provider/theme/session picker, help, or shortcuts).
    pub fn composer_has_focus(&self) -> (r: bool)
        ensures
            r == self@.composer_focused(),
    {
        self.account.awaiting_api_key || (!self.pickers.show_model_picker
            && !self.pickers.show_provider_picker && !self.looks.show_theme_picker
            && !self.saved.show_session_picker && !self.prompts.show_help
            && !self.prompts.show_shortcuts)
    }

    /// True when the Discuss option owns the permission chrome.
    pub fn permission_discuss_active(&self) -> (r: bool)
        ensures
            r == self@.discussing(),
    {
        self.permission.show_permission_prompt && self.permission.perm_selection == 3
    }

    pub(crate) fn type_feedback(&mut self, t: &str)
        requires
            old(self)@.wf(),
        ensures
            final(self)@ == old(self)@.feedback_typed(t@),
            final(self)@.wf(),
    {
        proof {
            reveal(TuiModel::feedback_typed);
        }
        let (buf, cursor) = edit::insert_text(
            self.permission.perm_discuss_buf.as_str(),
            self.permission.perm_discuss_cursor,
            t,
        );
        self.permission.perm_discuss_buf = buf;
        self.permission.perm_discuss_cursor = cursor;
    }

    pub(crate) fn type_input(&mut self, t: &str)
        requires
            old(self)@.wf(),
        ensures
            final(self)@ == old(self)@.input_typed(t@),
            final(self)@.wf(),
    {
        proof {
            reveal(TuiModel::input_typed);
        }
        let (buf, cursor) = edit::insert_text(
            self.composer.input_buf.as_str(),
            self.composer.cursor,
            t,
        );
        self.composer.input_buf = buf;
        self.composer.cursor = cursor;
    }

    pub(crate) fn recomplete(&mut self)
        ensures
            final(self)@ == old(self)@.recompleted(),
            old(self)@.wf() ==> final(self)@.wf(),
    {
        if !self.account.awaiting_api_key {
            self.update_cmd_picker();
        }
    }

    /// Insert clipboard / bracketed-paste text into the composer at the cursor.
    /// Returns true if the buffer changed (needs redraw).
    pub fn handle_paste(&mut self, data: &str) -> (r: bool)
        requires
            old(self)@.wf(),
        ensures
            (final(self)@, r) == old(self)@.pasted(data@),
            final(self)@.wf(),
    {
        // Strip CSI/OSC noise if someone pastes styled terminal output; keep
        // Unicode (emoji), newlines, and tabs for normal prompts.
        let cleaned = text::sanitize_paste_for_composer(data);
        if cleaned.as_str().is_empty() {
            return false;
        }
        // Only Discuss accepts inline paste/feedback.
        if self.permission_discuss_active() {
            self.ctrl_c_exit_armed = false;
            self.type_feedback(cleaned.as_str());
            return true;
        }
        // Same gates as typing: don't hijack list pickers or overlays.
        if !self.composer_has_focus() || self.permission.show_permission_prompt {
            return false;
        }
        self.ctrl_c_exit_armed = false;
        self.composer.idle_suggestion = None;
        self.type_input(cleaned.as_str());
        self.recomplete();
        true
    }

    /// Returns true if the event was actually acted on (a scroll), so callers
    /// can skip a redraw for pointer movement or other unhandled events.
    pub fn handle_mouse(&mut self, kind: MouseEvent) -> (r: bool)
        ensures
            (final(self)@, r) == old(self)@.moused(kind),
            old(self)@.wf() ==> final(self)@.wf(),
    {
        // Ignore mouse while list pickers own the chrome (wheel should not fight them).
        if self.pickers.show_model_picker || self.pickers.show_provider_picker
            || self.looks.show_theme_picker || self.saved.show_session_picker
            || self.composer.show_command_picker {
            return false;
        }
        match kind {
            MouseEvent::ScrollUp => {
                self.scroll_transcript(false, 3);
                true
            },
            MouseEvent::ScrollDown => {
                self.scroll_transcript(true, 3);
                true
            },
            MouseEvent::Other => false,
        }
    }
}

} // verus!
