//! The tool permission prompt.

use crate::chars;
use crate::edit;
use crate::keys::{KeyCode, KeyEvent};
use crate::request;
use crate::request::Request;
use crate::state::{PermissionView, Tui, TuiModel};
use vstd::prelude::*;

verus! {

impl TuiModel {
    /// With the prompt closed and its feedback dropped.
    pub open spec fn prompt_closed(self) -> TuiModel {
        TuiModel {
            permission: PermissionView {
                show_permission_prompt: false,
                perm_discuss_buf: seq![],
                perm_discuss_cursor: 0,
                ..self.permission
            },
            ..self
        }
    }

    /// With a decision sent, where someone listens, and the prompt closed.
    #[verifier::opaque]
    pub open spec fn decided(self, decision: Seq<char>) -> TuiModel {
        let m = self.prompt_closed();
        (if m.links.perm_tx is Some {
            m.ask(request::RequestView::Permission(decision))
        } else {
            m
        }).suggested()
    }

    /// With an option highlighted. Feedback exists only on Discuss; leaving it
    /// drops any draft.
    #[verifier::opaque]
    pub open spec fn option_selected(self, sel: int) -> TuiModel {
        if sel >= 3 {
            TuiModel {
                permission: PermissionView { perm_selection: 3, ..self.permission },
                ..self
            }
        } else {
            TuiModel {
                permission: PermissionView {
                    perm_selection: sel as usize,
                    perm_discuss_buf: seq![],
                    perm_discuss_cursor: 0,
                    ..self.permission
                },
                ..self
            }
        }
    }

    /// With the option above highlighted.
    pub open spec fn option_above(self) -> TuiModel {
        self.option_selected(
            if self.permission.perm_selection == 0 {
                0
            } else {
                self.permission.perm_selection - 1
            },
        )
    }

    /// With the option below highlighted.
    pub open spec fn option_below(self) -> TuiModel {
        if self.permission.perm_selection < 3 {
            self.option_selected(self.permission.perm_selection + 1)
        } else {
            self
        }
    }

    /// What confirming the highlighted option sends.
    pub open spec fn chosen_decision(self) -> Seq<char> {
        let feedback = chars::trim(self.permission.perm_discuss_buf);
        if self.permission.perm_selection == 0 {
            "allow"@
        } else if self.permission.perm_selection == 1 {
            "always_allow"@
        } else if self.permission.perm_selection == 3 {
            if feedback.len() == 0 {
                "discuss"@
            } else {
                "discuss:"@ + feedback
            }
        } else {
            "deny"@
        }
    }

    /// With the feedback cursor moved.
    #[verifier::opaque]
    pub open spec fn feedback_cursor_at(self, at: int) -> TuiModel {
        TuiModel {
            permission: PermissionView { perm_discuss_cursor: at as usize, ..self.permission },
            ..self
        }
    }

    /// With the character before the feedback cursor dropped.
    #[verifier::opaque]
    pub open spec fn feedback_backspaced(self) -> TuiModel {
        let at = self.permission.perm_discuss_cursor as int;
        TuiModel {
            permission: PermissionView {
                perm_discuss_buf: edit::backspaced(self.permission.perm_discuss_buf, at),
                perm_discuss_cursor: edit::left_of(self.permission.perm_discuss_buf, at) as usize,
                ..self.permission
            },
            ..self
        }
    }

    /// With the character at the feedback cursor dropped.
    #[verifier::opaque]
    pub open spec fn feedback_deleted(self) -> TuiModel {
        TuiModel {
            permission: PermissionView {
                perm_discuss_buf: edit::deleted(
                    self.permission.perm_discuss_buf,
                    self.permission.perm_discuss_cursor as int,
                ),
                ..self.permission
            },
            ..self
        }
    }

    /// What a key does to the prompt while Discuss is selected.
    pub open spec fn discuss_key(self, code: KeyCode) -> TuiModel {
        let buf = self.permission.perm_discuss_buf;
        let at = self.permission.perm_discuss_cursor as int;
        match code {
            KeyCode::Left => if at > 0 {
                self.feedback_cursor_at(edit::left_of(buf, at))
            } else {
                self.option_above()
            },
            KeyCode::Right => self.feedback_cursor_at(edit::right_of(buf, at)),
            KeyCode::Home => self.feedback_cursor_at(0),
            KeyCode::End => self.feedback_cursor_at(chars::byte_len(buf) as int),
            KeyCode::Backspace => self.feedback_backspaced(),
            KeyCode::Delete => self.feedback_deleted(),
            KeyCode::Char(ch) => if chars::is_ctl(ch) {
                self
            } else {
                self.feedback_typed(seq![ch])
            },
            _ => self,
        }
    }

    /// What a key does to the prompt. The digits 1 to 3 decide at once; 4
    /// selects Discuss, the only option with a text field.
    #[verifier::opaque]
    pub open spec fn permission_key(self, code: KeyCode) -> TuiModel {
        if code == KeyCode::Char('1') {
            self.decided("allow"@)
        } else if code == KeyCode::Char('2') {
            self.decided("always_allow"@)
        } else if code == KeyCode::Char('3') {
            self.decided("deny"@)
        } else if code == KeyCode::Char('4') {
            self.option_selected(3)
        } else if code == KeyCode::Up {
            self.option_above()
        } else if code == KeyCode::Down {
            self.option_below()
        } else if code == KeyCode::Enter {
            self.decided(self.chosen_decision())
        } else if code == KeyCode::Esc {
            self.decided("deny"@)
        } else if self.discussing() {
            self.discuss_key(code)
        } else if code == KeyCode::Left {
            self.option_above()
        } else if code == KeyCode::Right {
            self.option_below()
        } else {
            self
        }
    }

    /// Feedback is there only while Discuss is selected.
    pub open spec fn feedback_in_place(self) -> bool {
        self.permission.perm_selection != 3 ==> self.permission.perm_discuss_buf.len() == 0
    }
}

impl Tui {
    fn close_prompt(&mut self)
        ensures
            final(self)@ == old(self)@.prompt_closed(),
            old(self)@.wf() ==> final(self)@.wf(),
    {
        self.permission.show_permission_prompt = false;
        self.permission.perm_discuss_buf = String::new();
        self.permission.perm_discuss_cursor = 0;
        proof {
            assert(self.permission@.perm_discuss_buf =~= seq![]);
            chars::lemma_boundary_ends(Seq::<char>::empty());
        }
    }

    /// Send a permission decision and clear the prompt.
    pub fn submit_permission(&mut self, decision: &str)
        ensures
            final(self)@ == old(self)@.decided(decision@),
            old(self)@.wf() ==> final(self)@.wf(),
    {
        proof {
            reveal(TuiModel::decided);
        }
        self.close_prompt();
        if self.links.perm_tx.is_some() {
            self.ask(Request::Permission(String::from_str(decision)));
        }
        self.refresh_idle_suggestion();
    }

    /// Move the permission highlight. Inline feedback exists only on Discuss;
    /// leaving it drops any draft text so Yes/Always/No never carry a field.
    pub fn set_perm_selection(&mut self, sel: usize)
        ensures
            final(self)@ == old(self)@.option_selected(sel as int),
            old(self)@.wf() ==> final(self)@.wf(),
    {
        proof {
            reveal(TuiModel::option_selected);
        }
        if sel >= 3 {
            self.permission.perm_selection = 3;
        } else {
            self.permission.perm_discuss_buf = String::new();
            self.permission.perm_discuss_cursor = 0;
            self.permission.perm_selection = sel;
            proof {
                assert(self.permission@.perm_discuss_buf =~= seq![]);
                chars::lemma_boundary_ends(Seq::<char>::empty());
            }
        }
    }

    fn select_above(&mut self)
        ensures
            final(self)@ == old(self)@.option_above(),
            old(self)@.wf() ==> final(self)@.wf(),
    {
        let sel: usize = if self.permission.perm_selection == 0 {
            0
        } else {
            self.permission.perm_selection - 1
        };
        self.set_perm_selection(sel);
    }

    fn select_below(&mut self)
        ensures
            final(self)@ == old(self)@.option_below(),
            old(self)@.wf() ==> final(self)@.wf(),
    {
        if self.permission.perm_selection < 3 {
            let sel: usize = self.permission.perm_selection + 1;
            self.set_perm_selection(sel);
        }
    }

    /// Confirm the currently highlighted permission option (Enter path).
    pub fn confirm_permission_selection(&mut self)
        ensures
            final(self)@ == old(self)@.decided(old(self)@.chosen_decision()),
            old(self)@.wf() ==> final(self)@.wf(),
    {
        if self.permission.perm_selection == 0 {
            self.submit_permission("allow");
        } else if self.permission.perm_selection == 1 {
            self.submit_permission("always_allow");
        } else if self.permission.perm_selection == 3 {
            // Only Discuss accepts optional inline feedback.
            let feedback = chars::trimmed(self.permission.perm_discuss_buf.as_str());
            if feedback.as_str().is_empty() {
                self.submit_permission("discuss");
            } else {
                let decision = chars::cat2("discuss:", feedback.as_str());
                self.submit_permission(decision.as_str());
            }
        } else {
            self.submit_permission("deny");
        }
    }

    fn put_feedback_cursor(&mut self, at: usize)
        requires
            old(self)@.wf(),
            chars::on_boundary(old(self)@.permission.perm_discuss_buf, at as int),
        ensures
            final(self)@ == old(self)@.feedback_cursor_at(at as int),
            final(self)@.wf(),
    {
        proof {
            reveal(TuiModel::feedback_cursor_at);
        }
        self.permission.perm_discuss_cursor = at;
    }

    fn backspace_feedback(&mut self)
        requires
            old(self)@.wf(),
        ensures
            final(self)@ == old(self)@.feedback_backspaced(),
            final(self)@.wf(),
    {
        proof {
            reveal(TuiModel::feedback_backspaced);
        }
        let (buf, at) = edit::backspace(
            self.permission.perm_discuss_buf.as_str(),
            self.permission.perm_discuss_cursor,
        );
        self.permission.perm_discuss_buf = buf;
        self.permission.perm_discuss_cursor = at;
    }

    fn delete_feedback(&mut self)
        requires
            old(self)@.wf(),
        ensures
            final(self)@ == old(self)@.feedback_deleted(),
            final(self)@.wf(),
    {
        proof {
            reveal(TuiModel::feedback_deleted);
        }
        self.permission.perm_discuss_buf =
        edit::delete(
            self.permission.perm_discuss_buf.as_str(),
            self.permission.perm_discuss_cursor,
        );
    }

    fn edit_feedback(&mut self, code: KeyCode)
        requires
            old(self)@.wf(),
        ensures
            final(self)@ == old(self)@.discuss_key(code),
            final(self)@.wf(),
    {
        let at = self.permission.perm_discuss_cursor;
        match code {
            KeyCode::Left => {
                if at > 0 {
                    let to = edit::move_left(self.permission.perm_discuss_buf.as_str(), at);
                    self.put_feedback_cursor(to);
                } else {
                    self.select_above();
                }
            },
            KeyCode::Right => {
                let to = edit::move_right(self.permission.perm_discuss_buf.as_str(), at);
                self.put_feedback_cursor(to);
            },
            KeyCode::Home => {
                proof {
                    chars::lemma_boundary_ends(self@.permission.perm_discuss_buf);
                }
                self.put_feedback_cursor(0);
            },
            KeyCode::End => {
                let to = chars::str_bytes(self.permission.perm_discuss_buf.as_str());
                proof {
                    chars::lemma_boundary_ends(self@.permission.perm_discuss_buf);
                }
                self.put_feedback_cursor(to);
            },
            KeyCode::Backspace => self.backspace_feedback(),
            KeyCode::Delete => self.delete_feedback(),
            KeyCode::Char(ch) => {
                // Digits 1-4 are shortcuts and never get here.
                if !chars::is_control(ch) {
                    let mut t = String::new();
                    t.push(ch);
                    assert(t@ =~= seq![ch]);
                    self.type_feedback(t.as_str());
                }
            },
            _ => {},
        }
    }

    /// Handles a key while the prompt is open.
    pub fn handle_permission_key(&mut self, key: KeyEvent)
        requires
            old(self)@.wf(),
        ensures
            final(self)@ == old(self)@.permission_key(key.code),
            final(self)@.wf(),
    {
        proof {
            reveal(TuiModel::permission_key);
        }
        match key.code {
            KeyCode::Char('1') => self.submit_permission("allow"),
            KeyCode::Char('2') => self.submit_permission("always_allow"),
            KeyCode::Char('3') => self.submit_permission("deny"),
            KeyCode::Char('4') => self.set_perm_selection(3),
            KeyCode::Up => self.select_above(),
            KeyCode::Down => self.select_below(),
            KeyCode::Enter => self.confirm_permission_selection(),
            KeyCode::Esc => self.submit_permission("deny"),
            code => {
                if self.permission_discuss_active() {
                    self.edit_feedback(code);
                } else if code == KeyCode::Left {
                    self.select_above();
                } else if code == KeyCode::Right {
                    self.select_below();
                }
            },
        }
    }
}

/// However the prompt is worked, Yes, Always and No never carry feedback.
pub proof fn law_feedback_only_on_discuss(m: TuiModel, code: KeyCode)
    requires
        m.feedback_in_place(),
    ensures
        m.permission_key(code).feedback_in_place(),
{
    reveal(TuiModel::permission_key);
    reveal(TuiModel::decided);
    reveal(TuiModel::option_selected);
    reveal(TuiModel::feedback_typed);
    reveal(TuiModel::feedback_cursor_at);
    reveal(TuiModel::feedback_backspaced);
    reveal(TuiModel::feedback_deleted);
    reveal(TuiModel::suggested);
    reveal(TuiModel::ask);
}

/// The digits 1 to 3, Enter and Esc close the prompt and hand over exactly one
/// decision, where someone listens.
pub proof fn law_prompt_hands_over_one_decision(m: TuiModel, decision: Seq<char>)
    ensures
        !m.decided(decision).permission.show_permission_prompt,
        m.decided(decision).permission.perm_discuss_buf.len() == 0,
        m.decided(decision).outbox == (if m.links.perm_tx is Some {
            m.outbox.push(request::RequestView::Permission(decision))
        } else {
            m.outbox
        }),
{
    reveal(TuiModel::decided);
    reveal(TuiModel::suggested);
    reveal(TuiModel::ask);
}

} // verus!
