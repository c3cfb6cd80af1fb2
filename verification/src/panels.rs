//! The lists and prompts of the bottom chrome.

use crate::chars;
use crate::chrome;
use crate::lines;
use crate::lines::{Line, Tone};
use crate::session;
use crate::state::{Tui, TuiModel};
use crate::text;
use vstd::prelude::*;

verus! {

/// How many saved sessions the list shows at once.
pub const VISIBLE_SESSIONS: usize = 10;

/// How many commands the list shows at once.
pub const VISIBLE_COMMANDS: usize = 8;

// ---------------------------------------------------------------------------
// Lists
// ---------------------------------------------------------------------------

impl TuiModel {
    /// A row of the provider list.
    pub open spec fn provider_row(self, i: int) -> Seq<lines::SpanView> {
        let name = self.pickers.provider_picker_list[i];
        let selected = i == self.pickers.provider_picker_sel;
        let key_mark = if i < self.pickers.provider_picker_keys.len() && self.pickers.provider_picker_keys[i] {
            "  [signed in]"@
        } else if self.host.known(name).supports_oauth {
            "  [browser login]"@
        } else {
            ""@
        };
        let cur_mark = if name == self.account.provider {
            "  (current)"@
        } else {
            ""@
        };
        seq![
            lines::sp(
                chrome::row_mark(selected) + name + key_mark + cur_mark,
                chrome::row_tone(selected),
            ),
        ]
    }

    /// The provider list.
    pub open spec fn provider_panel(self) -> Seq<Seq<lines::SpanView>> {
        seq![
            chrome::heading(
                "── Provider "@,
                "(↑↓ navigate  Enter select  Del remove key  Esc cancel) ──"@,
            ),
        ] + Seq::new(self.pickers.provider_picker_list.len(), |i: int| self.provider_row(i))
    }

    /// A row of the model list.
    pub open spec fn model_row(self, i: int) -> Seq<lines::SpanView> {
        let m = self.pickers.picker_models[i];
        let selected = i == self.pickers.picker_sel;
        let ctx = if m.max_ctx > 0 {
            " ("@ + chars::decimal((m.max_ctx / 1000) as nat) + "K context)"@
        } else {
            ""@
        };
        let check = if m.id == self.account.model {
            "  ✓"@
        } else {
            ""@
        };
        seq![
            lines::sp(
                chrome::row_mark(selected) + m.name + "  "@ + m.id + ctx + check,
                chrome::row_tone(selected),
            ),
        ]
    }

    /// The first row of the model list after those that show.
    pub open spec fn model_end(self) -> int {
        let end = self.pickers.picker_scrl + self.visible_models();
        if end <= self.pickers.picker_models.len() {
            end
        } else {
            self.pickers.picker_models.len() as int
        }
    }

    /// The model list: the part of it that shows.
    pub open spec fn model_panel(self) -> Seq<Seq<lines::SpanView>> {
        let n = self.pickers.picker_models.len();
        let top = self.pickers.picker_scrl as int;
        let shown = if self.model_end() <= top {
            0
        } else {
            self.model_end() - top
        };
        seq![chrome::heading("── Model "@, "(↑↓ navigate  Enter select  Esc cancel) ──"@)]
            + (if n > self.visible_models() {
            seq![chrome::position_line((self.pickers.picker_sel + 1) as nat, n)]
        } else {
            seq![]
        }) + Seq::new(shown as nat, |k: int| self.model_row(top + k))
    }

    /// A row of the theme list.
    pub open spec fn theme_row(self, i: int) -> Seq<lines::SpanView> {
        let t = self.looks.theme_picker_list[i];
        let selected = i == self.looks.theme_picker_sel;
        let mark = if t.name == self.looks.theme.name {
            "  ✓"@
        } else {
            ""@
        };
        seq![
            lines::sp(
                chrome::row_mark(selected) + t.label + " ("@ + t.name + ")"@ + mark,
                chrome::row_tone(selected),
            ),
        ]
    }

    /// The theme list.
    pub open spec fn theme_panel(self) -> Seq<Seq<lines::SpanView>> {
        seq![chrome::heading("── Theme "@, "(↑↓ live-preview  Enter apply  Esc cancel) ──"@)]
            + Seq::new(self.looks.theme_picker_list.len(), |i: int| self.theme_row(i))
    }

    /// The rows of a saved session: one, and its summary where it is selected.
    pub open spec fn saved_rows(self, i: int) -> Seq<Seq<lines::SpanView>> {
        let s = self.saved.picker_sessions[i];
        let selected = i == self.saved.picker_session_sel;
        let summary = text::summary_cut(s.summary, 50);
        let row = seq![
            lines::sp(
                chrome::row_mark(selected) + session::short(s.id) + "  "@ + s.model + "  "@
                    + chars::decimal(s.msg_count as nat) + " msgs  "@ + text::age(
                    s.updated_at as nat,
                    self.host.unix_secs as nat,
                ),
                chrome::row_tone(selected),
            ),
        ];
        if summary.len() > 0 && selected {
            seq![row, seq![lines::sp("   "@ + summary, Tone::Selected)]]
        } else {
            seq![row]
        }
    }

    /// The rows of the saved sessions from `lo` up to `hi`.
    pub open spec fn saved_range(self, lo: int, hi: int) -> Seq<Seq<lines::SpanView>>
        decreases hi - lo,
    {
        if hi <= lo {
            seq![]
        } else {
            self.saved_range(lo, hi - 1) + self.saved_rows(hi - 1)
        }
    }

    /// The list of saved sessions: the part of it that shows.
    pub open spec fn session_panel(self) -> Seq<Seq<lines::SpanView>> {
        let n = self.saved.picker_sessions.len();
        let top = self.saved.picker_session_scrl as int;
        let end = if top + VISIBLE_SESSIONS <= n {
            top + VISIBLE_SESSIONS
        } else {
            n as int
        };
        let head = if self.saved.session_picker_delete {
            chrome::heading(
                "── Delete Session "@,
                "(↑↓ navigate  Enter delete  Esc cancel) ──"@,
            )
        } else {
            chrome::heading(
                "── Resume Session "@,
                "(↑↓ navigate  Enter select  Esc cancel) ──"@,
            )
        };
        seq![head] + (if n > VISIBLE_SESSIONS {
            seq![chrome::position_line((self.saved.picker_session_sel + 1) as nat, n)]
        } else {
            seq![]
        }) + self.saved_range(top, end)
    }
}

impl Tui {
    fn provider_line(&self, i: usize) -> (r: Line)
        requires
            i < self@.pickers.provider_picker_list.len(),
        ensures
            r@ == self@.provider_row(i as int),
    {
        let name = self.pickers.provider_picker_list[i].as_str();
        let selected = i == self.pickers.provider_picker_sel;
        let key_mark = if i < self.pickers.provider_picker_keys.len()
            && self.pickers.provider_picker_keys[i] {
            "  [signed in]"
        } else if self.host.known_of(name).supports_oauth {
            "  [browser login]"
        } else {
            ""
        };
        let cur_mark = if chars::str_eq(name, self.account.provider.as_str()) {
            "  (current)"
        } else {
            ""
        };
        let content = chars::cat4(chrome::mark_of_row(selected), name, key_mark, cur_mark);
        lines::line1(content.as_str(), chrome::tone_of_row(selected))
    }

    pub(crate) fn provider_lines(&self) -> (r: Vec<Line>)
        ensures
            lines::lines(r@) == self@.provider_panel(),
    {
        let ghost all = self@.provider_panel();
        let mut out: Vec<Line> = Vec::new();
        lines::push_line(
            &mut out,
            chrome::heading_line(
                "── Provider ",
                "(↑↓ navigate  Enter select  Del remove key  Esc cancel) ──",
            ),
        );
        assert(lines::lines(out@) =~= all.take(1));
        let mut i: usize = 0;
        while i < self.pickers.provider_picker_list.len()
            invariant
                0 <= i <= self.pickers.provider_picker_list@.len(),
                all == self@.provider_panel(),
                lines::lines(out@) == all.take(i + 1),
            decreases self.pickers.provider_picker_list@.len() - i,
        {
            let l = self.provider_line(i);
            assert(all.take(i + 2) =~= all.take(i + 1).push(l@));
            lines::push_line(&mut out, l);
            i = i + 1;
        }
        assert(all.take(i + 1) =~= all);
        out
    }

    fn model_line(&self, i: usize) -> (r: Line)
        requires
            i < self@.pickers.picker_models.len(),
        ensures
            r@ == self@.model_row(i as int),
    {
        let model = &self.pickers.picker_models[i];
        let selected = i == self.pickers.picker_sel;
        let ctx = if model.max_ctx > 0 {
            let k = chars::decimal_string(model.max_ctx / 1000);
            chars::cat3(" (", k.as_str(), "K context)")
        } else {
            String::from_str("")
        };
        let check = if chars::str_eq(model.id.as_str(), self.account.model.as_str()) {
            "  ✓"
        } else {
            ""
        };
        let head = chars::cat4(
            chrome::mark_of_row(selected),
            model.name.as_str(),
            "  ",
            model.id.as_str(),
        );
        let content = chars::cat3(head.as_str(), ctx.as_str(), check);
        lines::line1(content.as_str(), chrome::tone_of_row(selected))
    }

    pub(crate) fn model_lines(&self) -> (r: Vec<Line>)
        requires
            self@.wf(),
        ensures
            lines::lines(r@) == self@.model_panel(),
    {
        let visible = self.picker_visible_height();
        let num = self.pickers.picker_models.len();
        let top = self.pickers.picker_scrl;
        assert(self@.pickers.picker_models.len() == num);
        let end: usize = if top >= num || visible > num - top {
            num
        } else {
            top + visible
        };
        assert(end == self@.model_end());
        let mut out: Vec<Line> = Vec::new();
        lines::push_line(
            &mut out,
            chrome::heading_line("── Model ", "(↑↓ navigate  Enter select  Esc cancel) ──"),
        );
        if num > visible {
            lines::push_line(&mut out, chrome::show_position(self.pickers.picker_sel + 1, num));
        }
        let ghost head = lines::lines(out@);
        let ghost rows = Seq::new(
            (if end <= top {
                0
            } else {
                end - top
            }) as nat,
            |k: int| self@.model_row(top + k),
        );
        let mut i: usize = top;
        assert(head + rows.take(0) =~= head);
        while i < end
            invariant
                top <= i,
                i <= end || i == top,
                end <= num,
                num == self@.pickers.picker_models.len(),
                rows == Seq::new(
                    (if end <= top {
                        0
                    } else {
                        end - top
                    }) as nat,
                    |k: int| self@.model_row(top + k),
                ),
                lines::lines(out@) == head + rows.take(i - top),
            decreases end - i,
        {
            let l = self.model_line(i);
            assert(head + rows.take(i - top + 1) =~= (head + rows.take(i - top)).push(l@));
            lines::push_line(&mut out, l);
            i = i + 1;
        }
        proof {
            assert(rows.take(i - top) =~= rows);
            assert(head + rows =~= self@.model_panel());
        }
        out
    }

    fn theme_line(&self, i: usize) -> (r: Line)
        requires
            i < self@.looks.theme_picker_list.len(),
        ensures
            r@ == self@.theme_row(i as int),
    {
        let t = &self.looks.theme_picker_list[i];
        let selected = i == self.looks.theme_picker_sel;
        let mark = if chars::str_eq(t.name.as_str(), self.looks.theme.name.as_str()) {
            "  ✓"
        } else {
            ""
        };
        let head = chars::cat4(
            chrome::mark_of_row(selected),
            t.label.as_str(),
            " (",
            t.name.as_str(),
        );
        let content = chars::cat3(head.as_str(), ")", mark);
        lines::line1(content.as_str(), chrome::tone_of_row(selected))
    }

    pub(crate) fn theme_lines(&self) -> (r: Vec<Line>)
        ensures
            lines::lines(r@) == self@.theme_panel(),
    {
        let ghost all = self@.theme_panel();
        let mut out: Vec<Line> = Vec::new();
        lines::push_line(
            &mut out,
            chrome::heading_line("── Theme ", "(↑↓ live-preview  Enter apply  Esc cancel) ──"),
        );
        assert(lines::lines(out@) =~= all.take(1));
        let mut i: usize = 0;
        while i < self.looks.theme_picker_list.len()
            invariant
                0 <= i <= self.looks.theme_picker_list@.len(),
                all == self@.theme_panel(),
                lines::lines(out@) == all.take(i + 1),
            decreases self.looks.theme_picker_list@.len() - i,
        {
            let l = self.theme_line(i);
            assert(all.take(i + 2) =~= all.take(i + 1).push(l@));
            lines::push_line(&mut out, l);
            i = i + 1;
        }
        assert(all.take(i + 1) =~= all);
        out
    }

    fn push_saved(&self, out: &mut Vec<Line>, i: usize)
        requires
            i < self@.saved.picker_sessions.len(),
        ensures
            lines::lines(final(out)@) == lines::lines(old(out)@) + self@.saved_rows(i as int),
    {
        let s = &self.saved.picker_sessions[i];
        let selected = i == self.saved.picker_session_sel;
        let summary = text::truncate_summary(s.summary.as_str(), 50);
        let short = session::short_id(s.id.as_str());
        let n = chars::count_string(s.msg_count);
        let age = text::format_timestamp(s.updated_at, self.host.unix_secs);
        let head = chars::cat5(
            chrome::mark_of_row(selected),
            short.as_str(),
            "  ",
            s.model.as_str(),
            "  ",
        );
        let content = chars::cat4(head.as_str(), n.as_str(), " msgs  ", age.as_str());
        let ghost before = lines::lines(out@);
        lines::push_line(out, lines::line1(content.as_str(), chrome::tone_of_row(selected)));
        if !summary.as_str().is_empty() && selected {
            let shown = chars::cat2("   ", summary.as_str());
            lines::push_line(out, lines::line1(shown.as_str(), Tone::Selected));
        }
        assert(lines::lines(out@) =~= before + self@.saved_rows(i as int));
    }

    pub(crate) fn session_lines(&self) -> (r: Vec<Line>)
        requires
            self@.wf(),
        ensures
            lines::lines(r@) == self@.session_panel(),
    {
        let num = self.saved.picker_sessions.len();
        let top = self.saved.picker_session_scrl;
        assert(self@.saved.picker_sessions.len() == num);
        let end: usize = if top >= num || VISIBLE_SESSIONS > num - top {
            num
        } else {
            top + VISIBLE_SESSIONS
        };
        let mut out: Vec<Line> = Vec::new();
        if self.saved.session_picker_delete {
            lines::push_line(
                &mut out,
                chrome::heading_line(
                    "── Delete Session ",
                    "(↑↓ navigate  Enter delete  Esc cancel) ──",
                ),
            );
        } else {
            lines::push_line(
                &mut out,
                chrome::heading_line(
                    "── Resume Session ",
                    "(↑↓ navigate  Enter select  Esc cancel) ──",
                ),
            );
        }
        if num > VISIBLE_SESSIONS {
            lines::push_line(
                &mut out,
                chrome::show_position(self.saved.picker_session_sel + 1, num),
            );
        }
        let ghost head = lines::lines(out@);
        let mut i: usize = top;
        assert(head + self@.saved_range(top as int, top as int) =~= head);
        while i < end
            invariant
                top <= i,
                i <= end || i == top,
                end <= num,
                num == self@.saved.picker_sessions.len(),
                lines::lines(out@) == head + self@.saved_range(top as int, i as int),
            decreases end - i,
        {
            let ghost so_far = lines::lines(out@);
            self.push_saved(&mut out, i);
            assert(lines::lines(out@) =~= head + self@.saved_range(top as int, i + 1));
            i = i + 1;
        }
        proof {
            if end <= top {
                assert(self@.saved_range(top as int, end as int) =~= self@.saved_range(
                    top as int,
                    i as int,
                ));
            }
            assert(lines::lines(out@) =~= self@.session_panel());
        }
        out
    }
}

} // verus!
