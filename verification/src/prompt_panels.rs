//! The prompts of the bottom chrome: permission, recovery, API key.

use crate::body;
use crate::chars;
use crate::chrome;
use crate::chrome::Mark;
use crate::edit;
use crate::lines;
use crate::lines::{Line, Span, Tone};
use crate::state::{Tui, TuiModel};
use crate::tool_display;
use vstd::prelude::*;

verus! {

/// The preview of a tool's input.
pub open spec fn input_preview(input: Seq<char>) -> Seq<Seq<char>> {
    if chars::blank(input) {
        seq![]
    } else {
        tool_display::preview(chars::trim(input), tool_display::json_fields(chars::trim(input)))
    }
}

/// A line of text with a caret in it, after `lead`.
pub open spec fn caret_line(
    lead: lines::SpanView,
    before: Seq<char>,
    after: Seq<char>,
    tone: Tone,
) -> Seq<lines::SpanView> {
    seq![
        lead,
        lines::sp(before, tone),
        lines::sp("▋"@, Tone::AccentFg),
        lines::sp(after, tone),
    ]
}

fn line_with_caret(lead: Span, before: &str, after: &str, tone: Tone) -> (r: Line)
    ensures
        r@ == caret_line(lead@, before@, after@, tone),
{
    let mut v: Vec<Span> = Vec::new();
    let ghost l = lead@;
    v.push(lead);
    v.push(lines::span(before, tone));
    v.push(lines::span("▋", Tone::AccentFg));
    v.push(lines::span(after, tone));
    let r = Line { spans: v };
    assert(r@ =~= caret_line(l, before@, after@, tone));
    r
}

impl TuiModel {
    /// What the permission prompt shows above its options.
    pub open spec fn permission_head(self) -> Seq<Seq<lines::SpanView>> {
        seq![
            seq![lines::sp("Tool '"@ + self.permission.perm_tool_name + "' wants to run:"@, Tone::Ink)],
        ] + (match tool_display::risk_warning(self.permission.perm_tool_name) {
            Some(w) => seq![seq![lines::sp("  "@ + w, Tone::AccentFg)]],
            None => seq![],
        }) + body::rows_of(input_preview(self.permission.perm_tool_input), "  "@, Tone::Muted) + seq![seq![]]
    }

    /// An option of the permission prompt.
    pub open spec fn permission_option(self, i: int) -> Seq<lines::SpanView> {
        if i == self.permission.perm_selection {
            seq![lines::sp("❯ "@ + chrome::PERMISSION_OPTIONS@[i]@, Tone::AccentBold)]
        } else {
            seq![lines::sp("  "@ + chrome::PERMISSION_OPTIONS@[i]@, Tone::Muted)]
        }
    }

    /// The feedback before its cursor.
    pub open spec fn feedback_before(self) -> Seq<char> {
        edit::before(self.permission.perm_discuss_buf, self.permission.perm_discuss_cursor as int)
    }

    /// The feedback field, which only Discuss has.
    pub open spec fn feedback_line(self) -> Seq<lines::SpanView> {
        let lead = lines::sp("     "@, Tone::Muted);
        if self.permission.perm_discuss_buf.len() == 0 {
            seq![
                lead,
                lines::sp("▋"@, Tone::AccentFg),
                lines::sp(" optional feedback · Enter to send"@, Tone::Faint),
            ]
        } else {
            caret_line(
                lead,
                self.feedback_before(),
                edit::after(self.permission.perm_discuss_buf, self.permission.perm_discuss_cursor as int),
                Tone::Ink,
            )
        }
    }

    /// The permission prompt.
    pub open spec fn permission_panel(self) -> Seq<Seq<lines::SpanView>> {
        self.permission_head() + seq![
            self.permission_option(0),
            self.permission_option(1),
            self.permission_option(2),
            self.permission_option(3),
        ] + (if self.permission.perm_selection == 3 {
            seq![self.feedback_line()]
        } else {
            seq![]
        }) + seq![
            seq![],
            seq![
                lines::sp(
                    "(1 yes  ·  2 always  ·  3 no  ·  4 discuss  ·  Esc cancel)"@,
                    Tone::Muted,
                ),
            ],
        ]
    }

    /// Where the permission prompt puts the caret.
    pub open spec fn permission_mark(self) -> Mark {
        if self.permission.perm_selection == 3 {
            Mark::At {
                x: chrome::columns_of("     "@, self.feedback_before()),
                line: (self.permission_head().len() + 4) as usize,
            }
        } else {
            Mark::At { x: 0, line: 0 }
        }
    }

    /// What is typed before the cursor.
    pub open spec fn typed_before(self) -> Seq<char> {
        edit::before(self.composer.input_buf, self.composer.cursor as int)
    }

    /// What is typed from the cursor on.
    pub open spec fn typed_after(self) -> Seq<char> {
        edit::after(self.composer.input_buf, self.composer.cursor as int)
    }

    /// The recovery prompt, over the composer.
    pub open spec fn recovery_panel(self) -> Seq<Seq<lines::SpanView>> {
        seq![
            seq![
                lines::sp(
                    "LLM failed ("@ + self.account.provider + "/"@ + self.account.model
                        + "). Switch and retry your request:"@,
                    Tone::Ink,
                ),
            ],
            seq![],
            chrome::option_spans(chrome::RECOVERY_OPTIONS@, self.prompts.recovery_selection as int),
            seq![lines::sp("(← → navigate  Enter confirm  Esc dismiss)"@, Tone::Muted)],
            caret_line(
                lines::sp("❯ "@, Tone::AccentFg),
                self.typed_before(),
                self.typed_after(),
                Tone::Plain,
            ),
        ]
    }

    /// Where the recovery prompt puts the caret.
    pub open spec fn recovery_mark(self) -> Mark {
        Mark::At { x: chrome::columns_of("❯ "@, self.typed_before()), line: 4 }
    }

    /// What stands before a typed API key.
    pub open spec fn api_key_label(self) -> Seq<char> {
        let target = match self.account.api_key_target {
            Some(t) => t,
            None => self.account.provider,
        };
        let variable = match self.host.known(target).env_var {
            Some(v) => v,
            None => "API_KEY"@,
        };
        target + " API key ("@ + variable + ") > "@
    }

    /// How many characters of the composer stand before the cursor, cut to
    /// the masked form.
    pub open spec fn masked_split(self, masked: Seq<char>) -> int {
        let n = chars::chars_before(self.composer.input_buf, self.composer.cursor as int);
        if n <= masked.len() {
            n
        } else {
            masked.len() as int
        }
    }

    /// The prompt for an API key, which shows only its masked form.
    pub open spec fn api_key_panel(self, masked: Seq<char>) -> Seq<Seq<lines::SpanView>> {
        let k = self.masked_split(masked);
        seq![
            seq![
                lines::sp(self.api_key_label() + masked.take(k), Tone::AccentFg),
                lines::sp("▋"@, Tone::AccentFg),
                lines::sp(masked.skip(k), Tone::AccentFg),
            ],
            seq![
                lines::sp(
                    "Hidden as you type (last 4 characters shown). Enter to save  ·  Esc to cancel"@,
                    Tone::Muted,
                ),
            ],
        ]
    }

    /// Where the prompt for an API key puts the caret.
    pub open spec fn api_key_mark(self, masked: Seq<char>) -> Mark {
        Mark::At {
            x: chrome::columns_of(
                self.api_key_label(),
                masked.take(self.masked_split(masked)),
            ),
            line: 0,
        }
    }
}

impl Tui {
    fn permission_head_lines(&self) -> (r: Vec<Line>)
        ensures
            lines::lines(r@) == self@.permission_head(),
    {
        let name = self.permission.perm_tool_name.as_str();
        let title = chars::cat3("Tool '", name, "' wants to run:");
        let mut out: Vec<Line> = Vec::new();
        lines::push_line(&mut out, lines::line1(title.as_str(), Tone::Ink));
        match tool_display::permission_risk_warning(name) {
            Some(warning) => {
                let shown = chars::cat2("  ", warning);
                lines::push_line(&mut out, lines::line1(shown.as_str(), Tone::AccentFg));
            },
            None => {},
        }
        let ghost top = lines::lines(out@);
        let preview = tool_display::format_permission_tool_input(
            self.permission.perm_tool_input.as_str(),
        );
        body::push_rows(&mut out, &preview, "  ", Tone::Muted);
        lines::push_line(&mut out, body::blank_line());
        assert(lines::lines(out@) =~= self@.permission_head());
        out
    }

    fn permission_option_line(&self, i: usize) -> (r: Line)
        requires
            i < 4,
        ensures
            r@ == self@.permission_option(i as int),
    {
        if i == self.permission.perm_selection {
            let content = chars::cat2("❯ ", chrome::PERMISSION_OPTIONS[i]);
            lines::line1(content.as_str(), Tone::AccentBold)
        } else {
            let content = chars::cat2("  ", chrome::PERMISSION_OPTIONS[i]);
            lines::line1(content.as_str(), Tone::Muted)
        }
    }

    fn feedback_field(&self) -> (r: Line)
        ensures
            r@ == self@.feedback_line(),
    {
        if self.permission.perm_discuss_buf.as_str().is_empty() {
            return lines::line3(
                lines::span("     ", Tone::Muted),
                lines::span("▋", Tone::AccentFg),
                lines::span(" optional feedback · Enter to send", Tone::Faint),
            );
        }
        let (before, after) = edit::split_at_cursor(
            self.permission.perm_discuss_buf.as_str(),
            self.permission.perm_discuss_cursor,
        );
        line_with_caret(
            lines::span("     ", Tone::Muted),
            before.as_str(),
            after.as_str(),
            Tone::Ink,
        )
    }

    pub(crate) fn permission_lines(&self) -> (r: (Vec<Line>, Mark))
        ensures
            lines::lines(r.0@) == self@.permission_panel(),
            r.1 == self@.permission_mark(),
    {
        let mut out = self.permission_head_lines();
        // Numbered vertical options. Only Discuss has an inline feedback field.
        lines::push_line(&mut out, self.permission_option_line(0));
        lines::push_line(&mut out, self.permission_option_line(1));
        lines::push_line(&mut out, self.permission_option_line(2));
        lines::push_line(&mut out, self.permission_option_line(3));
        let at = out.len();
        assert(lines::lines(out@).len() == at);
        let mut mark = Mark::At { x: 0, line: 0 };
        if self.permission.perm_selection == 3 {
            let (before, _) = edit::split_at_cursor(
                self.permission.perm_discuss_buf.as_str(),
                self.permission.perm_discuss_cursor,
            );
            mark = Mark::At { x: chrome::count_columns("     ", before.as_str()), line: at };
            lines::push_line(&mut out, self.feedback_field());
        }
        lines::push_line(&mut out, body::blank_line());
        lines::push_line(
            &mut out,
            lines::line1(
                "(1 yes  ·  2 always  ·  3 no  ·  4 discuss  ·  Esc cancel)",
                Tone::Muted,
            ),
        );
        assert(lines::lines(out@) =~= self@.permission_panel());
        (out, mark)
    }

    pub(crate) fn recovery_lines(&self) -> (r: (Vec<Line>, Mark))
        ensures
            lines::lines(r.0@) == self@.recovery_panel(),
            r.1 == self@.recovery_mark(),
    {
        let title = chars::cat5(
            "LLM failed (",
            self.account.provider.as_str(),
            "/",
            self.account.model.as_str(),
            "). Switch and retry your request:",
        );
        let (before, after) = edit::split_at_cursor(
            self.composer.input_buf.as_str(),
            self.composer.cursor,
        );
        let mut out: Vec<Line> = Vec::new();
        lines::push_line(&mut out, lines::line1(title.as_str(), Tone::Ink));
        lines::push_line(&mut out, body::blank_line());
        lines::push_line(
            &mut out,
            chrome::option_line(&chrome::RECOVERY_OPTIONS, self.prompts.recovery_selection),
        );
        lines::push_line(
            &mut out,
            lines::line1("(← → navigate  Enter confirm  Esc dismiss)", Tone::Muted),
        );
        lines::push_line(
            &mut out,
            line_with_caret(
                lines::span("❯ ", Tone::AccentFg),
                before.as_str(),
                after.as_str(),
                Tone::Plain,
            ),
        );
        assert(lines::lines(out@) =~= self@.recovery_panel());
        (out, Mark::At { x: chrome::count_columns("❯ ", before.as_str()), line: 4 })
    }

    fn label_of_api_key(&self) -> (r: String)
        ensures
            r@ == self@.api_key_label(),
    {
        let target = match &self.account.api_key_target {
            Some(t) => t.as_str(),
            None => self.account.provider.as_str(),
        };
        let known = self.host.known_of(target);
        let variable = match &known.env_var {
            Some(v) => v.as_str(),
            None => "API_KEY",
        };
        chars::cat4(target, " API key (", variable, ") > ")
    }

    pub(crate) fn api_key_lines(&self, masked: &str) -> (r: (Vec<Line>, Mark))
        ensures
            lines::lines(r.0@) == self@.api_key_panel(masked@),
            r.1 == self@.api_key_mark(masked@),
    {
        let label = self.label_of_api_key();
        let typed = chars::to_chars(self.composer.input_buf.as_str());
        let n = edit::char_index(&typed, self.composer.cursor);
        let shown = chars::to_chars(masked);
        let k: usize = if n <= shown.len() {
            n
        } else {
            shown.len()
        };
        let before = chars::range_string(&shown, 0, k);
        let after = chars::range_string(&shown, k, shown.len());
        proof {
            assert(before@ =~= masked@.take(k as int));
            assert(after@ =~= masked@.skip(k as int));
        }
        let lead = chars::cat2(label.as_str(), before.as_str());
        let mut out: Vec<Line> = Vec::new();
        lines::push_line(
            &mut out,
            lines::line3(
                lines::span(lead.as_str(), Tone::AccentFg),
                lines::span("▋", Tone::AccentFg),
                lines::span(after.as_str(), Tone::AccentFg),
            ),
        );
        lines::push_line(
            &mut out,
            lines::line1(
                "Hidden as you type (last 4 characters shown). Enter to save  ·  Esc to cancel",
                Tone::Muted,
            ),
        );
        assert(lines::lines(out@) =~= self@.api_key_panel(masked@));
        (out, Mark::At { x: chrome::count_columns(label.as_str(), before.as_str()), line: 0 })
    }
}

} // verus!
