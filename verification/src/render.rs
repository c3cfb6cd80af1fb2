//! Frame rendering: what stands where on the screen.

use crate::body;
use crate::chars;
use crate::chrome;
use crate::chrome::Mark;
use crate::completion;
use crate::edit;
use crate::layout;
use crate::layout::Area;
use crate::lines;
use crate::lines::{Line, Span, Tone};
use crate::state::{ComposerView, ScrollView, State, Tui, TuiModel};
use crate::text;
use vstd::prelude::*;

verus! {

/// One frame, ready to be painted.
#[derive(Debug)]
pub struct Screen {
    /// The transcript, wrapped to `body_area` and scrolled by `body_scroll` rows.
    pub body: Vec<Line>,
    pub body_area: Area,
    pub body_scroll: u16,
    /// The content of the composer's box, and the area of the box.
    pub composer: Option<(Line, Area)>,
    /// What stands under it, wrapped and scrolled likewise.
    pub chrome: Vec<Line>,
    pub chrome_area: Area,
    pub chrome_scroll: u16,
    /// Where the caret stands, if it shows.
    pub caret: Option<(u16, u16)>,
    /// The scroll position, painted over the transcript.
    pub hint: Option<(String, Area)>,
}

/// The mathematical value of a [`Screen`].
pub struct ScreenView {
    pub body: Seq<Seq<lines::SpanView>>,
    pub body_area: Area,
    pub body_scroll: u16,
    pub composer: Option<(Seq<lines::SpanView>, Area)>,
    pub chrome: Seq<Seq<lines::SpanView>>,
    pub chrome_area: Area,
    pub chrome_scroll: u16,
    pub caret: Option<(u16, u16)>,
    pub hint: Option<(Seq<char>, Area)>,
}

impl View for Screen {
    type V = ScreenView;

    open spec fn view(&self) -> ScreenView {
        ScreenView {
            body: lines::lines(self.body@),
            body_area: self.body_area,
            body_scroll: self.body_scroll,
            composer: match self.composer {
                Some((line, area)) => Some((line@, area)),
                None => None,
            },
            chrome: lines::lines(self.chrome@),
            chrome_area: self.chrome_area,
            chrome_scroll: self.chrome_scroll,
            caret: self.caret,
            hint: match self.hint {
                Some((text, area)) => Some((text@, area)),
                None => None,
            },
        }
    }
}

// ---------------------------------------------------------------------------
// How high the rows are
// ---------------------------------------------------------------------------

/// The rows of the composer's box.
pub const COMPOSER_ROWS: u16 = 3;

/// `a + b`, at most the largest coordinate.
pub open spec fn plus16(a: u16, b: u16) -> u16 {
    if a + b <= 0xffff {
        (a + b) as u16
    } else {
        0xffff
    }
}

/// `a - b`, at least 0.
pub open spec fn minus16(a: u16, b: u16) -> u16 {
    if a >= b {
        (a - b) as u16
    } else {
        0
    }
}

fn add16(a: u16, b: u16) -> (r: u16)
    ensures
        r == plus16(a, b),
{
    if a <= 0xffff - b {
        a + b
    } else {
        0xffff
    }
}

fn sub16(a: u16, b: u16) -> (r: u16)
    ensures
        r == minus16(a, b),
{
    if a >= b {
        a - b
    } else {
        0
    }
}

/// The rows that styled lines take, at least one.
pub open spec fn rows_needed(ls: Seq<Seq<lines::SpanView>>, width: u16) -> int {
    let n = text::clamp_word(text::wrapped_total(ls, width as nat));
    if n == 0 {
        1
    } else {
        n as int
    }
}

/// The most rows that the chrome may take of a screen: room is kept for the
/// transcript.
pub open spec fn chrome_cap(height: u16) -> int {
    let left = minus16(height, 3) as int;
    let share = height * 2 / 3;
    let cap = if left < share {
        left
    } else {
        share
    };
    if cap < 1 {
        1
    } else {
        cap
    }
}

/// The rows that the chrome takes of a screen when it needs `needed`.
pub open spec fn chrome_rows(mark: Mark, needed: int, height: u16) -> int {
    if mark is Composer {
        let status = chrome::low16(needed) as int;
        if status >= chrome_cap(height) {
            chrome_cap(height)
        } else if status < 1 {
            1
        } else {
            status
        }
    } else if needed <= chrome_cap(height) {
        needed
    } else {
        chrome_cap(height)
    }
}

/// How far the chrome is scrolled, so that its end shows.
pub open spec fn chrome_skip(mark: Mark, needed: int, height: u16) -> int {
    if mark is Composer {
        0
    } else {
        needed - chrome_rows(mark, needed, height)
    }
}

/// The heights of the rows under the transcript.
pub open spec fn row_heights(mark: Mark, needed: int, height: u16) -> Seq<u16> {
    let rows = chrome_rows(mark, needed, height) as u16;
    if mark is Composer {
        seq![COMPOSER_ROWS, rows]
    } else {
        seq![rows]
    }
}

fn count_rows(ls: &Vec<Line>, width: u16) -> (r: usize)
    ensures
        r == rows_needed(lines::lines(ls@), width),
{
    let n = text::total_wrapped(ls.as_slice(), width as usize);
    if n == 0 {
        1
    } else {
        n
    }
}

fn cap_of(height: u16) -> (r: u16)
    ensures
        r == chrome_cap(height),
{
    let left = sub16(height, 3);
    let share = ((height as u32) * 2 / 3) as u16;
    let cap = if left < share {
        left
    } else {
        share
    };
    if cap < 1 {
        1
    } else {
        cap
    }
}

fn rows_of_chrome(mark: Mark, needed: usize, height: u16) -> (r: u16)
    ensures
        r == chrome_rows(mark, needed as int, height),
{
    let cap = cap_of(height);
    match mark {
        Mark::Composer => {
            let status = chrome::to_low16(needed);
            if status >= cap {
                cap
            } else if status < 1 {
                1
            } else {
                status
            }
        },
        _ => if needed <= cap as usize {
            needed as u16
        } else {
            cap
        },
    }
}

fn heights_of_rows(mark: Mark, needed: usize, height: u16) -> (r: Vec<u16>)
    ensures
        r@ == row_heights(mark, needed as int, height),
{
    let rows = rows_of_chrome(mark, needed, height);
    let mut out: Vec<u16> = Vec::new();
    match mark {
        Mark::Composer => {
            out.push(COMPOSER_ROWS);
        },
        _ => {},
    }
    out.push(rows);
    assert(out@ =~= row_heights(mark, needed as int, height));
    out
}

// ---------------------------------------------------------------------------
// The chrome
// ---------------------------------------------------------------------------

impl TuiModel {
    /// What stands at the bottom, and where the caret goes. `masked` is the
    /// typed API key as it may be shown.
    pub open spec fn chrome(self, masked: Seq<char>) -> (Seq<Seq<lines::SpanView>>, Mark) {
        if let Some(name) = self.prompts.confirm_remove_provider {
            (
                chrome::question(
                    "Remove saved API key for '"@ + name + "'?"@,
                    "This only deletes the key from the config file."@,
                    chrome::REMOVE_OPTIONS@,
                    self.prompts.confirm_remove_sel as int,
                ),
                Mark::Hidden,
            )
        } else if let Some(name) = self.prompts.confirm_history_provider {
            (
                chrome::question(
                    "Send existing conversation to '"@ + name + "'?"@,
                    "Existing prompts, source excerpts, and tool results will be sent to this provider."@,
                    chrome::HANDOVER_OPTIONS@,
                    self.prompts.confirm_history_sel as int,
                ),
                Mark::Hidden,
            )
        } else if self.prompts.show_help {
            (chrome::help_chrome(), Mark::Hidden)
        } else if self.prompts.show_shortcuts {
            (chrome::shortcuts_chrome(), Mark::Hidden)
        } else if self.pickers.show_provider_picker {
            (self.provider_panel(), Mark::Hidden)
        } else if self.pickers.show_model_picker {
            (self.model_panel(), Mark::Hidden)
        } else if self.looks.show_theme_picker {
            (self.theme_panel(), Mark::Hidden)
        } else if self.saved.show_session_picker {
            (self.session_panel(), Mark::Hidden)
        } else if self.permission.show_permission_prompt {
            (self.permission_panel(), self.permission_mark())
        } else if self.prompts.show_recovery_prompt {
            (self.recovery_panel(), self.recovery_mark())
        } else if self.account.awaiting_api_key {
            (self.api_key_panel(masked), self.api_key_mark(masked))
        } else {
            (self.status_panel(), Mark::Composer)
        }
    }

    /// Whether the ready-to-send suggestion shows in the empty composer.
    pub open spec fn shows_suggestion(self) -> bool {
        &&& self.composer.input_buf.len() == 0
        &&& self.chat.state == State::Idle
        &&& self.composer.idle_suggestion is Some
        &&& !self.permission.show_permission_prompt
        &&& !self.prompts.show_recovery_prompt
        &&& !self.account.awaiting_api_key
    }

    /// What the selected completion would add to the composer.
    pub open spec fn ghost(self) -> Option<Seq<char>> {
        if self.composer.cursor < chars::byte_len(self.composer.input_buf) {
            None
        } else {
            match self.selected_completion() {
                Some(cmd) => completion::ghost_suffix(self.composer.input_buf, cmd),
                None => None,
            }
        }
    }

    /// The content of the composer.
    pub open spec fn composer_spans(self) -> Seq<lines::SpanView> {
        let mark = seq![lines::sp("> "@, Tone::AccentFg)];
        if self.shows_suggestion() {
            mark.push(lines::sp(self.composer.idle_suggestion->0, Tone::Faint))
        } else {
            // Typed text uses ink, not the faint tone of suggestions.
            mark.push(lines::sp(self.typed_before(), Tone::Ink)).push(
                lines::sp(self.typed_after(), Tone::Ink),
            ) + (match self.ghost() {
                Some(suffix) => seq![lines::sp(suffix, Tone::Faint)],
                None => seq![],
            })
        }
    }

    // -----------------------------------------------------------------------
    // The frame
    // -----------------------------------------------------------------------

    /// After a paint of `body` into rows.
    pub open spec fn painted(
        self,
        area: Area,
        rows: Seq<Area>,
        body: Seq<Seq<lines::SpanView>>,
    ) -> TuiModel {
        TuiModel {
            scroll: self.scroll.repainted(
                rows[0].height as usize,
                text::clamp_word(text::wrapped_total(body, area.width as nat)),
            ),
            ..self
        }
    }

    /// The rows of a screen with `chrome` at its bottom.
    pub open spec fn screen_rows(
        area: Area,
        chrome: Seq<Seq<lines::SpanView>>,
        mark: Mark,
    ) -> Seq<Area> {
        layout::rows_of(area, 1, row_heights(mark, rows_needed(chrome, area.width), area.height))
    }

    /// After a frame, and what it shows.
    pub open spec fn frame(
        self,
        area: Area,
        bodies: Seq<Seq<Seq<lines::SpanView>>>,
        streaming: Seq<Seq<lines::SpanView>>,
        masked: Seq<char>,
    ) -> (TuiModel, ScreenView) {
        let body = self.body(area.width as nat, bodies, streaming);
        let (chrome, mark) = self.chrome(masked);
        let rows = Self::screen_rows(area, chrome, mark);
        (self.painted(area, rows, body), self.screen(area, rows, body, chrome, mark))
    }

    /// Where the caret stands in the composer's box.
    pub open spec fn composer_caret(self, comp: Area) -> (u16, u16) {
        let typed = text::width("> "@) + text::width(self.typed_before());
        let room = minus16(comp.width, 3);
        (
            plus16(
                plus16(comp.x, 1),
                if typed <= room {
                    typed as u16
                } else {
                    room
                },
            ),
            plus16(comp.y, 1),
        )
    }

    /// One frame, divided into `rows`.
    pub open spec fn screen(
        self,
        area: Area,
        rows: Seq<Area>,
        body: Seq<Seq<lines::SpanView>>,
        chrome: Seq<Seq<lines::SpanView>>,
        mark: Mark,
    ) -> ScreenView {
        let after = self.painted(area, rows, body);
        let needed = rows_needed(chrome, area.width);
        let skip = chrome_skip(mark, needed, area.height);
        ScreenView {
            body,
            body_area: rows[0],
            body_scroll: chrome::low16(after.scroll.transcript_rowoff as int),
            composer: if mark is Composer {
                Some((self.composer_spans(), rows[1]))
            } else {
                None
            },
            chrome,
            chrome_area: rows.last(),
            chrome_scroll: chrome::low16(skip),
            caret: match mark {
                Mark::Hidden => None,
                Mark::At { x, line } => Some(
                    chrome_caret(rows.last(), chrome, area.width, skip, x, line as int),
                ),
                Mark::Composer => Some(self.composer_caret(rows[1])),
            },
            hint: scroll_hint(after.scroll, rows[0]),
        }
    }
}

/// Where the caret stands in the chrome: `x` columns into a line of it.
pub open spec fn chrome_caret(
    area: Area,
    chrome: Seq<Seq<lines::SpanView>>,
    width: u16,
    skip: int,
    x: u16,
    line: int,
) -> (u16, u16) {
    let at = if line < chrome.len() {
        line
    } else if chrome.len() == 0 {
        0
    } else {
        chrome.len() - 1
    };
    let row = area.y + text::clamp_word(text::wrapped_total(chrome.take(at), width as nat)) - skip;
    let y = chrome::low16(
        if row < 0 {
            0
        } else {
            row
        },
    );
    let bottom = plus16(area.y, minus16(area.height, 1));
    let right = minus16(area.width, 1);
    (
        plus16(
            area.x,
            if x <= right {
                x
            } else {
                right
            },
        ),
        if y <= bottom {
            y
        } else {
            bottom
        },
    )
}

/// How far down the transcript is scrolled, in percent.
pub open spec fn scroll_percent(scroll: ScrollView) -> int {
    scroll.transcript_rowoff * 100 / scroll.max_off()
}

/// The text of the scroll position.
pub open spec fn hint_text(scroll: ScrollView) -> Seq<char> {
    " ↑ "@ + chars::decimal(scroll_percent(scroll) as nat) + "% · PgUp/PgDn · wheel · Ctrl+U/D "@
}

/// The scroll position, which shows at the top right of the transcript while
/// it is not pinned to the bottom.
pub open spec fn scroll_hint(scroll: ScrollView, body: Area) -> Option<(Seq<char>, Area)> {
    let hint = hint_text(scroll);
    let w = chrome::low16(text::width(hint) as int);
    let x = plus16(body.x, minus16(body.width, plus16(w, 1)));
    let room = minus16(body.width, minus16(x, body.x));
    if scroll.transcript_follow || scroll.max_off() == 0 || body.width <= 8 || w == 0 {
        None
    } else {
        Some(
            (
                hint,
                Area {
                    x,
                    y: body.y,
                    width: if w <= room {
                        w
                    } else {
                        room
                    },
                    height: 1,
                },
            ),
        )
    }
}

fn show_scroll_hint(rowoff: usize, max_off: usize, body: Area) -> (r: Option<(String, Area)>)
    requires
        0 < max_off,
        rowoff <= max_off,
    ensures
        forall|s: ScrollView|
            s.transcript_rowoff == rowoff && s.max_off() == max_off && !s.transcript_follow
                ==> #[trigger] scroll_hint(s, body) == (match r {
                Some((text, area)) => Some((text@, area)),
                None => None,
            }),
{
    let pct: u128 = (rowoff as u128) * 100 / (max_off as u128);
    assert(pct <= 100) by (nonlinear_arith)
        requires
            pct == (rowoff as int) * 100 / (max_off as int),
            rowoff <= max_off,
            0 < max_off,
    ;
    let shown = chars::decimal_string(pct as u64);
    let hint = chars::cat3(" ↑ ", shown.as_str(), "% · PgUp/PgDn · wheel · Ctrl+U/D ");
    let w = chrome::to_low16(text::display_width(hint.as_str()));
    let x = add16(body.x, sub16(body.width, add16(w, 1)));
    let room = sub16(body.width, sub16(x, body.x));
    if body.width <= 8 || w == 0 {
        return None;
    }
    Some(
        (
            hint,
            Area {
                x,
                y: body.y,
                width: if w <= room {
                    w
                } else {
                    room
                },
                height: 1,
            },
        ),
    )
}

fn caret_in_chrome(
    area: Area,
    chrome: &Vec<Line>,
    width: u16,
    skip: usize,
    x: u16,
    line: usize,
) -> (r: (u16, u16))
    ensures
        r == chrome_caret(area, lines::lines(chrome@), width, skip as int, x, line as int),
{
    let at: usize = if line < chrome.len() {
        line
    } else if chrome.len() == 0 {
        0
    } else {
        chrome.len() - 1
    };
    let head = vstd::slice::slice_subrange(chrome.as_slice(), 0, at);
    assert(lines::lines(head@) =~= lines::lines(chrome@).take(at as int));
    let before = text::total_wrapped(head, width as usize);
    let row: u128 = area.y as u128 + before as u128;
    let shown: u128 = if row < skip as u128 {
        0
    } else {
        row - skip as u128
    };
    let y = (shown % 0x1_0000) as u16;
    let bottom = add16(area.y, sub16(area.height, 1));
    let right = sub16(area.width, 1);
    (
        add16(
            area.x,
            if x <= right {
                x
            } else {
                right
            },
        ),
        if y <= bottom {
            y
        } else {
            bottom
        },
    )
}

impl Tui {
    /// What stands at the bottom, and where the caret goes. `masked` is the
    /// typed API key as it may be shown.
    pub fn chrome_lines(&self, masked: &str) -> (r: (Vec<Line>, Mark))
        requires
            self@.wf(),
        ensures
            (lines::lines(r.0@), r.1) == self@.chrome(masked@),
    {
        if let Some(name) = &self.prompts.confirm_remove_provider {
            let title = chars::cat3("Remove saved API key for '", name.as_str(), "'?");
            return (
                chrome::question_lines(
                    title.as_str(),
                    "This only deletes the key from the config file.",
                    &chrome::REMOVE_OPTIONS,
                    self.prompts.confirm_remove_sel,
                ),
                Mark::Hidden,
            );
        }
        if let Some(name) = &self.prompts.confirm_history_provider {
            let title = chars::cat3("Send existing conversation to '", name.as_str(), "'?");
            return (
                chrome::question_lines(
                    title.as_str(),
                    "Existing prompts, source excerpts, and tool results will be sent to this provider.",
                    &chrome::HANDOVER_OPTIONS,
                    self.prompts.confirm_history_sel,
                ),
                Mark::Hidden,
            );
        }
        if self.prompts.show_help {
            (chrome::help_lines(), Mark::Hidden)
        } else if self.prompts.show_shortcuts {
            (chrome::shortcuts_lines(), Mark::Hidden)
        } else if self.pickers.show_provider_picker {
            (self.provider_lines(), Mark::Hidden)
        } else if self.pickers.show_model_picker {
            (self.model_lines(), Mark::Hidden)
        } else if self.looks.show_theme_picker {
            (self.theme_lines(), Mark::Hidden)
        } else if self.saved.show_session_picker {
            (self.session_lines(), Mark::Hidden)
        } else if self.permission.show_permission_prompt {
            self.permission_lines()
        } else if self.prompts.show_recovery_prompt {
            self.recovery_lines()
        } else if self.account.awaiting_api_key {
            self.api_key_lines(masked)
        } else {
            (self.status_lines(), Mark::Composer)
        }
    }

    fn ghost_of_composer(&self) -> (r: Option<String>)
        ensures
            chars::opt(r) == self@.ghost(),
    {
        if self.composer.cursor < chars::str_bytes(self.composer.input_buf.as_str()) {
            return None;
        }
        match self.selected_slash_completion() {
            Some(cmd) => completion::slash_ghost_suffix(
                self.composer.input_buf.as_str(),
                cmd.as_str(),
            ),
            None => None,
        }
    }

    fn composer_line(&self) -> (r: Line)
        ensures
            r@ == self@.composer_spans(),
    {
        // ASCII ">" is always one column; other marks can be ambiguous across
        // fonts and terminals.
        let mut spans: Vec<Span> = Vec::new();
        lines::push_span(&mut spans, lines::span("> ", Tone::AccentFg));
        if self.composer.input_buf.as_str().is_empty() && self.chat.state == State::Idle
            && !self.permission.show_permission_prompt && !self.prompts.show_recovery_prompt
            && !self.account.awaiting_api_key {
            if let Some(s) = &self.composer.idle_suggestion {
                lines::push_span(&mut spans, lines::span(s.as_str(), Tone::Faint));
                let r = Line { spans };
                assert(r@ =~= self@.composer_spans());
                return r;
            }
        }
        let (before, after) = edit::split_at_cursor(
            self.composer.input_buf.as_str(),
            self.composer.cursor,
        );
        lines::push_span(&mut spans, lines::span(before.as_str(), Tone::Ink));
        lines::push_span(&mut spans, lines::span(after.as_str(), Tone::Ink));
        match self.ghost_of_composer() {
            Some(suffix) => {
                lines::push_span(&mut spans, lines::span(suffix.as_str(), Tone::Faint));
            },
            None => {},
        }
        let r = Line { spans };
        assert(r@ =~= self@.composer_spans());
        r
    }

    fn caret_in_composer(&self, comp: Area) -> (r: (u16, u16))
        ensures
            r == self@.composer_caret(comp),
    {
        let (before, _) = edit::split_at_cursor(
            self.composer.input_buf.as_str(),
            self.composer.cursor,
        );
        let typed: u128 = text::display_width("> ") as u128 + text::display_width(
            before.as_str(),
        ) as u128;
        let room = sub16(comp.width, 3);
        (
            add16(
                add16(comp.x, 1),
                if typed <= room as u128 {
                    typed as u16
                } else {
                    room
                },
            ),
            add16(comp.y, 1),
        )
    }

    fn settle_scroll(&mut self, height: usize, wrapped: usize)
        ensures
            final(self)@ == (TuiModel {
                scroll: old(self)@.scroll.repainted(height, wrapped),
                ..old(self)@
            }),
            final(self)@.scroll.transcript_rowoff <= final(self)@.scroll.max_off(),
            old(self)@.wf() ==> final(self)@.wf(),
    {
        self.scroll.last_body_h = height;
        self.scroll.last_body_wrapped = wrapped;
        let max_off = self.transcript_max_off();
        if self.scroll.transcript_follow || self.scroll.transcript_rowoff >= max_off {
            self.scroll.transcript_rowoff = max_off;
            self.scroll.transcript_follow = true;
        }
    }

    /// Lays `body` and `chrome` out in the rows that the screen was divided
    /// into: the transcript first, then the composer's box where it shows, then
    /// the chrome.
    pub fn paint(
        &mut self,
        area: Area,
        rows: &Vec<Area>,
        body: Vec<Line>,
        chrome: Vec<Line>,
        mark: Mark,
    ) -> (r: Screen)
        requires
            rows@.len() == (if mark is Composer {
                3int
            } else {
                2
            }),
        ensures
            final(self)@ == old(self)@.painted(area, rows@, lines::lines(body@)),
            r@ == old(self)@.screen(
                area,
                rows@,
                lines::lines(body@),
                lines::lines(chrome@),
                mark,
            ),
            old(self)@.wf() ==> final(self)@.wf(),
    {
        let body_area = rows[0];
        let wrapped = text::total_wrapped(body.as_slice(), area.width as usize);
        let needed = count_rows(&chrome, area.width);
        let composer: Option<(Line, Area)> = match mark {
            Mark::Composer => Some((self.composer_line(), rows[1])),
            _ => None,
        };
        let skip: usize = match mark {
            Mark::Composer => 0,
            _ => needed - rows_of_chrome(mark, needed, area.height) as usize,
        };
        let chrome_area = rows[rows.len() - 1];
        let caret: Option<(u16, u16)> = match mark {
            Mark::Hidden => None,
            Mark::At { x, line } => Some(
                caret_in_chrome(chrome_area, &chrome, area.width, skip, x, line),
            ),
            Mark::Composer => Some(self.caret_in_composer(rows[1])),
        };
        self.settle_scroll(body_area.height as usize, wrapped);
        let max_off = self.transcript_max_off();
        let hint: Option<(String, Area)> = if self.scroll.transcript_follow || max_off == 0 {
            None
        } else {
            show_scroll_hint(self.scroll.transcript_rowoff, max_off, body_area)
        };
        Screen {
            body,
            body_area,
            body_scroll: chrome::to_low16(self.scroll.transcript_rowoff),
            composer,
            chrome,
            chrome_area,
            chrome_scroll: chrome::to_low16(skip),
            caret,
            hint,
        }
    }

    /// One frame for a screen of the given area. `bodies` holds the rendered
    /// markdown of each answer, at the place of its transcript line, `streaming`
    /// that of the answer that streams in, and `masked` the typed API key as it
    /// may be shown.
    pub fn render(
        &mut self,
        area: Area,
        bodies: &Vec<Vec<Line>>,
        streaming: &Vec<Line>,
        masked: &str,
    ) -> (r: Screen)
        requires
            old(self)@.wf(),
        ensures
            final(self)@.wf(),
            (final(self)@, r@) == old(self)@.frame(
                area,
                body::line_blocks(bodies@),
                lines::lines(streaming@),
                masked@,
            ),
    {
        let lines = self.body_lines(area.width as usize, bodies, streaming);
        let (chrome, mark) = self.chrome_lines(masked);
        let needed = count_rows(&chrome, area.width);
        // Pin composer and status to the bottom.
        let heights = heights_of_rows(mark, needed, area.height);
        let rows = layout::split_rows(area, 1, &heights);
        self.paint(area, &rows, lines, chrome, mark)
    }
}

// ---------------------------------------------------------------------------
// Laws
// ---------------------------------------------------------------------------

/// The transcript keeps a row on every screen that has one, and a list or a
/// prompt leaves it at least three rows from four rows up.
pub proof fn law_chrome_leaves_room(area: Area, chrome: Seq<Seq<lines::SpanView>>, mark: Mark)
    requires
        area.y + area.height <= 0xffff,
    ensures
        area.height >= 1 ==> TuiModel::screen_rows(area, chrome, mark)[0].height >= 1,
        area.height >= 4 && !(mark is Composer) ==> TuiModel::screen_rows(
            area,
            chrome,
            mark,
        )[0].height >= 3,
{
}

/// From ten rows up, the composer's box is always drawn in full, and so is as
/// much of the status line as the screen allows.
pub proof fn law_composer_is_drawn_in_full(area: Area, status: Seq<Seq<lines::SpanView>>)
    requires
        area.height >= 10,
        area.y + area.height <= 0xffff,
    ensures
        TuiModel::screen_rows(area, status, Mark::Composer)[1].height == COMPOSER_ROWS,
        TuiModel::screen_rows(area, status, Mark::Composer)[2].height == chrome_rows(
            Mark::Composer,
            rows_needed(status, area.width),
            area.height,
        ),
{
}

/// The composer's caret stays within its box, clear of the borders.
pub proof fn law_composer_caret_in_its_box(m: TuiModel, comp: Area)
    requires
        comp.width >= 3,
        comp.height >= 3,
        comp.x + comp.width <= 0xffff,
        comp.y + comp.height <= 0xffff,
    ensures
        comp.x < m.composer_caret(comp).0 < comp.x + comp.width - 1,
        comp.y < m.composer_caret(comp).1 < comp.y + comp.height - 1,
{
}

/// The caret of a prompt leaves its area neither to the right nor downwards.
pub proof fn law_chrome_caret_in_its_area(
    area: Area,
    chrome: Seq<Seq<lines::SpanView>>,
    width: u16,
    skip: int,
    x: u16,
    line: int,
)
    requires
        area.width >= 1,
        area.height >= 1,
        area.x + area.width <= 0xffff,
        area.y + area.height <= 0xffff,
    ensures
        area.x <= chrome_caret(area, chrome, width, skip, x, line).0 < area.x + area.width,
        chrome_caret(area, chrome, width, skip, x, line).1 < area.y + area.height,
{
}

/// The scroll position shows just while the transcript is not pinned to its
/// bottom, where there is anything to scroll and room to show it, and what it
/// says is less than the whole.
pub proof fn law_hint_only_off_the_bottom(
    s: ScrollView,
    height: usize,
    wrapped: usize,
    body: Area,
)
    requires
        !s.repainted(height, wrapped).transcript_follow,
    ensures
        s.repainted(height, wrapped).max_off() > 0,
        0 <= scroll_percent(s.repainted(height, wrapped)) < 100,
        scroll_hint(s.repainted(height, wrapped), body) is Some ==> body.width > 8,
        scroll_hint(
            (ScrollView { transcript_follow: true, ..s }).repainted(height, wrapped),
            body,
        ) is None,
{
    let t = s.repainted(height, wrapped);
    let off = t.transcript_rowoff as int;
    let num = t.max_off();
    assert(0 <= off * 100 / num < 100) by (nonlinear_arith)
        requires
            0 <= off < num,
    ;
}

/// The prompt for an API key shows the masked form only: what it shows depends
/// on the typed key through nothing but the place of the cursor.
pub proof fn law_api_key_is_masked(m: TuiModel, other: Seq<char>, masked: Seq<char>)
    requires
        chars::chars_before(other, m.composer.cursor as int) == chars::chars_before(
            m.composer.input_buf,
            m.composer.cursor as int,
        ),
    ensures
        (TuiModel {
            composer: ComposerView { input_buf: other, ..m.composer },
            ..m
        }).api_key_panel(masked) == m.api_key_panel(masked),
{
}

} // verus!
