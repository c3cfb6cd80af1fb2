//! Styled text: the spans and lines that a frame is made of.

use vstd::prelude::*;

verus! {

/// The role that decides how a span is coloured.
#[derive(Clone, Copy, PartialEq, Eq, Structural, Debug)]
pub enum Tone {
    /// No style of its own.
    Plain,
    /// Accent, as used for frames and headings.
    Accent,
    /// Secondary text.
    Muted,
    /// The faintest text, for hints.
    Faint,
    /// The brightest text.
    Ink,
    Red,
    Green,
    /// Accent foreground without weight.
    AccentFg,
    /// Accent foreground in bold.
    AccentBold,
    /// The highlighted row of a list.
    Selected,
    /// A style that the painter registered under a number.
    Registered(usize),
}

/// A run of text in one style.
#[derive(Debug)]
pub struct Span {
    pub content: String,
    pub tone: Tone,
}

/// The mathematical value of a [`Span`].
pub struct SpanView {
    pub content: Seq<char>,
    pub tone: Tone,
}

impl View for Span {
    type V = SpanView;

    open spec fn view(&self) -> SpanView {
        SpanView { content: self.content@, tone: self.tone }
    }
}

/// One line of styled text.
#[derive(Debug)]
pub struct Line {
    pub spans: Vec<Span>,
}

impl View for Line {
    type V = Seq<SpanView>;

    open spec fn view(&self) -> Seq<SpanView> {
        spans(self.spans@)
    }
}

/// The values of a list of spans.
pub open spec fn spans(v: Seq<Span>) -> Seq<SpanView> {
    Seq::new(v.len(), |i: int| v[i]@)
}

/// The values of a list of lines.
pub open spec fn lines(v: Seq<Line>) -> Seq<Seq<SpanView>> {
    Seq::new(v.len(), |i: int| v[i]@)
}

/// A span, as a value.
pub open spec fn sp(content: Seq<char>, tone: Tone) -> SpanView {
    SpanView { content, tone }
}

/// A span.
pub fn span(content: &str, tone: Tone) -> (r: Span)
    ensures
        r@ == sp(content@, tone),
{
    Span { content: String::from_str(content), tone }
}

/// A line of one span.
pub fn line1(content: &str, tone: Tone) -> (r: Line)
    ensures
        r@ == seq![sp(content@, tone)],
{
    let mut v: Vec<Span> = Vec::new();
    v.push(span(content, tone));
    let r = Line { spans: v };
    assert(r@ =~= seq![sp(content@, tone)]);
    r
}

/// A line of two spans.
pub fn line2(a: Span, b: Span) -> (r: Line)
    ensures
        r@ == seq![a@, b@],
{
    let mut v: Vec<Span> = Vec::new();
    v.push(a);
    v.push(b);
    let r = Line { spans: v };
    assert(r@ =~= seq![a@, b@]);
    r
}

/// A line of three spans.
pub fn line3(a: Span, b: Span, c: Span) -> (r: Line)
    ensures
        r@ == seq![a@, b@, c@],
{
    let mut v: Vec<Span> = Vec::new();
    v.push(a);
    v.push(b);
    v.push(c);
    let r = Line { spans: v };
    assert(r@ =~= seq![a@, b@, c@]);
    r
}

pub proof fn lemma_lines_push(v: Seq<Line>, l: Line)
    ensures
        lines(v.push(l)) == lines(v).push(l@),
{
    assert(lines(v.push(l)) =~= lines(v).push(l@));
}

pub proof fn lemma_spans_push(v: Seq<Span>, s: Span)
    ensures
        spans(v.push(s)) == spans(v).push(s@),
{
    assert(spans(v.push(s)) =~= spans(v).push(s@));
}

/// A copy of a line.
pub fn clone_line(l: &Line) -> (r: Line)
    ensures
        r@ == l@,
{
    let mut out: Vec<Span> = Vec::new();
    let mut i: usize = 0;
    while i < l.spans.len()
        invariant
            0 <= i <= l.spans@.len(),
            spans(out@) == l@.take(i as int),
        decreases l.spans@.len() - i,
    {
        let s = Span { content: l.spans[i].content.clone(), tone: l.spans[i].tone };
        proof {
            lemma_spans_push(out@, s);
            assert(l@.take(i + 1) =~= l@.take(i as int).push(s@));
        }
        out.push(s);
        i = i + 1;
    }
    assert(l@.take(i as int) =~= l@);
    Line { spans: out }
}

/// Appends one line.
pub fn push_line(out: &mut Vec<Line>, l: Line)
    ensures
        lines(final(out)@) == lines(old(out)@).push(l@),
{
    proof {
        lemma_lines_push(out@, l);
    }
    out.push(l);
}

/// Appends one span.
pub fn push_span(out: &mut Vec<Span>, s: Span)
    ensures
        spans(final(out)@) == spans(old(out)@).push(s@),
{
    proof {
        lemma_spans_push(out@, s);
    }
    out.push(s);
}

/// Appends copies of several lines.
pub fn extend_lines(out: &mut Vec<Line>, more: &Vec<Line>)
    ensures
        lines(final(out)@) == lines(old(out)@) + lines(more@),
{
    let ghost before = lines(out@);
    let mut i: usize = 0;
    assert(lines(out@) =~= before + lines(more@).take(0));
    while i < more.len()
        invariant
            0 <= i <= more@.len(),
            lines(out@) == before + lines(more@).take(i as int),
        decreases more@.len() - i,
    {
        let l = clone_line(&more[i]);
        proof {
            assert(before + lines(more@).take(i + 1) =~= (before + lines(more@).take(
                i as int,
            )).push(l@));
        }
        push_line(out, l);
        i = i + 1;
    }
    assert(lines(more@).take(i as int) =~= lines(more@));
}

} // verus!
