//! Saved sessions and the live transcript mirror.

use crate::chars;
use crate::edit;
use crate::llm;
use crate::llm::Message;
use vstd::prelude::*;

verus! {

/// A saved conversation.
#[derive(Debug, PartialEq, Eq)]
pub struct Session {
    pub id: String,
    pub model: String,
    pub provider: String,
    pub messages: Vec<Message>,
    pub tokens_in: u64,
    pub tokens_out: u64,
    pub created_at: u64,
    pub updated_at: u64,
}

/// The mathematical value of a [`Session`].
pub struct SessionView {
    pub id: Seq<char>,
    pub model: Seq<char>,
    pub provider: Seq<char>,
    pub messages: Seq<llm::MessageView>,
    pub tokens_in: u64,
    pub tokens_out: u64,
    pub created_at: u64,
    pub updated_at: u64,
}

impl View for Session {
    type V = SessionView;

    open spec fn view(&self) -> SessionView {
        SessionView {
            id: self.id@,
            model: self.model@,
            provider: self.provider@,
            messages: llm::messages(self.messages@),
            tokens_in: self.tokens_in,
            tokens_out: self.tokens_out,
            created_at: self.created_at,
            updated_at: self.updated_at,
        }
    }
}

/// One row of the list of saved sessions.
#[derive(Debug, PartialEq, Eq)]
pub struct SessionSummary {
    pub id: String,
    pub model: String,
    pub summary: String,
    pub msg_count: usize,
    pub updated_at: u64,
}

/// The mathematical value of a [`SessionSummary`].
pub struct SummaryView {
    pub id: Seq<char>,
    pub model: Seq<char>,
    pub summary: Seq<char>,
    pub msg_count: usize,
    pub updated_at: u64,
}

impl View for SessionSummary {
    type V = SummaryView;

    open spec fn view(&self) -> SummaryView {
        SummaryView {
            id: self.id@,
            model: self.model@,
            summary: self.summary@,
            msg_count: self.msg_count,
            updated_at: self.updated_at,
        }
    }
}

/// The values of a list of rows.
pub open spec fn summaries(v: Seq<SessionSummary>) -> Seq<SummaryView> {
    Seq::new(v.len(), |i: int| v[i]@)
}

/// A copy of a list of rows.
pub fn clone_summaries(v: &Vec<SessionSummary>) -> (r: Vec<SessionSummary>)
    ensures
        summaries(r@) == summaries(v@),
{
    let mut out: Vec<SessionSummary> = Vec::new();
    let mut i: usize = 0;
    assert(summaries(out@) =~= summaries(v@).take(0));
    while i < v.len()
        invariant
            0 <= i <= v@.len(),
            summaries(out@) == summaries(v@).take(i as int),
        decreases v@.len() - i,
    {
        let ghost so_far = out@;
        let s = SessionSummary {
            id: v[i].id.clone(),
            model: v[i].model.clone(),
            summary: v[i].summary.clone(),
            msg_count: v[i].msg_count,
            updated_at: v[i].updated_at,
        };
        out.push(s);
        proof {
            assert(summaries(so_far.push(s)) =~= summaries(so_far).push(s@));
            assert(summaries(v@).take(i + 1) =~= summaries(v@).take(i as int).push(s@));
        }
        i = i + 1;
    }
    assert(summaries(v@).take(i as int) =~= summaries(v@));
    out
}

/// The agent's full transcript (tools included), with its token counts.
#[derive(Debug, PartialEq, Eq)]
pub struct LiveMirror {
    pub messages: Vec<Message>,
    pub tokens_in: u64,
    pub tokens_out: u64,
}

/// The mathematical value of a [`LiveMirror`].
pub struct MirrorView {
    pub messages: Seq<llm::MessageView>,
    pub tokens_in: u64,
    pub tokens_out: u64,
}

impl View for LiveMirror {
    type V = MirrorView;

    open spec fn view(&self) -> MirrorView {
        MirrorView {
            messages: llm::messages(self.messages@),
            tokens_in: self.tokens_in,
            tokens_out: self.tokens_out,
        }
    }
}

/// The value of a mirror, where there is one.
pub open spec fn opt_mirror(m: Option<LiveMirror>) -> Option<MirrorView> {
    match m {
        Some(v) => Some(v@),
        None => None,
    }
}

/// A mirror that holds nothing.
pub open spec fn blank_mirror() -> MirrorView {
    MirrorView { messages: seq![], tokens_in: 0, tokens_out: 0 }
}

impl LiveMirror {
    /// A mirror that holds nothing.
    pub fn empty() -> (r: LiveMirror)
        ensures
            r@ == blank_mirror(),
    {
        let r = LiveMirror { messages: Vec::new(), tokens_in: 0, tokens_out: 0 };
        assert(r@.messages =~= seq![]);
        r
    }
}

/// The leading eight bytes of an id, or all of an id that they do not divide.
pub open spec fn short(id: Seq<char>) -> Seq<char> {
    if chars::byte_len(id) >= 8 && chars::on_boundary(id, 8) {
        edit::before(id, 8)
    } else {
        id
    }
}

/// The leading eight bytes of an id, or all of an id that they do not divide.
pub fn short_id(id: &str) -> (r: String)
    ensures
        r@ == short(id@),
{
    if chars::str_bytes(id) < 8 {
        return String::from_str(id);
    }
    let (head, _) = edit::split_at_cursor(id, 8);
    if chars::str_bytes(head.as_str()) == 8 {
        head
    } else {
        String::from_str(id)
    }
}

} // verus!
