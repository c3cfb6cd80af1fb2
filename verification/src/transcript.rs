//! Transcript lines.

use vstd::prelude::*;

verus! {

/// A line in the output transcript.
#[derive(Debug, PartialEq, Eq)]
pub struct OutputLine {
    pub type_: String,  // "text", "thinking", "tool_use", "tool_result", "error", "system", "user"
    pub content: String,
    pub tool_name: String,
    pub duration: String,
}

/// The mathematical value of an [`OutputLine`].
pub struct OutputView {
    pub type_: Seq<char>,
    pub content: Seq<char>,
    pub tool_name: Seq<char>,
    pub duration: Seq<char>,
}

impl View for OutputLine {
    type V = OutputView;

    open spec fn view(&self) -> OutputView {
        OutputView {
            type_: self.type_@,
            content: self.content@,
            tool_name: self.tool_name@,
            duration: self.duration@,
        }
    }
}

/// The values of a transcript.
pub open spec fn outputs(v: Seq<OutputLine>) -> Seq<OutputView> {
    Seq::new(v.len(), |i: int| v[i]@)
}

pub proof fn lemma_outputs_push(v: Seq<OutputLine>, l: OutputLine)
    ensures
        outputs(v.push(l)) == outputs(v).push(l@),
{
    assert(outputs(v.push(l)) =~= outputs(v).push(l@));
}

/// A line that carries only a type and a content.
pub open spec fn plain(type_: Seq<char>, content: Seq<char>) -> OutputView {
    OutputView { type_, content, tool_name: seq![], duration: seq![] }
}

/// A line that carries only a type and a content.
pub fn plain_line(type_: &str, content: &str) -> (r: OutputLine)
    ensures
        r@ == plain(type_@, content@),
{
    let r = OutputLine {
        type_: String::from_str(type_),
        content: String::from_str(content),
        tool_name: String::new(),
        duration: String::new(),
    };
    assert(r@.tool_name =~= seq![]);
    assert(r@.duration =~= seq![]);
    r
}

/// A line about a tool.
pub open spec fn about_tool(type_: Seq<char>, content: Seq<char>, tool: Seq<char>) -> OutputView {
    OutputView { type_, content, tool_name: tool, duration: seq![] }
}

/// A line about a tool.
pub fn tool_line(type_: &str, content: &str, tool: &str) -> (r: OutputLine)
    ensures
        r@ == about_tool(type_@, content@, tool@),
{
    let r = OutputLine {
        type_: String::from_str(type_),
        content: String::from_str(content),
        tool_name: String::from_str(tool),
        duration: String::new(),
    };
    assert(r@.duration =~= seq![]);
    r
}

} // verus!
