//! Clipboard and plain-text select mode.

use crate::chars;
use crate::llm;
use crate::llm::ImageBlock;
use crate::request;
use crate::request::Request;
use crate::state::{ComposerView, SelectDump, State, Tui, TuiModel};
use crate::transcript;
use crate::transcript::OutputLine;
use vstd::prelude::*;

verus! {

/// How many images one message can carry.
pub const MAX_PENDING_IMAGES: usize = 4;

/// The most recent answer in a transcript that is more than white space.
pub open spec fn last_answer(lines: Seq<transcript::OutputView>) -> Option<Seq<char>>
    decreases lines.len(),
{
    if lines.len() == 0 {
        None
    } else if lines.last().type_ == "text"@ && !chars::blank(lines.last().content) {
        Some(lines.last().content)
    } else {
        last_answer(lines.drop_last())
    }
}

/// A transcript line as plain text.
pub open spec fn dumped_line(l: transcript::OutputView) -> Seq<char> {
    if l.type_ == "user"@ {
        "› "@ + l.content + "\n\n"@
    } else if l.type_ == "text"@ {
        l.content + "\n\n"@
    } else if l.type_ == "thinking"@ {
        "── Thinking ──\n"@ + l.content + "\n\n"@
    } else if l.type_ == "thinking_summary"@ {
        "✦ "@ + l.content + "\n"@
    } else if l.type_ == "tool_use"@ {
        "● "@ + l.tool_name + " "@ + l.content + "\n"@
    } else if l.type_ == "tool_result"@ {
        "● "@ + l.tool_name + " result:\n"@ + l.content + "\n"@
    } else if l.type_ == "error"@ {
        "Error: "@ + l.content + "\n"@
    } else {
        l.content + "\n"@
    }
}

/// A transcript as plain text.
pub open spec fn dumped(lines: Seq<transcript::OutputView>) -> Seq<char>
    decreases lines.len(),
{
    if lines.len() == 0 {
        seq![]
    } else {
        dumped(lines.drop_last()) + dumped_line(lines.last())
    }
}

/// The value of an image that was read, or the error.
pub open spec fn image_outcome(r: Result<(ImageBlock, usize), String>) -> Result<
    (llm::ImageView, usize),
    Seq<char>,
> {
    match r {
        Ok(p) => Ok((p.0@, p.1)),
        Err(e) => Err(e@),
    }
}

/// The outcome of a copy, as a value.
pub open spec fn copy_outcome(r: Result<String, String>) -> Result<Seq<char>, Seq<char>> {
    match r {
        Ok(s) => Ok(s@),
        Err(e) => Err(e@),
    }
}

impl TuiModel {
    /// The most recent answer, or the one being streamed.
    pub open spec fn last_assistant(self) -> Option<Seq<char>> {
        match last_answer(self.chat.output_lines) {
            Some(t) => Some(t),
            None => if chars::blank(self.chat.streaming_text) {
                None
            } else {
                Some(self.chat.streaming_text)
            },
        }
    }

    /// What select mode prints.
    pub open spec fn select_dump(self, kind: SelectDump) -> Seq<char> {
        match kind {
            SelectDump::LastAssistant => match self.last_assistant() {
                Some(t) => t,
                None => "(no assistant message yet)"@,
            },
            SelectDump::FullTranscript => {
                let body = dumped(self.chat.output_lines);
                let all = if self.chat.streaming_text.len() == 0 {
                    body
                } else {
                    body + self.chat.streaming_text + "\n"@
                };
                if chars::blank(all) {
                    "(empty session)"@
                } else {
                    all
                }
            },
        }
    }

    /// With the most recent answer on its way to the clipboard.
    #[verifier::opaque]
    pub open spec fn copy_asked(self) -> TuiModel {
        match self.last_assistant() {
            Some(t) => self.ask(request::RequestView::CopyText(t)),
            None => self.say(
                "system"@,
                "Nothing to copy (no assistant message yet). Try /select to open plain-text view."@,
            ),
        }
    }

    /// With the outcome of a copy reported.
    pub open spec fn copy_reported(
        self,
        text: Seq<char>,
        outcome: Result<Seq<char>, Seq<char>>,
    ) -> TuiModel {
        match outcome {
            Ok(how) => self.say(
                "system"@,
                "Copied last assistant message ("@ + chars::decimal(text.len()) + " chars via "@
                    + how
                    + "). Tip: Shift+drag selects in the TUI; /select (Ctrl+O) for plain-text view."@,
            ),
            Err(e) => self.say(
                "system"@,
                "Copy failed: "@ + e + ". Try Shift+drag to select, or /select (Ctrl+O)."@,
            ),
        }
    }

    /// Whether something other than the composer takes pasted input.
    pub open spec fn paste_blocked(self) -> bool {
        self.account.awaiting_api_key || self.pickers.show_model_picker || self.pickers.show_provider_picker
            || self.looks.show_theme_picker || self.saved.show_session_picker || self.permission.show_permission_prompt
            || self.prompts.show_recovery_prompt || self.prompts.show_help || self.prompts.show_shortcuts
            || self.prompts.confirm_remove_provider is Some || self.prompts.confirm_history_provider is Some
    }

    /// With an image on its way from the clipboard.
    #[verifier::opaque]
    pub open spec fn image_asked(self) -> TuiModel {
        if self.paste_blocked() {
            self
        } else if self.chat.state != State::Idle {
            self.say(
                "system"@,
                "Wait for the current turn to finish before pasting an image."@,
            )
        } else if self.composer.pending_images.len() >= MAX_PENDING_IMAGES {
            self.say("error"@, "At most 4 images can be attached to one message."@)
        } else {
            self.ask(request::RequestView::ReadClipboardImage)
        }
    }

    /// With an image attached to the next message, or the error reported.
    pub open spec fn image_attached(
        self,
        outcome: Result<(llm::ImageView, usize), Seq<char>>,
    ) -> TuiModel {
        match outcome {
            Ok((img, bytes)) => (TuiModel {
                composer: ComposerView {
                    pending_images: self.composer.pending_images.push(img),
                    ..self.composer
                },
                ..self
            }).say(
                "system"@,
                "Attached clipboard image ("@ + img.media_type + ", "@ + chars::decimal(
                    bytes as nat,
                )
                    + " bytes). Add a caption in the composer and press Enter - or paste more images."@,
            ),
            Err(e) => self.say("error"@, "Clipboard image paste failed: "@ + e),
        }
    }
}

fn dump_line(l: &OutputLine) -> (r: String)
    ensures
        r@ == dumped_line(l@),
{
    let t = l.type_.as_str();
    let content = l.content.as_str();
    if chars::str_eq(t, "user") {
        chars::cat3("› ", content, "\n\n")
    } else if chars::str_eq(t, "text") {
        chars::cat2(content, "\n\n")
    } else if chars::str_eq(t, "thinking") {
        chars::cat3("── Thinking ──\n", content, "\n\n")
    } else if chars::str_eq(t, "thinking_summary") {
        chars::cat3("✦ ", content, "\n")
    } else if chars::str_eq(t, "tool_use") {
        chars::cat5("● ", l.tool_name.as_str(), " ", content, "\n")
    } else if chars::str_eq(t, "tool_result") {
        chars::cat5("● ", l.tool_name.as_str(), " result:\n", content, "\n")
    } else if chars::str_eq(t, "error") {
        chars::cat3("Error: ", content, "\n")
    } else {
        chars::cat2(content, "\n")
    }
}

fn dump_lines(lines: &Vec<OutputLine>) -> (r: String)
    ensures
        r@ == dumped(transcript::outputs(lines@)),
{
    let ghost all = transcript::outputs(lines@);
    let mut out = String::new();
    let mut i: usize = 0;
    assert(out@ =~= dumped(all.take(0)));
    while i < lines.len()
        invariant
            all == transcript::outputs(lines@),
            0 <= i <= lines@.len(),
            out@ == dumped(all.take(i as int)),
        decreases lines@.len() - i,
    {
        proof {
            assert(all.take(i + 1).drop_last() =~= all.take(i as int));
            assert(all.take(i + 1).last() == lines@[i as int]@);
        }
        let part = dump_line(&lines[i]);
        out.append(part.as_str());
        i = i + 1;
    }
    assert(all.take(i as int) =~= all);
    out
}

impl Tui {
    /// The most recent answer, or the one being streamed.
    pub fn last_assistant_text(&self) -> (r: Option<String>)
        ensures
            chars::opt(r) == self@.last_assistant(),
    {
        let ghost all = self@.chat.output_lines;
        let mut n: usize = self.chat.output_lines.len();
        assert(all.take(n as int) =~= all);
        while n > 0
            invariant
                all == self@.chat.output_lines,
                0 <= n <= self.chat.output_lines@.len(),
                last_answer(all) == last_answer(all.take(n as int)),
            decreases n,
        {
            let l = &self.chat.output_lines[n - 1];
            proof {
                assert(all.take(n as int).drop_last() =~= all.take(n - 1));
                assert(all.take(n as int).last() == l@);
            }
            if chars::str_eq(l.type_.as_str(), "text") && !chars::is_blank(l.content.as_str()) {
                return Some(l.content.clone());
            }
            n = n - 1;
        }
        if !chars::is_blank(self.chat.streaming_text.as_str()) {
            return Some(self.chat.streaming_text.clone());
        }
        None
    }

    /// What select mode prints.
    pub fn select_dump_text(&self, kind: SelectDump) -> (r: String)
        ensures
            r@ == self@.select_dump(kind),
    {
        match kind {
            SelectDump::LastAssistant => match self.last_assistant_text() {
                Some(t) => t,
                None => String::from_str("(no assistant message yet)"),
            },
            SelectDump::FullTranscript => {
                let body = dump_lines(&self.chat.output_lines);
                let all = if self.chat.streaming_text.as_str().is_empty() {
                    body
                } else {
                    chars::cat3(body.as_str(), self.chat.streaming_text.as_str(), "\n")
                };
                if chars::is_blank(all.as_str()) {
                    String::from_str("(empty session)")
                } else {
                    all
                }
            },
        }
    }

    /// Copy the most recent assistant text to the OS clipboard.
    pub fn copy_last_assistant_to_clipboard(&mut self)
        ensures
            final(self)@ == old(self)@.copy_asked(),
            old(self)@.wf() ==> final(self)@.wf(),
    {
        proof {
            reveal(TuiModel::copy_asked);
        }
        match self.last_assistant_text() {
            Some(t) => self.ask(Request::CopyText(t)),
            None => self.say(
                "system",
                "Nothing to copy (no assistant message yet). Try /select to open plain-text view.",
            ),
        }
    }

    /// Takes in the outcome of a copy: the way it went, or the error.
    pub fn text_copied(&mut self, text: &str, result: Result<String, String>)
        ensures
            final(self)@ == old(self)@.copy_reported(text@, copy_outcome(result)),
            old(self)@.wf() ==> final(self)@.wf(),
    {
        match result {
            Ok(how) => {
                let n = chars::count_string(text.unicode_len());
                let content = chars::cat5(
                    "Copied last assistant message (",
                    n.as_str(),
                    " chars via ",
                    how.as_str(),
                    "). Tip: Shift+drag selects in the TUI; /select (Ctrl+O) for plain-text view.",
                );
                self.say("system", content.as_str());
            },
            Err(e) => {
                let content = chars::cat3(
                    "Copy failed: ",
                    e.as_str(),
                    ". Try Shift+drag to select, or /select (Ctrl+O).",
                );
                self.say("system", content.as_str());
            },
        }
    }

    fn takes_no_paste(&self) -> (r: bool)
        ensures
            r == self@.paste_blocked(),
    {
        self.account.awaiting_api_key || self.pickers.show_model_picker
            || self.pickers.show_provider_picker || self.looks.show_theme_picker
            || self.saved.show_session_picker || self.permission.show_permission_prompt
            || self.prompts.show_recovery_prompt || self.prompts.show_help
            || self.prompts.show_shortcuts || self.prompts.confirm_remove_provider.is_some()
            || self.prompts.confirm_history_provider.is_some()
    }

    pub fn paste_clipboard_image(&mut self)
        ensures
            final(self)@ == old(self)@.image_asked(),
            old(self)@.wf() ==> final(self)@.wf(),
    {
        proof {
            reveal(TuiModel::image_asked);
            assert(self@.composer.pending_images.len() == self.composer.pending_images@.len());
        }
        if self.takes_no_paste() {
            return;
        }
        if self.chat.state != State::Idle {
            self.say(
                "system",
                "Wait for the current turn to finish before pasting an image.",
            );
        } else if self.composer.pending_images.len() >= MAX_PENDING_IMAGES {
            self.say("error", "At most 4 images can be attached to one message.");
        } else {
            self.ask(Request::ReadClipboardImage);
        }
    }

    fn attach_image(&mut self, img: ImageBlock)
        ensures
            final(self)@ == (TuiModel {
                composer: ComposerView {
                    pending_images: old(self)@.composer.pending_images.push(img@),
                    ..old(self)@.composer
                },
                ..old(self)@
            }),
            old(self)@.wf() ==> final(self)@.wf(),
    {
        proof {
            assert(llm::images(self.composer.pending_images@.push(img)) =~= llm::images(
                self.composer.pending_images@,
            ).push(img@));
        }
        self.composer.pending_images.push(img);
    }

    /// Takes in an image read off the clipboard with its size in bytes, or the
    /// error.
    pub fn clipboard_image_read(&mut self, result: Result<(ImageBlock, usize), String>)
        ensures
            final(self)@ == old(self)@.image_attached(image_outcome(result)),
            old(self)@.wf() ==> final(self)@.wf(),
    {
        match result {
            Ok((img, bytes)) => {
                let n = chars::count_string(bytes);
                let content = chars::cat5(
                    "Attached clipboard image (",
                    img.media_type.as_str(),
                    ", ",
                    n.as_str(),
                    " bytes). Add a caption in the composer and press Enter - or paste more images.",
                );
                self.attach_image(img);
                self.say("system", content.as_str());
            },
            Err(e) => {
                let content = chars::cat2("Clipboard image paste failed: ", e.as_str());
                self.say("error", content.as_str());
            },
        }
    }
}

} // verus!
