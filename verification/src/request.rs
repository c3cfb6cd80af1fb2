//! Work that the UI asks its host to do. Each request that has an outcome is
//! answered by a method of the UI.

use crate::chars;
use crate::session;
use crate::session::Session;
use crate::theme;
use crate::theme::Theme;
use vstd::prelude::*;

verus! {

/// A notification sound.
#[derive(Clone, Copy, PartialEq, Eq, Structural, Debug)]
pub enum Sound {
    Attention,
    Done,
}

/// What follows a finished save.
#[derive(Clone, Copy, PartialEq, Eq, Structural, Debug)]
pub enum After {
    /// Nothing: the conversation is gone.
    Discard,
    /// Failures are reported.
    Quiet,
    /// Success is reported too.
    Announce,
    /// Failures are reported, then the turn is wound up.
    FinishTurn,
}

/// Work for the host, to be done in the order of the requests.
#[derive(Debug, PartialEq, Eq)]
pub enum Request {
    /// Send a command to the agent.
    Agent(String),
    /// Send a permission decision.
    Permission(String),
    /// Set the flag that cancels the running turn.
    SetCancel(bool),
    /// Play a sound.
    Notify(Sound),
    /// Store the UI's mirror of the transcript as the shared one.
    StoreMirror,
    /// Write a session; answered by `session_saved`.
    SaveSession { session: Session, then: After },
    /// Read a session; answered by `session_loaded`.
    LoadSession(String),
    /// Remove a session; answered by `session_deleted`.
    DeleteSession(String),
    /// Find the session that a query means; answered by `session_resolved`.
    ResolveSession(String),
    /// Write the theme preference; answered by `apply_theme_preference`.
    SaveTheme { selected: Theme, previous: Theme },
    /// Write the thinking preference; answered by `apply_thinking_preference`.
    SaveThinking(bool),
    /// Write the suggestions preference; answered by `apply_suggestions_preference`.
    SaveSuggestions(bool),
    /// Write provider and model; answered by `apply_provider_model_selection`.
    SaveProviderModel { provider: String, model: String },
    /// Switch mouse capture; answered by `mouse_capture_switched`.
    SetMouseCapture(bool),
    /// Write to the clipboard; answered by `text_copied`.
    CopyText(String),
    /// Read an image off the clipboard; answered by `clipboard_image_read`.
    ReadClipboardImage,
    /// Run the rate-limit command; answered by `reset_finished`.
    RunReset(Vec<String>),
    /// List the skills; answered by `skills_listed`.
    ListSkills,
    /// List the MCP servers; answered by `mcp_servers_listed`.
    ListMcpServers,
    /// Remove a saved API key; answered by `api_key_removed`.
    RemoveApiKey(String),
    /// Save an API key; answered by `api_key_saved`.
    SaveApiKey { target: String, key: String },
}

/// The mathematical value of a [`Request`].
pub enum RequestView {
    Agent(Seq<char>),
    Permission(Seq<char>),
    SetCancel(bool),
    Notify(Sound),
    StoreMirror,
    SaveSession { session: session::SessionView, then: After },
    LoadSession(Seq<char>),
    DeleteSession(Seq<char>),
    ResolveSession(Seq<char>),
    SaveTheme { selected: theme::ThemeView, previous: theme::ThemeView },
    SaveThinking(bool),
    SaveSuggestions(bool),
    SaveProviderModel { provider: Seq<char>, model: Seq<char> },
    SetMouseCapture(bool),
    CopyText(Seq<char>),
    ReadClipboardImage,
    RunReset(Seq<Seq<char>>),
    ListSkills,
    ListMcpServers,
    RemoveApiKey(Seq<char>),
    SaveApiKey { target: Seq<char>, key: Seq<char> },
}

impl View for Request {
    type V = RequestView;

    open spec fn view(&self) -> RequestView {
        match self {
            Request::Agent(s) => RequestView::Agent(s@),
            Request::Permission(s) => RequestView::Permission(s@),
            Request::SetCancel(b) => RequestView::SetCancel(*b),
            Request::Notify(k) => RequestView::Notify(*k),
            Request::StoreMirror => RequestView::StoreMirror,
            Request::SaveSession { session, then } => RequestView::SaveSession {
                session: session@,
                then: *then,
            },
            Request::LoadSession(s) => RequestView::LoadSession(s@),
            Request::DeleteSession(s) => RequestView::DeleteSession(s@),
            Request::ResolveSession(s) => RequestView::ResolveSession(s@),
            Request::SaveTheme { selected, previous } => RequestView::SaveTheme {
                selected: selected@,
                previous: previous@,
            },
            Request::SaveThinking(b) => RequestView::SaveThinking(*b),
            Request::SaveSuggestions(b) => RequestView::SaveSuggestions(*b),
            Request::SaveProviderModel { provider, model } => RequestView::SaveProviderModel {
                provider: provider@,
                model: model@,
            },
            Request::SetMouseCapture(b) => RequestView::SetMouseCapture(*b),
            Request::CopyText(s) => RequestView::CopyText(s@),
            Request::ReadClipboardImage => RequestView::ReadClipboardImage,
            Request::RunReset(v) => RequestView::RunReset(chars::strs(v@)),
            Request::ListSkills => RequestView::ListSkills,
            Request::ListMcpServers => RequestView::ListMcpServers,
            Request::RemoveApiKey(s) => RequestView::RemoveApiKey(s@),
            Request::SaveApiKey { target, key } => RequestView::SaveApiKey {
                target: target@,
                key: key@,
            },
        }
    }
}

/// The values of a list of requests.
pub open spec fn requests(v: Seq<Request>) -> Seq<RequestView> {
    Seq::new(v.len(), |i: int| v[i]@)
}

pub proof fn lemma_requests_push(v: Seq<Request>, r: Request)
    ensures
        requests(v.push(r)) == requests(v).push(r@),
{
    assert(requests(v.push(r)) =~= requests(v).push(r@));
}

} // verus!
