//! The state of the terminal UI, and what it stands for.

use crate::chars;
use crate::completion;
use crate::host;
use crate::host::Host;
use crate::llm;
use crate::llm::{ImageBlock, ModelInfo, Usage};
use crate::request;
use crate::request::Request;
use crate::session;
use crate::session::{LiveMirror, SessionSummary};
use crate::theme;
use crate::theme::Theme;
use crate::transcript;
use crate::transcript::OutputLine;
use vstd::prelude::*;

verus! {

/// A channel's sending half. Only the host sends through it.
#[verifier::external_type_specification]
#[verifier::external_body]
#[verifier::reject_recursive_types(T)]
pub struct ExSender<T>(std::sync::mpsc::Sender<T>);

/// What to dump in plain-text select mode (outside the alternate screen).
#[derive(Clone, Copy, PartialEq, Eq, Structural, Debug)]
pub enum SelectDump {
    /// Most recent assistant message (or in-progress stream).
    LastAssistant,
    /// Full session transcript as plain text.
    FullTranscript,
}

/// Whether an agent turn is in flight.
#[derive(Clone, Copy, PartialEq, Eq, Structural, Debug)]
pub enum State {
    Idle,
    Running,
}

/// The conversation on screen and the turn in flight.
pub struct Chat {
    pub output_lines: Vec<OutputLine>,
    pub streaming_text: String,
    pub stream_thinking: String,
    /// When the in-flight thinking stream started.
    pub thinking_started: Option<u64>,
    pub state: State,
    /// When the current agent turn started.
    pub running_started: Option<u64>,
    pub spinner_idx: usize,
    /// Index into SPINNER_VERBS for the current agent turn.
    pub spinner_verb_idx: usize,
    pub total_usage: Usage,
    /// When true, the next `Done` event is a finished agent turn.
    pub expect_turn_notify: bool,
}

/// The mathematical value of [`Chat`].
pub struct ChatView {
    pub output_lines: Seq<transcript::OutputView>,
    pub streaming_text: Seq<char>,
    pub stream_thinking: Seq<char>,
    pub thinking_started: Option<u64>,
    pub state: State,
    pub running_started: Option<u64>,
    pub spinner_idx: usize,
    pub spinner_verb_idx: usize,
    pub total_usage: Usage,
    pub expect_turn_notify: bool,
}

impl View for Chat {
    type V = ChatView;

    open spec fn view(&self) -> ChatView {
        ChatView {
            output_lines: transcript::outputs(self.output_lines@),
            streaming_text: self.streaming_text@,
            stream_thinking: self.stream_thinking@,
            thinking_started: self.thinking_started,
            state: self.state,
            running_started: self.running_started,
            spinner_idx: self.spinner_idx,
            spinner_verb_idx: self.spinner_verb_idx,
            total_usage: self.total_usage,
            expect_turn_notify: self.expect_turn_notify,
        }
    }
}

/// The prompt being typed, its history and its completions.
pub struct Composer {
    pub input_buf: String,
    /// Byte cursor into `input_buf`.
    pub cursor: usize,
    pub history: Vec<String>,
    pub hist_idx: usize,
    /// Clipboard images attached to the next user send (cleared on send/clear).
    pub pending_images: Vec<ImageBlock>,
    /// Grayed-out ready-to-send prompt shown when the composer is empty.
    pub idle_suggestion: Option<String>,
    pub show_command_picker: bool,
    pub cmd_picker_list: Vec<String>,
    pub cmd_picker_filtered: Vec<String>,
    pub cmd_picker_sel: usize,
}

/// The mathematical value of [`Composer`].
pub struct ComposerView {
    pub input_buf: Seq<char>,
    pub cursor: usize,
    pub history: Seq<Seq<char>>,
    pub hist_idx: usize,
    pub pending_images: Seq<llm::ImageView>,
    pub idle_suggestion: Option<Seq<char>>,
    pub show_command_picker: bool,
    pub cmd_picker_list: Seq<Seq<char>>,
    pub cmd_picker_filtered: Seq<Seq<char>>,
    pub cmd_picker_sel: usize,
}

impl View for Composer {
    type V = ComposerView;

    open spec fn view(&self) -> ComposerView {
        ComposerView {
            input_buf: self.input_buf@,
            cursor: self.cursor,
            history: chars::strs(self.history@),
            hist_idx: self.hist_idx,
            pending_images: llm::images(self.pending_images@),
            idle_suggestion: chars::opt(self.idle_suggestion),
            show_command_picker: self.show_command_picker,
            cmd_picker_list: chars::strs(self.cmd_picker_list@),
            cmd_picker_filtered: chars::strs(self.cmd_picker_filtered@),
            cmd_picker_sel: self.cmd_picker_sel,
        }
    }
}

/// The model and provider lists.
pub struct Pickers {
    pub show_model_picker: bool,
    pub picker_models: Vec<ModelInfo>,
    pub picker_sel: usize,
    pub picker_scrl: usize,
    pub show_provider_picker: bool,
    pub provider_picker_list: Vec<String>,
    pub provider_picker_sel: usize,
    /// Whether each provider in `provider_picker_list` has a usable credential.
    pub provider_picker_keys: Vec<bool>,
}

/// The mathematical value of [`Pickers`].
pub struct PickersView {
    pub show_model_picker: bool,
    pub picker_models: Seq<llm::ModelView>,
    pub picker_sel: usize,
    pub picker_scrl: usize,
    pub show_provider_picker: bool,
    pub provider_picker_list: Seq<Seq<char>>,
    pub provider_picker_sel: usize,
    pub provider_picker_keys: Seq<bool>,
}

impl View for Pickers {
    type V = PickersView;

    open spec fn view(&self) -> PickersView {
        PickersView {
            show_model_picker: self.show_model_picker,
            picker_models: llm::models(self.picker_models@),
            picker_sel: self.picker_sel,
            picker_scrl: self.picker_scrl,
            show_provider_picker: self.show_provider_picker,
            provider_picker_list: chars::strs(self.provider_picker_list@),
            provider_picker_sel: self.provider_picker_sel,
            provider_picker_keys: self.provider_picker_keys@,
        }
    }
}

/// The session list and the identity of the active session.
pub struct Saved {
    pub show_session_picker: bool,
    /// When true, Enter on the session picker deletes instead of resuming.
    pub session_picker_delete: bool,
    pub picker_sessions: Vec<SessionSummary>,
    pub picker_session_sel: usize,
    pub picker_session_scrl: usize,
    /// Active session id for autosave / resume (None until first save or resume).
    pub current_session_id: Option<String>,
    /// `created_at` for the active session (preserved across autosaves).
    pub session_created_at: u64,
    /// When the last checkpoint was written, on the host's steady clock.
    pub last_checkpoint_save: Option<u64>,
    /// Full agent transcript (tools included) for session files.
    pub live_mirror: Option<LiveMirror>,
}

/// The mathematical value of [`Saved`].
pub struct SavedView {
    pub show_session_picker: bool,
    pub session_picker_delete: bool,
    pub picker_sessions: Seq<session::SummaryView>,
    pub picker_session_sel: usize,
    pub picker_session_scrl: usize,
    pub current_session_id: Option<Seq<char>>,
    pub session_created_at: u64,
    pub last_checkpoint_save: Option<u64>,
    pub live_mirror: Option<session::MirrorView>,
}

impl View for Saved {
    type V = SavedView;

    open spec fn view(&self) -> SavedView {
        SavedView {
            show_session_picker: self.show_session_picker,
            session_picker_delete: self.session_picker_delete,
            picker_sessions: session::summaries(self.picker_sessions@),
            picker_session_sel: self.picker_session_sel,
            picker_session_scrl: self.picker_session_scrl,
            current_session_id: chars::opt(self.current_session_id),
            session_created_at: self.session_created_at,
            last_checkpoint_save: self.last_checkpoint_save,
            live_mirror: session::opt_mirror(self.live_mirror),
        }
    }
}

/// Questions and overlays in the bottom chrome.
pub struct Prompts {
    /// When Some, a confirmation prompt to remove this provider's saved API key is shown.
    pub confirm_remove_provider: Option<String>,
    pub confirm_remove_sel: usize,
    /// When Some, ask before sending the existing conversation to this provider.
    pub confirm_history_provider: Option<String>,
    pub confirm_history_sel: usize,
    /// After a provider failure: offer Switch model / Switch provider / Dismiss.
    pub show_recovery_prompt: bool,
    pub recovery_selection: usize,
    /// Bottom chrome shows the `/help` overlay.
    pub show_help: bool,
    /// Bottom chrome shows keyboard shortcuts.
    pub show_shortcuts: bool,
}

/// The mathematical value of [`Prompts`].
pub struct PromptsView {
    pub confirm_remove_provider: Option<Seq<char>>,
    pub confirm_remove_sel: usize,
    pub confirm_history_provider: Option<Seq<char>>,
    pub confirm_history_sel: usize,
    pub show_recovery_prompt: bool,
    pub recovery_selection: usize,
    pub show_help: bool,
    pub show_shortcuts: bool,
}

impl View for Prompts {
    type V = PromptsView;

    open spec fn view(&self) -> PromptsView {
        PromptsView {
            confirm_remove_provider: chars::opt(self.confirm_remove_provider),
            confirm_remove_sel: self.confirm_remove_sel,
            confirm_history_provider: chars::opt(self.confirm_history_provider),
            confirm_history_sel: self.confirm_history_sel,
            show_recovery_prompt: self.show_recovery_prompt,
            recovery_selection: self.recovery_selection,
            show_help: self.show_help,
            show_shortcuts: self.show_shortcuts,
        }
    }
}

/// The tool permission prompt.
pub struct Permission {
    pub show_permission_prompt: bool,
    pub perm_tool_name: String,
    pub perm_tool_input: String,
    /// 0=Yes, 1=Yes always, 2=No, 3=Discuss.
    pub perm_selection: usize,
    /// Free-text feedback for Discuss only. Cleared when leaving Discuss.
    pub perm_discuss_buf: String,
    /// Byte cursor into `perm_discuss_buf`.
    pub perm_discuss_cursor: usize,
}

/// The mathematical value of [`Permission`].
pub struct PermissionView {
    pub show_permission_prompt: bool,
    pub perm_tool_name: Seq<char>,
    pub perm_tool_input: Seq<char>,
    pub perm_selection: usize,
    pub perm_discuss_buf: Seq<char>,
    pub perm_discuss_cursor: usize,
}

impl View for Permission {
    type V = PermissionView;

    open spec fn view(&self) -> PermissionView {
        PermissionView {
            show_permission_prompt: self.show_permission_prompt,
            perm_tool_name: self.perm_tool_name@,
            perm_tool_input: self.perm_tool_input@,
            perm_selection: self.perm_selection,
            perm_discuss_buf: self.perm_discuss_buf@,
            perm_discuss_cursor: self.perm_discuss_cursor,
        }
    }
}

/// The provider and model in use, and a change of them under way.
pub struct Account {
    pub model: String,
    pub provider: String,
    pub awaiting_api_key: bool,
    /// After successful sign-in from the provider picker, open the model list.
    pub pending_model_after_auth: bool,
    /// Cross-provider selection stays pending until a model is confirmed, so
    /// cancelling auth or either picker cannot desynchronize the UI and the agent.
    pub pending_provider_selection: Option<String>,
    /// Provider to capture an API key for.
    pub api_key_target: Option<String>,
}

/// The mathematical value of [`Account`].
pub struct AccountView {
    pub model: Seq<char>,
    pub provider: Seq<char>,
    pub awaiting_api_key: bool,
    pub pending_model_after_auth: bool,
    pub pending_provider_selection: Option<Seq<char>>,
    pub api_key_target: Option<Seq<char>>,
}

impl View for Account {
    type V = AccountView;

    open spec fn view(&self) -> AccountView {
        AccountView {
            model: self.model@,
            provider: self.provider@,
            awaiting_api_key: self.awaiting_api_key,
            pending_model_after_auth: self.pending_model_after_auth,
            pending_provider_selection: chars::opt(self.pending_provider_selection),
            api_key_target: chars::opt(self.api_key_target),
        }
    }
}

/// Theme and display preferences.
pub struct Looks {
    pub theme: Theme,
    pub show_theme_picker: bool,
    pub theme_picker_list: Vec<Theme>,
    pub theme_picker_sel: usize,
    /// Theme name before opening the picker (restored on Esc).
    pub theme_before_picker: Option<String>,
    /// When true, stream + keep full thinking blocks. When false, only a short
    /// "Thought for …" marker is kept after each think phase.
    pub show_thinking: bool,
    /// When true, show grayed idle ready-to-send prompts.
    pub show_suggestions: bool,
    /// When true, terminal mouse capture is on so the wheel scrolls the transcript.
    pub mouse_capture: bool,
}

/// The mathematical value of [`Looks`].
pub struct LooksView {
    pub theme: theme::ThemeView,
    pub show_theme_picker: bool,
    pub theme_picker_list: Seq<theme::ThemeView>,
    pub theme_picker_sel: usize,
    pub theme_before_picker: Option<Seq<char>>,
    pub show_thinking: bool,
    pub show_suggestions: bool,
    pub mouse_capture: bool,
}

impl View for Looks {
    type V = LooksView;

    open spec fn view(&self) -> LooksView {
        LooksView {
            theme: self.theme@,
            show_theme_picker: self.show_theme_picker,
            theme_picker_list: theme::themes(self.theme_picker_list@),
            theme_picker_sel: self.theme_picker_sel,
            theme_before_picker: chars::opt(self.theme_before_picker),
            show_thinking: self.show_thinking,
            show_suggestions: self.show_suggestions,
            mouse_capture: self.mouse_capture,
        }
    }
}

/// Where the transcript is scrolled to.
pub struct Scroll {
    /// First visible wrapped line of the body.
    pub transcript_rowoff: usize,
    /// When true, keep the transcript pinned to the latest content.
    pub transcript_follow: bool,
    /// Last body pane height / content height from render (for page sizes).
    pub last_body_h: usize,
    pub last_body_wrapped: usize,
}

/// The mathematical value of [`Scroll`].
pub struct ScrollView {
    pub transcript_rowoff: usize,
    pub transcript_follow: bool,
    pub last_body_h: usize,
    pub last_body_wrapped: usize,
}

impl View for Scroll {
    type V = ScrollView;

    open spec fn view(&self) -> ScrollView {
        ScrollView {
            transcript_rowoff: self.transcript_rowoff,
            transcript_follow: self.transcript_follow,
            last_body_h: self.last_body_h,
            last_body_wrapped: self.last_body_wrapped,
        }
    }
}

/// Where the host listens.
pub struct Links {
    /// Where commands for the agent go.
    pub agent_tx: Option<std::sync::mpsc::Sender<String>>,
    /// Where permission decisions go.
    pub perm_tx: Option<std::sync::mpsc::Sender<String>>,
    /// The flag that cancels the running turn.
    pub cancel_flag: Option<std::sync::Arc<std::sync::atomic::AtomicBool>>,
}

/// The mathematical value of [`Links`].
pub struct LinksView {
    pub agent_tx: Option<std::sync::mpsc::Sender<String>>,
    pub perm_tx: Option<std::sync::mpsc::Sender<String>>,
    pub cancel_flag: Option<std::sync::Arc<std::sync::atomic::AtomicBool>>,
}

impl View for Links {
    type V = LinksView;

    open spec fn view(&self) -> LinksView {
        LinksView {
            agent_tx: self.agent_tx,
            perm_tx: self.perm_tx,
            cancel_flag: self.cancel_flag,
        }
    }
}

/// The terminal UI.
pub struct Tui {
    pub chat: Chat,
    pub composer: Composer,
    pub pickers: Pickers,
    pub saved: Saved,
    pub prompts: Prompts,
    pub permission: Permission,
    pub account: Account,
    pub looks: Looks,
    pub scroll: Scroll,
    pub links: Links,
    pub version: String,
    pub work_dir: String,
    pub dirty: bool,
    /// The first Ctrl+C on an empty idle prompt arms this; the second exits.
    /// Disarmed by any other key or action.
    pub ctrl_c_exit_armed: bool,
    /// Leave the UI and print plain text so the terminal can select/copy freely.
    pub pending_select: Option<SelectDump>,
    /// What the host knows, as of the event at hand.
    pub host: Host,
    /// Work for the host, oldest first.
    pub outbox: Vec<Request>,
}

/// The mathematical value of a [`Tui`].
pub struct TuiModel {
    pub chat: ChatView,
    pub composer: ComposerView,
    pub pickers: PickersView,
    pub saved: SavedView,
    pub prompts: PromptsView,
    pub permission: PermissionView,
    pub account: AccountView,
    pub looks: LooksView,
    pub scroll: ScrollView,
    pub links: LinksView,
    pub version: Seq<char>,
    pub work_dir: Seq<char>,
    pub dirty: bool,
    pub ctrl_c_exit_armed: bool,
    pub pending_select: Option<SelectDump>,
    pub host: host::HostView,
    pub outbox: Seq<request::RequestView>,
}

impl View for Tui {
    type V = TuiModel;

    open spec fn view(&self) -> TuiModel {
        TuiModel {
            chat: self.chat@,
            composer: self.composer@,
            pickers: self.pickers@,
            saved: self.saved@,
            prompts: self.prompts@,
            permission: self.permission@,
            account: self.account@,
            looks: self.looks@,
            scroll: self.scroll@,
            links: self.links@,
            version: self.version@,
            work_dir: self.work_dir@,
            dirty: self.dirty,
            ctrl_c_exit_armed: self.ctrl_c_exit_armed,
            pending_select: self.pending_select,
            host: self.host@,
            outbox: request::requests(self.outbox@),
        }
    }
}

impl TuiModel {
    /// What every step keeps: the cursors stand between characters, the
    /// selections that lists are indexed by stay near their lists, and the
    /// counts that are shown fit their words.
    pub open spec fn wf(self) -> bool {
        &&& chars::on_boundary(self.composer.input_buf, self.composer.cursor as int)
        &&& chars::on_boundary(
            self.permission.perm_discuss_buf,
            self.permission.perm_discuss_cursor as int,
        )
        &&& self.composer.hist_idx <= self.composer.history.len()
        &&& self.looks.theme_picker_sel <= self.looks.theme_picker_list.len()
        &&& self.pickers.picker_sel < usize::MAX
        &&& self.saved.picker_session_sel < usize::MAX
        &&& self.chat.total_usage.cache_read + self.chat.total_usage.cache_create <= u64::MAX
    }

    /// A fresh UI.
    pub open spec fn fresh(
        version: Seq<char>,
        model: Seq<char>,
        provider: Seq<char>,
        work_dir: Seq<char>,
        host: host::HostView,
    ) -> TuiModel {
        TuiModel {
            chat: ChatView {
                output_lines: seq![],
                streaming_text: seq![],
                stream_thinking: seq![],
                thinking_started: None,
                state: State::Idle,
                running_started: None,
                spinner_idx: 0,
                spinner_verb_idx: 0,
                total_usage: Usage::none(),
                expect_turn_notify: false,
            },
            composer: ComposerView {
                input_buf: seq![],
                cursor: 0,
                history: seq![],
                hist_idx: 0,
                pending_images: seq![],
                idle_suggestion: None,
                show_command_picker: false,
                cmd_picker_list: completion::command_names(),
                cmd_picker_filtered: seq![],
                cmd_picker_sel: 0,
            },
            pickers: PickersView {
                show_model_picker: false,
                picker_models: seq![],
                picker_sel: 0,
                picker_scrl: 0,
                show_provider_picker: false,
                provider_picker_list: seq![],
                provider_picker_sel: 0,
                provider_picker_keys: seq![],
            },
            saved: SavedView {
                show_session_picker: false,
                session_picker_delete: false,
                picker_sessions: seq![],
                picker_session_sel: 0,
                picker_session_scrl: 0,
                current_session_id: None,
                session_created_at: 0,
                last_checkpoint_save: None,
                live_mirror: None,
            },
            prompts: PromptsView {
                confirm_remove_provider: None,
                confirm_remove_sel: 0,
                confirm_history_provider: None,
                confirm_history_sel: 0,
                show_recovery_prompt: false,
                recovery_selection: 0,
                show_help: false,
                show_shortcuts: false,
            },
            permission: PermissionView {
                show_permission_prompt: false,
                perm_tool_name: seq![],
                perm_tool_input: seq![],
                perm_selection: 0,
                perm_discuss_buf: seq![],
                perm_discuss_cursor: 0,
            },
            account: AccountView {
                model: model,
                provider: provider,
                awaiting_api_key: false,
                pending_model_after_auth: false,
                pending_provider_selection: None,
                api_key_target: None,
            },
            looks: LooksView {
                theme: host.default_theme,
                show_theme_picker: false,
                theme_picker_list: host.themes,
                theme_picker_sel: 0,
                theme_before_picker: None,
                show_thinking: false,
                show_suggestions: false,
                mouse_capture: true,
            },
            scroll: ScrollView {
                transcript_rowoff: 0,
                transcript_follow: true,
                last_body_h: 0,
                last_body_wrapped: 0,
            },
            links: LinksView {
                agent_tx: None,
                perm_tx: None,
                cancel_flag: None,
            },
            version: version,
            work_dir: work_dir,
            dirty: false,
            ctrl_c_exit_armed: false,
            pending_select: None,
            host: host,
            outbox: seq![],
        }
    }
}

fn command_list() -> (r: Vec<String>)
    ensures
        chars::strs(r@) == completion::command_names(),
{
    let ghost all = completion::command_names();
    let mut out: Vec<String> = Vec::new();
    let mut i: usize = 0;
    assert(chars::strs(out@) =~= all.take(0));
    while i < 23
        invariant
            all == completion::command_names(),
            0 <= i <= 23,
            chars::strs(out@) == all.take(i as int),
        decreases 23 - i,
    {
        let name = String::from_str(completion::SLASH_COMMANDS[i].0);
        proof {
            chars::lemma_strs_push(out@, name);
            assert(all.take(i + 1) =~= all.take(i as int).push(name@));
        }
        out.push(name);
        i = i + 1;
    }
    assert(all.take(i as int) =~= all);
    out
}

impl Tui {
    /// A fresh UI.
    pub fn new(version: &str, model: &str, provider: &str, work_dir: &str, host: Host) -> (r: Self)
        ensures
            r@ == TuiModel::fresh(version@, model@, provider@, work_dir@, host@),
            r@.wf(),
    {
        let r = Tui {
            chat: Chat {
                output_lines: Vec::new(),
                streaming_text: String::new(),
                stream_thinking: String::new(),
                thinking_started: None,
                state: State::Idle,
                running_started: None,
                spinner_idx: 0,
                spinner_verb_idx: 0,
                total_usage: Usage::zero(),
                expect_turn_notify: false,
            },
            composer: Composer {
                input_buf: String::new(),
                cursor: 0,
                history: Vec::new(),
                hist_idx: 0,
                pending_images: Vec::new(),
                idle_suggestion: None,
                show_command_picker: false,
                cmd_picker_list: command_list(),
                cmd_picker_filtered: Vec::new(),
                cmd_picker_sel: 0,
            },
            pickers: Pickers {
                show_model_picker: false,
                picker_models: Vec::new(),
                picker_sel: 0,
                picker_scrl: 0,
                show_provider_picker: false,
                provider_picker_list: Vec::new(),
                provider_picker_sel: 0,
                provider_picker_keys: Vec::new(),
            },
            saved: Saved {
                show_session_picker: false,
                session_picker_delete: false,
                picker_sessions: Vec::new(),
                picker_session_sel: 0,
                picker_session_scrl: 0,
                current_session_id: None,
                session_created_at: 0,
                last_checkpoint_save: None,
                live_mirror: None,
            },
            prompts: Prompts {
                confirm_remove_provider: None,
                confirm_remove_sel: 0,
                confirm_history_provider: None,
                confirm_history_sel: 0,
                show_recovery_prompt: false,
                recovery_selection: 0,
                show_help: false,
                show_shortcuts: false,
            },
            permission: Permission {
                show_permission_prompt: false,
                perm_tool_name: String::new(),
                perm_tool_input: String::new(),
                perm_selection: 0,
                perm_discuss_buf: String::new(),
                perm_discuss_cursor: 0,
            },
            account: Account {
                model: String::from_str(model),
                provider: String::from_str(provider),
                awaiting_api_key: false,
                pending_model_after_auth: false,
                pending_provider_selection: None,
                api_key_target: None,
            },
            looks: Looks {
                theme: theme::clone_theme(&host.default_theme),
                show_theme_picker: false,
                theme_picker_list: theme::clone_themes(&host.themes),
                theme_picker_sel: 0,
                theme_before_picker: None,
                show_thinking: false,
                show_suggestions: false,
                mouse_capture: true,
            },
            scroll: Scroll {
                transcript_rowoff: 0,
                transcript_follow: true,
                last_body_h: 0,
                last_body_wrapped: 0,
            },
            links: Links {
                agent_tx: None,
                perm_tx: None,
                cancel_flag: None,
            },
            version: String::from_str(version),
            work_dir: String::from_str(work_dir),
            dirty: false,
            ctrl_c_exit_armed: false,
            pending_select: None,
            host,
            outbox: Vec::new(),
        };
        proof {
            let fresh = TuiModel::fresh(version@, model@, provider@, work_dir@, host@);
            assert(r@.chat.output_lines =~= fresh.chat.output_lines);
            assert(r@.chat.streaming_text =~= fresh.chat.streaming_text);
            assert(r@.chat.stream_thinking =~= fresh.chat.stream_thinking);
            assert(r@.composer.input_buf =~= fresh.composer.input_buf);
            assert(r@.composer.history =~= fresh.composer.history);
            assert(r@.composer.pending_images =~= fresh.composer.pending_images);
            assert(r@.composer.cmd_picker_list =~= fresh.composer.cmd_picker_list);
            assert(r@.composer.cmd_picker_filtered =~= fresh.composer.cmd_picker_filtered);
            assert(r@.pickers.picker_models =~= fresh.pickers.picker_models);
            assert(r@.pickers.provider_picker_list =~= fresh.pickers.provider_picker_list);
            assert(r@.pickers.provider_picker_keys =~= fresh.pickers.provider_picker_keys);
            assert(r@.saved.picker_sessions =~= fresh.saved.picker_sessions);
            assert(r@.permission.perm_tool_name =~= fresh.permission.perm_tool_name);
            assert(r@.permission.perm_tool_input =~= fresh.permission.perm_tool_input);
            assert(r@.permission.perm_discuss_buf =~= fresh.permission.perm_discuss_buf);
            assert(r@.looks.theme_picker_list =~= fresh.looks.theme_picker_list);
            assert(r@.outbox =~= fresh.outbox);
            chars::lemma_boundary_ends(Seq::<char>::empty());
        }
        r
    }
}

} // verus!
