//! What holds across keys and steps, whatever they do.

use crate::chars;
use crate::edit;
use crate::keys::{KeyCode, KeyEvent};
use crate::llm;
use crate::request;
use crate::state::{State, TuiModel};
use crate::transcript;
use crate::wire;
use vstd::prelude::*;

verus! {

/// Whether a step leaves alone what only the host or a confirmed selection
/// changes: the provider and the model in use, the host's snapshot and its
/// channels, and the arming of the exit.
pub open spec fn kept(before: TuiModel, after: TuiModel) -> bool {
    &&& after.account.provider == before.account.provider
    &&& after.account.model == before.account.model
    &&& after.host == before.host
    &&& after.links == before.links
    &&& after.version == before.version
    &&& after.work_dir == before.work_dir
    &&& after.dirty == before.dirty
    &&& after.ctrl_c_exit_armed == before.ctrl_c_exit_armed
}

proof fn lemma_basic_steps()
    ensures
        forall|m: TuiModel, t: Seq<char>, c: Seq<char>| kept(m, #[trigger] m.say(t, c)),
        forall|m: TuiModel, r: request::RequestView| kept(m, #[trigger] m.ask(r)),
        forall|m: TuiModel, c: Seq<char>| kept(m, #[trigger] m.to_agent(c)),
        forall|m: TuiModel, on: bool| kept(m, #[trigger] m.set_cancel(on)),
        forall|m: TuiModel| kept(m, #[trigger] m.running()),
        forall|m: TuiModel| kept(m, #[trigger] m.suggested()),
        forall|m: TuiModel| kept(m, #[trigger] m.completed()),
        forall|m: TuiModel, t: Seq<char>| kept(m, #[trigger] m.with_input(t)),
        forall|m: TuiModel| kept(m, #[trigger] m.selection_cancelled()),
        forall|m: TuiModel| kept(m, #[trigger] m.identified()),
        forall|m: TuiModel| kept(m, #[trigger] m.stream_ended()),
{
    reveal(TuiModel::say);
    reveal(TuiModel::ask);
    reveal(TuiModel::to_agent);
    reveal(TuiModel::set_cancel);
    reveal(TuiModel::running);
    reveal(TuiModel::suggested);
    reveal(TuiModel::completed);
}

proof fn lemma_flush()
    ensures
        forall|m: TuiModel| kept(m, #[trigger] m.flushed()),
        forall|m: TuiModel, c: Seq<char>| kept(m, #[trigger] m.filled_in(c)),
{
    lemma_basic_steps();
    reveal(TuiModel::flushed);
}

proof fn lemma_pickers()
    ensures
        forall|m: TuiModel| kept(m, #[trigger] m.model_picker_opened()),
        forall|m: TuiModel| kept(m, #[trigger] m.provider_picker_opened()),
        forall|m: TuiModel, p: Seq<char>| kept(m, #[trigger] m.api_key_prompted(p)),
        forall|m: TuiModel, p: Seq<char>, b: bool| kept(m, #[trigger] m.login_started(p, b)),
        forall|m: TuiModel| kept(m, #[trigger] m.theme_picker_opened()),
        forall|m: TuiModel| kept(m, #[trigger] m.theme_picker_left()),
{
    lemma_basic_steps();
}

proof fn lemma_choices()
    ensures
        forall|m: TuiModel, p: Seq<char>| kept(m, #[trigger] m.provider_chosen(p)),
        forall|m: TuiModel, p: Seq<char>| kept(m, #[trigger] m.provider_picked(p)),
{
    lemma_basic_steps();
    lemma_pickers();
}

proof fn lemma_session_steps()
    ensures
        forall|m: TuiModel, b: bool| kept(m, #[trigger] m.autosaved(b)),
        forall|m: TuiModel| kept(m, #[trigger] m.sessions_listed()),
        forall|m: TuiModel| kept(m, #[trigger] m.cleared()),
        forall|m: TuiModel| kept(m, #[trigger] m.copy_asked()),
        forall|m: TuiModel| kept(m, #[trigger] m.image_asked()),
        forall|m: TuiModel, b: bool| kept(m, #[trigger] m.session_picker_opened(b)),
{
    lemma_basic_steps();
    reveal(TuiModel::cleared);
    reveal(TuiModel::copy_asked);
    reveal(TuiModel::image_asked);
}

proof fn lemma_switch_commands()
    ensures
        forall|m: TuiModel, p: Seq<Seq<char>>| kept(m, #[trigger] m.thinking_command(p)),
        forall|m: TuiModel, p: Seq<Seq<char>>| kept(m, #[trigger] m.suggestions_command(p)),
        forall|m: TuiModel, p: Seq<Seq<char>>| kept(m, #[trigger] m.mouse_command(p)),
        forall|m: TuiModel, p: Seq<Seq<char>>| kept(m, #[trigger] m.select_command(p)),
        forall|m: TuiModel| kept(m, #[trigger] m.cost_shown()),
        forall|m: TuiModel| kept(m, #[trigger] m.help_opened()),
        forall|m: TuiModel| kept(m, #[trigger] m.compact_command()),
        forall|m: TuiModel, p: Seq<Seq<char>>| kept(m, #[trigger] m.delete_command(p)),
        forall|m: TuiModel| kept(m, #[trigger] m.resume_command()),
{
    lemma_basic_steps();
    lemma_session_steps();
    reveal(TuiModel::thinking_command);
    reveal(TuiModel::suggestions_command);
    reveal(TuiModel::mouse_command);
    reveal(TuiModel::select_command);
    reveal(TuiModel::cost_shown);
    reveal(TuiModel::help_opened);
    reveal(TuiModel::compact_command);
    reveal(TuiModel::delete_command);
    reveal(TuiModel::resume_command);
}

proof fn lemma_account_commands()
    ensures
        forall|m: TuiModel, p: Seq<Seq<char>>| kept(m, #[trigger] m.model_command(p)),
        forall|m: TuiModel, p: Seq<Seq<char>>| kept(m, #[trigger] m.provider_command(p)),
        forall|m: TuiModel, p: Seq<Seq<char>>| kept(m, #[trigger] m.auth_command(p)),
        forall|m: TuiModel, p: Seq<Seq<char>>| kept(m, #[trigger] m.theme_command(p)),
{
    lemma_basic_steps();
    lemma_pickers();
    lemma_choices();
    reveal(TuiModel::model_command);
    reveal(TuiModel::provider_command);
    reveal(TuiModel::auth_command);
    reveal(TuiModel::theme_command);
}

proof fn lemma_commands()
    ensures
        forall|m: TuiModel, p: Seq<Seq<char>>| kept(m, #[trigger] m.command_run(p)),
        forall|m: TuiModel, c: Seq<char>| kept(m, #[trigger] m.commanded(c).0),
{
    lemma_basic_steps();
    lemma_session_steps();
    lemma_switch_commands();
    lemma_account_commands();
    reveal(TuiModel::commanded);
}

proof fn lemma_scroll_and_history()
    ensures
        forall|m: TuiModel, d: int| kept(m, #[trigger] m.scrolled_by(d)),
        forall|m: TuiModel| kept(m, #[trigger] m.at_top()),
        forall|m: TuiModel| kept(m, #[trigger] m.at_bottom()),
        forall|m: TuiModel| kept(m, #[trigger] m.history_back()),
        forall|m: TuiModel| kept(m, #[trigger] m.history_forward()),
        forall|m: TuiModel, t: Seq<char>| kept(m, #[trigger] m.feedback_typed(t)),
        forall|m: TuiModel, t: Seq<char>| kept(m, #[trigger] m.input_typed(t)),
        forall|m: TuiModel| kept(m, #[trigger] m.recompleted()),
        forall|m: TuiModel| kept(m, #[trigger] m.select_asked()),
{
    lemma_basic_steps();
    reveal(TuiModel::scrolled_by);
    reveal(TuiModel::at_top);
    reveal(TuiModel::at_bottom);
    reveal(TuiModel::history_back);
    reveal(TuiModel::history_forward);
    reveal(TuiModel::feedback_typed);
    reveal(TuiModel::input_typed);
    reveal(TuiModel::select_asked);
}

proof fn lemma_permission_steps()
    ensures
        forall|m: TuiModel, d: Seq<char>| kept(m, #[trigger] m.decided(d)),
        forall|m: TuiModel, s: int| kept(m, #[trigger] m.option_selected(s)),
        forall|m: TuiModel, s: int| kept(m, #[trigger] m.feedback_cursor_at(s)),
        forall|m: TuiModel| kept(m, #[trigger] m.feedback_backspaced()),
        forall|m: TuiModel| kept(m, #[trigger] m.feedback_deleted()),
{
    lemma_basic_steps();
    reveal(TuiModel::decided);
    reveal(TuiModel::option_selected);
    reveal(TuiModel::feedback_cursor_at);
    reveal(TuiModel::feedback_backspaced);
    reveal(TuiModel::feedback_deleted);
}

proof fn lemma_permission_keys()
    ensures
        forall|m: TuiModel, c: KeyCode| kept(m, #[trigger] m.permission_key(c)),
{
    lemma_permission_steps();
    lemma_scroll_and_history();
    reveal(TuiModel::permission_key);
}

proof fn lemma_closing()
    ensures
        forall|m: TuiModel| kept(m, #[trigger] m.help_closed()),
        forall|m: TuiModel| kept(m, #[trigger] m.shortcuts_closed()),
        forall|m: TuiModel| kept(m, #[trigger] m.recovery_closed()),
        forall|m: TuiModel| kept(m, #[trigger] m.removal_closed()),
        forall|m: TuiModel| kept(m, #[trigger] m.handover_closed()),
        forall|m: TuiModel| kept(m, #[trigger] m.completions_closed()),
        forall|m: TuiModel| kept(m, #[trigger] m.completions_hidden()),
        forall|m: TuiModel| kept(m, #[trigger] m.provider_picker_closed()),
        forall|m: TuiModel| kept(m, #[trigger] m.model_picker_closed()),
        forall|m: TuiModel| kept(m, #[trigger] m.session_picker_closed()),
        forall|m: TuiModel| kept(m, #[trigger] m.composer_emptied()),
        forall|m: TuiModel| kept(m, #[trigger] m.key_entry_cancelled()),
        forall|m: TuiModel, w: Seq<char>| kept(m, #[trigger] m.turn_cancelled(w)),
{
    lemma_basic_steps();
    lemma_flush();
    reveal(TuiModel::help_closed);
    reveal(TuiModel::shortcuts_closed);
    reveal(TuiModel::removal_closed);
    reveal(TuiModel::handover_closed);
    reveal(TuiModel::completions_closed);
    reveal(TuiModel::completions_hidden);
    reveal(TuiModel::provider_picker_closed);
    reveal(TuiModel::model_picker_closed);
    reveal(TuiModel::session_picker_closed);
    reveal(TuiModel::composer_emptied);
    reveal(TuiModel::key_entry_cancelled);
    reveal(TuiModel::turn_cancelled);
}

proof fn lemma_overlay_keys()
    ensures
        forall|m: TuiModel, k: KeyEvent| kept(m, #[trigger] m.help_key(k)),
        forall|m: TuiModel, k: KeyEvent| kept(m, #[trigger] m.shortcuts_key(k)),
{
    lemma_closing();
    lemma_scroll_and_history();
    reveal(TuiModel::help_key);
    reveal(TuiModel::shortcuts_key);
}

proof fn lemma_recovery_keys()
    ensures
        forall|m: TuiModel, c: KeyCode| kept(m, #[trigger] m.recovery_key(c)),
{
    lemma_basic_steps();
    lemma_closing();
    lemma_pickers();
    reveal(TuiModel::recovery_key);
    reveal(TuiModel::recovery_moved);
}

proof fn lemma_removal_keys()
    ensures
        forall|m: TuiModel, n: Seq<char>, c: KeyCode| kept(m, #[trigger] m.confirm_remove_key(n, c)),
{
    lemma_basic_steps();
    lemma_closing();
    reveal(TuiModel::removal_choice);
    reveal(TuiModel::confirm_remove_key);
}

proof fn lemma_handover_keys()
    ensures
        forall|m: TuiModel, n: Seq<char>, c: KeyCode| kept(m, #[trigger] m.confirm_history_key(n, c)),
{
    lemma_closing();
    lemma_choices();
    reveal(TuiModel::handover_choice);
    reveal(TuiModel::confirm_history_key);
}

proof fn lemma_question_keys()
    ensures
        forall|m: TuiModel, c: KeyCode| kept(m, #[trigger] m.recovery_key(c)),
        forall|m: TuiModel, n: Seq<char>, c: KeyCode| kept(m, #[trigger] m.confirm_remove_key(n, c)),
        forall|m: TuiModel, n: Seq<char>, c: KeyCode| kept(m, #[trigger] m.confirm_history_key(n, c)),
{
    lemma_recovery_keys();
    lemma_removal_keys();
    lemma_handover_keys();
}

proof fn lemma_global_keys()
    ensures
        forall|m: TuiModel, k: KeyEvent| #[trigger]
            m.global_key(k) is Some ==> kept(m, m.global_key(k)->0),
{
    lemma_scroll_and_history();
    lemma_session_steps();
    reveal(TuiModel::global_key);
}

proof fn lemma_selecting()
    ensures
        forall|m: TuiModel, s: int| kept(m, #[trigger] m.session_selected(s)),
        forall|m: TuiModel, s: int| kept(m, #[trigger] m.theme_selected(s)),
        forall|m: TuiModel, s: int| kept(m, #[trigger] m.completion_selected(s)),
        forall|m: TuiModel, s: int| kept(m, #[trigger] m.provider_selected(s)),
        forall|m: TuiModel, s: int| kept(m, #[trigger] m.model_selected(s)),
        forall|m: TuiModel, s: int| kept(m, #[trigger] m.cursor_at(s)),
        forall|m: TuiModel, t: Seq<char>| kept(m, #[trigger] m.suggestion_taken(t)),
{
    lemma_basic_steps();
    reveal(TuiModel::session_selected);
    reveal(TuiModel::theme_selected);
    reveal(TuiModel::completion_selected);
    reveal(TuiModel::provider_selected);
    reveal(TuiModel::model_selected);
    reveal(TuiModel::cursor_at);
    reveal(TuiModel::suggestion_taken);
}

proof fn lemma_arrows()
    ensures
        forall|m: TuiModel| kept(m, #[trigger] m.up()),
        forall|m: TuiModel| kept(m, #[trigger] m.down()),
        forall|m: TuiModel| kept(m, #[trigger] m.left()),
        forall|m: TuiModel| kept(m, #[trigger] m.right()),
        forall|m: TuiModel| kept(m, #[trigger] m.tabbed()),
{
    lemma_basic_steps();
    lemma_flush();
    lemma_selecting();
    lemma_scroll_and_history();
    reveal(TuiModel::up);
    reveal(TuiModel::down);
    reveal(TuiModel::right);
    reveal(TuiModel::tabbed);
}

proof fn lemma_editing()
    ensures
        forall|m: TuiModel| kept(m, #[trigger] m.escaped()),
        forall|m: TuiModel| kept(m, #[trigger] m.backspace_pressed()),
        forall|m: TuiModel| kept(m, #[trigger] m.delete_pressed()),
        forall|m: TuiModel, c: char| kept(m, #[trigger] m.char_pressed(c)),
{
    lemma_basic_steps();
    lemma_closing();
    lemma_pickers();
    lemma_scroll_and_history();
    reveal(TuiModel::escaped);
    reveal(TuiModel::backspace_pressed);
    reveal(TuiModel::input_backspaced);
    reveal(TuiModel::delete_pressed);
    reveal(TuiModel::removal_asked);
    reveal(TuiModel::input_deleted);
    reveal(TuiModel::char_pressed);
    reveal(TuiModel::shortcuts_toggled);
}

proof fn lemma_enter_steps()
    ensures
        forall|m: TuiModel| kept(m, #[trigger] m.provider_entered()),
        forall|m: TuiModel| kept(m, #[trigger] m.model_entered()),
        forall|m: TuiModel| kept(m, #[trigger] m.session_entered()),
        forall|m: TuiModel| kept(m, #[trigger] m.theme_entered()),
        forall|m: TuiModel| kept(m, #[trigger] m.api_key_entered()),
{
    lemma_basic_steps();
    lemma_closing();
    lemma_choices();
    reveal(TuiModel::provider_entered);
    reveal(TuiModel::nothing_pending);
    reveal(TuiModel::model_entered);
    reveal(TuiModel::session_entered);
    reveal(TuiModel::theme_picker_closed);
    reveal(TuiModel::theme_entered);
    reveal(TuiModel::key_entry_over);
    reveal(TuiModel::api_key_entered);
}

proof fn lemma_sending()
    ensures
        forall|m: TuiModel, t: Seq<char>| kept(m, #[trigger] m.prompt_sent(t)),
        forall|m: TuiModel| kept(m, #[trigger] m.submitted().0),
{
    lemma_basic_steps();
    lemma_commands();
    reveal(TuiModel::prompt_sent);
    reveal(TuiModel::remembered);
    reveal(TuiModel::turn_prepared);
    reveal(TuiModel::images_sent);
    reveal(TuiModel::submitted);
}

proof fn lemma_entered()
    ensures
        forall|m: TuiModel| kept(m, #[trigger] m.entered().0),
{
    lemma_closing();
    lemma_enter_steps();
    lemma_sending();
    reveal(TuiModel::entered);
    reveal(TuiModel::enter_taken);
}

proof fn lemma_composer_keys()
    ensures
        forall|m: TuiModel, c: KeyCode| kept(m, #[trigger] m.composer_key(c).0),
{
    lemma_arrows();
    lemma_editing();
    lemma_entered();
    reveal(TuiModel::composer_key);
}

proof fn lemma_key_taken()
    ensures
        forall|m: TuiModel, k: KeyEvent| kept(m, #[trigger] m.key_taken(k).0),
{
    lemma_session_steps();
    lemma_overlay_keys();
    lemma_global_keys();
    lemma_permission_keys();
    lemma_question_keys();
    lemma_composer_keys();
    reveal(TuiModel::key_taken);
}

proof fn lemma_dismissed()
    ensures
        forall|m: TuiModel| #[trigger] m.dismissed() is Some ==> kept(m, m.dismissed()->0),
{
    lemma_basic_steps();
    lemma_closing();
    lemma_pickers();
    lemma_permission_steps();
    reveal(TuiModel::dismissed);
}

/// No key changes the provider or the model in use, nor what belongs to the
/// host: another provider or model is in use only once the host has saved it,
/// so a cancelled selection leaves the committed one.
pub proof fn law_keys_keep_the_committed_selection(m: TuiModel, key: KeyEvent)
    ensures
        m.keyed(key).0.account.provider == m.account.provider,
        m.keyed(key).0.account.model == m.account.model,
        m.keyed(key).0.host == m.host,
        m.keyed(key).0.links == m.links,
        m.keyed(key).0.version == m.version,
        m.keyed(key).0.work_dir == m.work_dir,
{
    lemma_key_taken();
    lemma_dismissed();
    reveal(TuiModel::interrupted);
}

/// Any pressed key other than Ctrl+C disarms the exit.
pub proof fn law_other_keys_disarm_the_exit(m: TuiModel, key: KeyEvent)
    requires
        key.press,
        !key.control_letter('c', 'C'),
    ensures
        !m.keyed(key).0.ctrl_c_exit_armed,
{
    lemma_key_taken();
}

/// Ctrl+C ends the program just where nothing is left to dismiss and a Ctrl+C
/// before it has armed the exit; the first one says so in the footer only.
pub proof fn law_ctrl_c_exits_on_the_second_press(m: TuiModel, key: KeyEvent)
    requires
        key.press,
        key.control_letter('c', 'C'),
    ensures
        m.keyed(key).1 <==> !(m.dismissed() is None && m.ctrl_c_exit_armed),
        m.dismissed() is None && !m.ctrl_c_exit_armed ==> {
            let once = m.keyed(key).0;
            &&& once == (TuiModel { ctrl_c_exit_armed: true, ..m })
            &&& !once.keyed(key).1
        },
        m.dismissed() is Some ==> !m.keyed(key).0.ctrl_c_exit_armed,
{
    reveal(TuiModel::interrupted);
    reveal(TuiModel::dismissed);
}

/// A key that is let go or held does nothing.
pub proof fn law_only_presses_count(m: TuiModel, key: KeyEvent)
    requires
        !key.press,
    ensures
        m.keyed(key) == (m, true),
{
}

/// Interrupting a turn asks for its cancellation and leaves it running: it is
/// over only when the agent says so. Nothing is queued for the agent.
pub proof fn law_interrupt_waits_for_the_agent(m: TuiModel, word: Seq<char>)
    requires
        m.chat.state == State::Running,
    ensures
        m.turn_cancelled(word).chat.state == State::Running,
        m.turn_cancelled(word).outbox == (if m.links.cancel_flag is Some {
            m.outbox.push(request::RequestView::SetCancel(true))
        } else {
            m.outbox
        }),
{
    reveal(TuiModel::turn_cancelled);
    reveal(TuiModel::set_cancel);
    reveal(TuiModel::ask);
    reveal(TuiModel::say);
    reveal(TuiModel::flushed);
}

/// Help opens over the transcript and adds nothing to it.
pub proof fn law_help_stays_out_of_the_transcript(m: TuiModel)
    ensures
        m.help_opened().chat == m.chat,
        m.help_opened().prompts.show_help,
{
    reveal(TuiModel::help_opened);
}

/// A provider that would be handed an existing conversation is not switched
/// to before that is confirmed, and the answer given by default is no.
pub proof fn law_handover_is_confirmed_first(m: TuiModel, name: Seq<char>)
    requires
        m.would_hand_over(name),
    ensures
        ({
            let asked = m.provider_picked(name);
            &&& asked.account == m.account
            &&& asked.outbox == m.outbox
            &&& asked.prompts.confirm_history_provider == Some(name)
            &&& asked.confirm_history_key(name, KeyCode::Enter).account == m.account
            &&& asked.confirm_history_key(name, KeyCode::Enter).outbox == m.outbox
            &&& asked.confirm_history_key(
                name,
                KeyCode::Enter,
            ).prompts.confirm_history_provider is None
        }),
{
    reveal(TuiModel::confirm_history_key);
    reveal(TuiModel::handover_closed);
}

/// Without a conversation, or for the provider in use, nothing is asked.
pub proof fn law_nothing_to_hand_over(m: TuiModel, name: Seq<char>)
    requires
        name == m.account.provider || (m.chat.output_lines.len() == 0 && (
        m.saved.live_mirror is None || m.saved.live_mirror->0.messages.len() == 0)),
    ensures
        m.provider_picked(name) == m.provider_chosen(name),
{
}

/// Backspace takes back a typed character.
pub proof fn law_backspace_undoes_typing(m: TuiModel, ch: char)
    requires
        m.wf(),
        m.composer_focused(),
        !(ch == '?' && m.shortcuts_offered()),
        chars::byte_len(m.composer.input_buf) + 4 <= usize::MAX,
    ensures
        m.char_pressed(ch).backspace_pressed().composer.input_buf == m.composer.input_buf,
        m.char_pressed(ch).backspace_pressed().composer.cursor == m.composer.cursor,
{
    reveal(TuiModel::char_pressed);
    reveal(TuiModel::backspace_pressed);
    reveal(TuiModel::input_typed);
    reveal(TuiModel::input_backspaced);
    reveal(TuiModel::completed);
    reveal(TuiModel::suggested);
    let text = m.composer.input_buf;
    let at = m.composer.cursor as int;
    edit::lemma_cursor(text, at);
    edit::law_backspace_undoes_insert(text, at, ch);
    assert(seq![ch].drop_first().len() == 0);
    assert(chars::byte_len(seq![ch]) == chars::utf8_width(ch)) by {
        assert(chars::byte_len(seq![ch].drop_first()) == 0);
    }
}

/// Whether Enter reaches the composer: no list is open and no key is asked for.
pub open spec fn takes_prompt(m: TuiModel) -> bool {
    &&& !m.pickers.show_provider_picker
    &&& !m.pickers.show_model_picker
    &&& !m.saved.show_session_picker
    &&& !m.looks.show_theme_picker
    &&& !m.account.awaiting_api_key
}

/// Enter sends what is typed, with the attached images, to the agent exactly
/// once: it is shown in the transcript, the turn runs, and the composer is
/// empty again.
pub proof fn law_enter_sends_the_prompt_once(m: TuiModel)
    requires
        takes_prompt(m),
        m.chat.state == State::Idle,
        ({
            let typed = chars::trim(m.composer.input_buf);
            m.composer.pending_images.len() > 0 || (typed.len() > 0 && typed[0] != '/')
        }),
    ensures
        ({
            let typed = chars::trim(m.composer.input_buf);
            let images = m.composer.pending_images;
            let sent = if images.len() == 0 {
                typed
            } else {
                wire::user_json_cmd(typed, images)
            };
            let after = m.entered().0;
            &&& m.entered().1
            &&& after.outbox == (if m.links.agent_tx is Some {
                m.outbox.push(request::RequestView::Agent(sent))
            } else {
                m.outbox
            })
            &&& after.chat.output_lines == m.chat.output_lines.push(
                transcript::plain("user"@, llm::user_label(typed, images.len())),
            )
            &&& after.chat.state == State::Running
            &&& after.composer.input_buf.len() == 0
            &&& after.composer.pending_images.len() == 0
            &&& after.saved.current_session_id is Some
        }),
{
    reveal(TuiModel::entered);
    reveal(TuiModel::enter_taken);
    reveal(TuiModel::submitted);
    reveal(TuiModel::prompt_sent);
    reveal(TuiModel::remembered);
    reveal(TuiModel::turn_prepared);
    reveal(TuiModel::images_sent);
    reveal(TuiModel::say);
    reveal(TuiModel::running);
    reveal(TuiModel::to_agent);
    reveal(TuiModel::ask);
    reveal(TuiModel::completions_closed);
}

/// While a turn runs, Enter sends nothing and keeps what is typed.
pub proof fn law_enter_waits_for_the_turn(m: TuiModel)
    requires
        takes_prompt(m),
        m.chat.state != State::Idle,
    ensures
        m.entered() == (m.ready_to_enter(), true),
        m.entered().0.outbox == m.outbox,
        m.entered().0.composer.input_buf == m.composer.input_buf,
        m.entered().0.chat == m.chat,
{
    reveal(TuiModel::entered);
    reveal(TuiModel::enter_taken);
    reveal(TuiModel::completions_closed);
}

/// Walking back through the prompt history and forward again comes to the same
/// prompt, and after the newest one to an empty composer.
pub proof fn law_history_walks_both_ways(m: TuiModel)
    requires
        m.wf(),
        m.composer.hist_idx > 0,
    ensures
        m.history_back().composer.input_buf == m.composer.history[m.composer.hist_idx - 1],
        m.history_back().history_forward().composer.hist_idx == m.composer.hist_idx,
        m.history_back().history_forward().composer.input_buf == (if m.composer.hist_idx
            < m.composer.history.len() {
            m.composer.history[m.composer.hist_idx as int]
        } else {
            seq![]
        }),
        m.history_back().history_forward().composer.history == m.composer.history,
{
    reveal(TuiModel::history_back);
    reveal(TuiModel::history_forward);
}

/// A theme that was only previewed is gone once the list is left: the theme
/// from before is back, as the host knows it, and nothing is saved.
pub proof fn law_previewed_theme_is_dropped(m: TuiModel, sel: int)
    requires
        0 <= sel < m.host.themes.len() <= usize::MAX,
    ensures
        ({
            let open = m.theme_picker_opened();
            let after = open.theme_selected(sel).theme_picker_left();
            &&& open.theme_selected(sel).looks.theme == m.host.themes[sel]
            &&& after.looks.theme == m.host.theme_named(m.looks.theme.name)
            &&& !after.looks.show_theme_picker
            &&& after.outbox == m.outbox
        }),
{
    reveal(TuiModel::theme_selected);
}

} // verus!
