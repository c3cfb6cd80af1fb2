//! What the answers to a prompt come to: permissions, removals, handovers,
//! recovery.

use crate::chars;
use crate::chrome;
use crate::composer_laws;
use crate::edit;
use crate::events::EventView;
use crate::keys::{KeyCode, KeyEvent};
use crate::lines;
use crate::request::RequestView;
use crate::state::{PromptsView, TuiModel};
use vstd::prelude::*;

verus! {

/// Whether a step adds just one request.
pub open spec fn adds(before: TuiModel, after: TuiModel, r: RequestView) -> bool {
    after.outbox == before.outbox.push(r)
}

/// The key that picks the option at `k` at once.
pub open spec fn option_digit(k: int) -> KeyCode {
    if k == 0 {
        KeyCode::Char('1')
    } else if k == 1 {
        KeyCode::Char('2')
    } else if k == 2 {
        KeyCode::Char('3')
    } else {
        KeyCode::Char('4')
    }
}

/// Whether keys go to the permission prompt: it is open, and neither help nor
/// the shortcuts stand over it.
pub open spec fn permission_owns_keys(m: TuiModel) -> bool {
    m.permission.show_permission_prompt && !m.prompts.show_help && !m.prompts.show_shortcuts
}

/// Enter on Yes, Always or No answers just as the digit that labels it does.
pub proof fn law_enter_answers_like_the_label(m: TuiModel)
    requires
        m.permission.perm_selection < 3,
    ensures
        m.permission_key(KeyCode::Enter) == m.permission_key(
            option_digit(m.permission.perm_selection as int),
        ),
{
    reveal(TuiModel::permission_key);
}

/// Yes lets the tool run once, Always from now on, and No refuses it: each
/// closes the prompt and sends one decision, where someone listens.
pub proof fn law_answers_are_what_they_say(m: TuiModel, key: KeyEvent)
    requires
        permission_owns_keys(m),
        m.links.perm_tx is Some,
        key.press,
        !key.control,
        !key.pastes_image(m.host.platform),
    ensures
        ({
            let sel = m.permission.perm_selection;
            let after = m.keyed(key).0;
            let yes = key.code == KeyCode::Char('1') || (key.code == KeyCode::Enter && sel == 0);
            let always = key.code == KeyCode::Char('2') || (key.code == KeyCode::Enter && sel == 1);
            let no = key.code == KeyCode::Char('3') || (key.code == KeyCode::Enter && sel == 2)
                || key.code == KeyCode::Esc;
            &&& yes ==> adds(m, after, RequestView::Permission("allow"@))
            &&& always ==> adds(m, after, RequestView::Permission("always_allow"@))
            &&& no ==> adds(m, after, RequestView::Permission("deny"@))
            &&& (yes || always || no) ==> !after.permission.show_permission_prompt
            &&& m.keyed(key).1
        }),
{
    reveal(TuiModel::key_taken);
    reveal(TuiModel::permission_key);
    lemma_decided(m.disarmed());
}

proof fn lemma_decided(m: TuiModel)
    ensures
        forall|d: Seq<char>|
            (#[trigger] m.decided(d)).outbox == (if m.links.perm_tx is Some {
                m.outbox.push(RequestView::Permission(d))
            } else {
                m.outbox
            }) && !m.decided(d).permission.show_permission_prompt,
{
    reveal(TuiModel::decided);
    reveal(TuiModel::suggested);
    reveal(TuiModel::ask);
}

proof fn lemma_decisions_differ(feedback: Seq<char>)
    ensures
        "deny"@ != "allow"@,
        "deny"@ != "always_allow"@,
        "allow"@ != "always_allow"@,
        "discuss"@ != "allow"@,
        "discuss"@ != "always_allow"@,
        "discuss"@ != "deny"@,
        "discuss:"@ + feedback != "allow"@,
        "discuss:"@ + feedback != "always_allow"@,
        "discuss:"@ + feedback != "deny"@,
{
    reveal_strlit("deny");
    reveal_strlit("allow");
    reveal_strlit("always_allow");
    reveal_strlit("discuss");
    reveal_strlit("discuss:");
    assert("discuss:"@[0] == 'd' && "discuss:"@[1] == 'i');
    assert(("discuss:"@ + feedback)[0] == 'd');
    assert(("discuss:"@ + feedback)[1] == 'i');
    assert("deny"@[1] == 'e');
    assert("allow"@[0] == 'a');
    assert("always_allow"@[0] == 'a');
    assert("allow"@.len() != "always_allow"@.len());
}

/// A tool is allowed to run only by an answer that says so: no key sends Yes
/// unless Yes is highlighted or its digit pressed, and likewise for Always. Any
/// key that is not an answer sends nothing.
pub proof fn law_nothing_is_allowed_unasked(m: TuiModel, code: KeyCode)
    ensures
        ({
            let sel = m.permission.perm_selection;
            let after = m.permission_key(code).outbox;
            let answers = code == KeyCode::Enter || code == KeyCode::Esc || code == KeyCode::Char(
                '1',
            ) || code == KeyCode::Char('2') || code == KeyCode::Char('3');
            &&& !answers ==> after == m.outbox
            &&& after.len() <= m.outbox.len() + 1
            &&& after == m.outbox.push(RequestView::Permission("allow"@)) ==> code == KeyCode::Char(
                '1',
            ) || (code == KeyCode::Enter && sel == 0)
            &&& after == m.outbox.push(RequestView::Permission("always_allow"@)) ==> code
                == KeyCode::Char('2') || (code == KeyCode::Enter && sel == 1)
        }),
{
    reveal(TuiModel::permission_key);
    reveal(TuiModel::option_selected);
    reveal(TuiModel::feedback_cursor_at);
    reveal(TuiModel::feedback_backspaced);
    reveal(TuiModel::feedback_deleted);
    reveal(TuiModel::feedback_typed);
    lemma_decided(m);
    lemma_decisions_differ(chars::trim(m.permission.perm_discuss_buf));
    let n = m.outbox.len() as int;
    let after = m.permission_key(code).outbox;
    if after == m.outbox.push(RequestView::Permission("allow"@)) {
        assert(after[n] == RequestView::Permission("allow"@));
    }
    if after == m.outbox.push(RequestView::Permission("always_allow"@)) {
        assert(after[n] == RequestView::Permission("always_allow"@));
    }
}

/// Ctrl+C on the prompt refuses the tool; it never lets it run.
pub proof fn law_ctrl_c_refuses(m: TuiModel, key: KeyEvent)
    requires
        key.press,
        key.control_letter('c', 'C'),
        permission_owns_keys(m),
        !m.account.awaiting_api_key,
        m.prompts.confirm_remove_provider is None,
        m.prompts.confirm_history_provider is None,
        !m.composer.show_command_picker,
        !m.pickers.show_provider_picker,
        !m.pickers.show_model_picker,
        !m.saved.show_session_picker,
        !m.looks.show_theme_picker,
        !m.prompts.show_recovery_prompt,
        m.links.perm_tx is Some,
    ensures
        adds(m, m.keyed(key).0, RequestView::Permission("deny"@)),
        !m.keyed(key).0.permission.show_permission_prompt,
        m.keyed(key).1,
{
    reveal(TuiModel::interrupted);
    reveal(TuiModel::dismissed);
    lemma_decided(m);
}

/// Without a listener no key sends a decision.
pub proof fn law_no_listener_no_decision(m: TuiModel, code: KeyCode)
    requires
        m.links.perm_tx is None,
    ensures
        m.permission_key(code).outbox == m.outbox,
{
    reveal(TuiModel::permission_key);
    reveal(TuiModel::option_selected);
    reveal(TuiModel::feedback_cursor_at);
    reveal(TuiModel::feedback_backspaced);
    reveal(TuiModel::feedback_deleted);
    reveal(TuiModel::feedback_typed);
    lemma_decided(m);
}

/// Down and Up walk the four options one by one and stop at the ends; going
/// down and up again comes back.
pub proof fn law_arrows_walk_the_options(m: TuiModel)
    requires
        m.permission.perm_selection <= 3,
    ensures
        ({
            let sel = m.permission.perm_selection;
            let down = m.permission_key(KeyCode::Down).permission;
            let up = m.permission_key(KeyCode::Up).permission;
            &&& down.perm_selection == (if sel < 3 {
                sel + 1
            } else {
                3
            })
            &&& up.perm_selection == (if sel > 0 {
                sel - 1
            } else {
                0
            })
            &&& down.show_permission_prompt == m.permission.show_permission_prompt
            &&& up.show_permission_prompt == m.permission.show_permission_prompt
            &&& down.perm_tool_name == m.permission.perm_tool_name
            &&& down.perm_tool_input == m.permission.perm_tool_input
            &&& sel < 3 ==> m.permission_key(KeyCode::Down).permission_key(
                KeyCode::Up,
            ).permission.perm_selection == sel
            &&& m.permission_key(KeyCode::Char('4')).permission.perm_selection == 3
        }),
{
    reveal(TuiModel::permission_key);
    reveal(TuiModel::option_selected);
}

/// A request for permission opens the prompt on its first option, names the
/// tool and its input, sounds for attention, and decides nothing.
pub proof fn law_permission_is_asked_for(m: TuiModel, name: Seq<char>, input: Seq<char>)
    ensures
        ({
            let after = m.event_applied(EventView::PermissionRequest(name, input));
            &&& after.permission.show_permission_prompt
            &&& after.permission.perm_tool_name == name
            &&& after.permission.perm_tool_input == input
            &&& after.permission.perm_selection == 0
            &&& after.permission.perm_discuss_buf.len() == 0
            &&& adds(m, after, RequestView::Notify(crate::request::Sound::Attention))
            &&& after.chat.state == m.chat.state
        }),
{
    reveal(TuiModel::permission_asked);
    reveal(TuiModel::flushed);
    reveal(TuiModel::say);
    reveal(TuiModel::ask);
    reveal(TuiModel::suggested);
}

/// What is typed under Discuss goes with the refusal, without the white space
/// around it; where nothing is typed, only the wish to discuss goes.
pub proof fn law_feedback_is_sent(m: TuiModel, typed: Seq<char>)
    requires
        m.permission.perm_discuss_buf.len() == 0,
        m.permission.perm_discuss_cursor == 0,
        m.links.perm_tx is Some,
    ensures
        ({
            let after = m.permission_key(KeyCode::Char('4')).feedback_typed(typed).permission_key(
                KeyCode::Enter,
            );
            let said = chars::trim(typed);
            adds(
                m,
                after,
                RequestView::Permission(
                    if said.len() == 0 {
                        "discuss"@
                    } else {
                        "discuss:"@ + said
                    },
                ),
            )
        }),
{
    reveal(TuiModel::permission_key);
    reveal(TuiModel::option_selected);
    reveal(TuiModel::feedback_typed);
    let open = m.permission_key(KeyCode::Char('4'));
    let told = open.feedback_typed(typed);
    let none = m.permission.perm_discuss_buf;
    assert(edit::before(none, 0) =~= seq![]);
    assert(edit::after(none, 0) =~= seq![]);
    assert(told.permission.perm_discuss_buf =~= typed);
    lemma_decided(told);
}

/// The prompt shows the four options in the order of their digits and marks
/// the highlighted one and no other.
pub proof fn law_the_highlighted_option_is_marked(m: TuiModel, i: int)
    requires
        0 <= i < 4,
    ensures
        chrome::PERMISSION_OPTIONS@[0]@ == "1. Yes"@,
        chrome::PERMISSION_OPTIONS@[1]@ == "2. Yes, always allow"@,
        chrome::PERMISSION_OPTIONS@[2]@ == "3. No"@,
        chrome::PERMISSION_OPTIONS@[3]@ == "4. Discuss"@,
        ({
            let row = m.permission_panel()[m.permission_head().len() + i];
            let option = chrome::PERMISSION_OPTIONS@[i]@;
            row == seq![
                if i == m.permission.perm_selection {
                    lines::sp("❯ "@ + option, lines::Tone::AccentBold)
                } else {
                    lines::sp("  "@ + option, lines::Tone::Muted)
                },
            ]
        }),
{
}

/// A saved API key is removed only where Remove is highlighted and confirmed;
/// the question opens on Cancel, and leaving it removes nothing.
pub proof fn law_removal_is_confirmed(m: TuiModel, name: Seq<char>, code: KeyCode)
    ensures
        ({
            let after = m.confirm_remove_key(name, code);
            let confirms = code == KeyCode::Enter && m.prompts.confirm_remove_sel == 1;
            &&& confirms ==> adds(m, after, RequestView::RemoveApiKey(name))
            &&& !confirms ==> after.outbox == m.outbox
            &&& (code == KeyCode::Enter || code == KeyCode::Esc)
                ==> after.prompts.confirm_remove_provider is None
            &&& code == KeyCode::Right ==> after.prompts.confirm_remove_sel == 1
            &&& code == KeyCode::Left ==> after.prompts.confirm_remove_sel == 0
        }),
        m.host.known(name).config_has_api_key ==> m.removal_asked(
            name,
        ).prompts.confirm_remove_provider == Some(name) && m.removal_asked(
            name,
        ).prompts.confirm_remove_sel == 0,
        m.removal_asked(name).outbox == m.outbox,
        chrome::REMOVE_OPTIONS@[0]@ == "Cancel"@,
        chrome::REMOVE_OPTIONS@[1]@ == "Remove"@,
{
    reveal(TuiModel::confirm_remove_key);
    reveal(TuiModel::removal_choice);
    reveal(TuiModel::removal_closed);
    reveal(TuiModel::removal_asked);
    reveal(TuiModel::ask);
    reveal(TuiModel::say);
}

/// Delete in the provider list asks about the key of the highlighted provider.
pub proof fn law_delete_asks_about_the_highlighted_key(m: TuiModel)
    requires
        m.pickers.show_provider_picker,
        m.pickers.provider_picker_sel < m.pickers.provider_picker_list.len(),
    ensures
        ({
            let name = m.pickers.provider_picker_list[m.pickers.provider_picker_sel as int];
            let after = m.delete_pressed();
            &&& m.host.known(name).config_has_api_key
                ==> after.prompts.confirm_remove_provider == Some(name)
            &&& !m.host.known(name).config_has_api_key ==> after.prompts == m.prompts
            &&& after.outbox == m.outbox
            &&& after.composer == m.composer
        }),
{
    reveal(TuiModel::delete_pressed);
    reveal(TuiModel::removal_asked);
    reveal(TuiModel::say);
}

/// A conversation is handed over only where Continue is highlighted and
/// confirmed: then the change to that provider begins, as if nothing had been
/// asked. Any other key hands nothing over.
pub proof fn law_handover_goes_on_when_confirmed(m: TuiModel, name: Seq<char>, code: KeyCode)
    ensures
        ({
            let after = m.confirm_history_key(name, code);
            let closed = TuiModel {
                prompts: PromptsView { confirm_history_provider: None, ..m.prompts },
                ..m
            };
            let confirms = code == KeyCode::Enter && m.prompts.confirm_history_sel == 1;
            &&& confirms ==> after == closed.provider_chosen(name)
            &&& !confirms ==> after.outbox == m.outbox && after.account == m.account
                && after.pickers == m.pickers
            &&& !confirms && (code == KeyCode::Enter || code == KeyCode::Esc) ==> after == closed
            &&& code == KeyCode::Right ==> after.prompts.confirm_history_sel == 1
            &&& code == KeyCode::Left ==> after.prompts.confirm_history_sel == 0
        }),
        chrome::HANDOVER_OPTIONS@[0]@ == "Cancel"@,
        chrome::HANDOVER_OPTIONS@[1]@ == "Continue"@,
{
    reveal(TuiModel::confirm_history_key);
    reveal(TuiModel::handover_choice);
    reveal(TuiModel::handover_closed);
}

/// After a failure of the language model, the model list opens by its letter or
/// by Enter on the first choice, the provider list by its letter or by Enter on
/// the second; the third choice, its letter and Esc only close the prompt.
/// Nothing is sent or switched by any of them.
pub proof fn law_recovery_choices(m: TuiModel, code: KeyCode)
    requires
        m.prompts.show_recovery_prompt,
        m.prompts.recovery_selection <= 2,
        !m.pickers.show_model_picker,
        !m.pickers.show_provider_picker,
    ensures
        ({
            let after = m.recovery_key(code);
            let enter = code == KeyCode::Enter;
            let sel = m.prompts.recovery_selection;
            let to_model = code == KeyCode::Char('m') || code == KeyCode::Char('M') || (enter && sel
                == 0);
            let to_provider = code == KeyCode::Char('p') || code == KeyCode::Char('P') || (enter
                && sel == 1);
            let dismisses = code == KeyCode::Char('d') || code == KeyCode::Char('D') || code
                == KeyCode::Esc || (enter && sel == 2);
            &&& after.outbox == m.outbox
            &&& after.chat == m.chat
            &&& after.account == m.account
            &&& to_model <==> after.pickers.show_model_picker
            &&& to_provider <==> after.pickers.show_provider_picker
            &&& (to_model || to_provider || dismisses) <==> !after.prompts.show_recovery_prompt
            &&& code == KeyCode::Right ==> after.prompts.recovery_selection == (if sel < 2 {
                sel + 1
            } else {
                2
            })
            &&& code == KeyCode::Left ==> after.prompts.recovery_selection == (if sel > 0 {
                sel - 1
            } else {
                0
            })
        }),
        chrome::RECOVERY_OPTIONS@[0]@ == "Switch model (m)"@,
        chrome::RECOVERY_OPTIONS@[1]@ == "Switch provider (p)"@,
        chrome::RECOVERY_OPTIONS@[2]@ == "Dismiss (d)"@,
{
    reveal(TuiModel::recovery_key);
    reveal(TuiModel::recovery_moved);
    reveal(TuiModel::suggested);
}

/// Recovery is offered after a failure of the language model and after no
/// other, and opens on its first choice. Only the form of the failure that may
/// be shown reaches the transcript.
pub proof fn law_failures_are_shown_redacted(
    m: TuiModel,
    message: Seq<char>,
    other: Seq<char>,
    redacted: Seq<char>,
)
    requires
        chars::begins(message, "LLM error:"@) == chars::begins(other, "LLM error:"@),
    ensures
        ({
            let after = m.event_applied(EventView::Error { message, redacted });
            let of_model = chars::begins(message, "LLM error:"@);
            &&& after == m.event_applied(EventView::Error { message: other, redacted })
            &&& after.chat.output_lines.last() == crate::transcript::plain("error"@, redacted)
            &&& of_model ==> after.prompts.show_recovery_prompt
                && after.prompts.recovery_selection == 0 && adds(
                m,
                after,
                RequestView::Notify(crate::request::Sound::Attention),
            )
            &&& !of_model ==> after.prompts == m.prompts && after.outbox == m.outbox
            &&& after.chat.state == m.chat.state
        }),
{
    reveal(TuiModel::failed);
    reveal(TuiModel::flushed);
    reveal(TuiModel::say);
    reveal(TuiModel::ask);
    reveal(TuiModel::suggested);
}

/// Whether the feedback holds `a` before its cursor and `b` after it.
pub open spec fn feedback_holds(m: TuiModel, a: Seq<char>, b: Seq<char>) -> bool {
    &&& m.permission.perm_discuss_buf == a + b
    &&& m.permission.perm_discuss_cursor == chars::byte_len(a)
}

/// While feedback is written, characters stand at its cursor, which the arrows
/// move by one character, and Backspace and Delete drop the one before it and
/// the one behind it. Nothing is decided by any of them.
pub proof fn law_feedback_is_edited(m: TuiModel, a: Seq<char>, c: char, b: Seq<char>)
    requires
        m.permission.show_permission_prompt,
        m.permission.perm_selection == 3,
        !chars::is_ctl(c),
        !('1' <= c <= '4'),
        chars::byte_len(a + seq![c] + b) <= usize::MAX,
    ensures
        feedback_holds(m, a, b) ==> feedback_holds(
            m.permission_key(KeyCode::Char(c)),
            a.push(c),
            b,
        ) && m.permission_key(KeyCode::Char(c)).outbox == m.outbox,
        feedback_holds(m, a.push(c), b) ==> feedback_holds(
            m.permission_key(KeyCode::Backspace),
            a,
            b,
        ) && m.permission_key(KeyCode::Backspace).outbox == m.outbox,
        feedback_holds(m, a, seq![c] + b) ==> feedback_holds(
            m.permission_key(KeyCode::Delete),
            a,
            b,
        ) && m.permission_key(KeyCode::Delete).outbox == m.outbox,
        feedback_holds(m, a.push(c), b) ==> feedback_holds(
            m.permission_key(KeyCode::Left),
            a,
            seq![c] + b,
        ) && m.permission_key(KeyCode::Left).outbox == m.outbox,
        feedback_holds(m, a, seq![c] + b) ==> feedback_holds(
            m.permission_key(KeyCode::Right),
            a.push(c),
            b,
        ) && m.permission_key(KeyCode::Right).outbox == m.outbox,
{
    reveal(TuiModel::permission_key);
    reveal(TuiModel::feedback_typed);
    reveal(TuiModel::feedback_backspaced);
    reveal(TuiModel::feedback_deleted);
    reveal(TuiModel::feedback_cursor_at);
    let all = a + seq![c] + b;
    composer_laws::lemma_split(a, b);
    composer_laws::lemma_split(a.push(c), b);
    composer_laws::lemma_split(a, seq![c] + b);
    composer_laws::lemma_one_wide(c);
    assert(a.push(c) =~= a + seq![c]);
    assert(a.push(c) + b =~= all);
    assert(a + (seq![c] + b) =~= all);
    assert(a.push(c).drop_last() =~= a);
    assert((seq![c] + b).drop_first() =~= b);
    assert((seq![c] + b)[0] == c);
    chars::lemma_byte_len_concat(a, seq![c]);
    chars::lemma_byte_len_concat(a + seq![c], b);
    chars::lemma_byte_len_concat(seq![c], b);
    assert(chars::utf8_width(c) > 0);
}

/// Help closes by Esc, Enter or a question mark, the shortcuts by Esc or a
/// question mark; while one is open no key sends, decides or types anything.
pub proof fn law_overlays_only_close_and_scroll(m: TuiModel, key: KeyEvent)
    requires
        m.prompts.show_help || m.prompts.show_shortcuts,
        key.press,
        !key.control,
        !key.pastes_image(m.host.platform),
    ensures
        ({
            let after = m.keyed(key).0;
            let closes = key.code == KeyCode::Esc || key.code == KeyCode::Char('?');
            &&& m.keyed(key).1
            &&& after.outbox == m.outbox
            &&& after.chat == m.chat
            &&& after.composer == m.composer
            &&& after.account == m.account
            &&& after.permission == m.permission
            &&& m.prompts.show_help ==> (after.prompts.show_help <==> !(closes || key.code
                == KeyCode::Enter))
            &&& !m.prompts.show_help ==> (after.prompts.show_shortcuts <==> !closes)
        }),
{
    reveal(TuiModel::key_taken);
    reveal(TuiModel::help_key);
    reveal(TuiModel::shortcuts_key);
    reveal(TuiModel::help_closed);
    reveal(TuiModel::shortcuts_closed);
    reveal(TuiModel::scrolled_by);
}

} // verus!
