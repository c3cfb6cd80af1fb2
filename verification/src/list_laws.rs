//! What picking from a list comes to: models, providers, themes, API keys.

use crate::chars;
use crate::host;
use crate::llm;
use crate::pickers;
use crate::prompt_laws::adds;
use crate::request::RequestView;
use crate::sorting;
use crate::state::{AccountView, ComposerView, LooksView, PickersView, State, TuiModel};
use crate::theme;
use crate::transcript;
use vstd::prelude::*;

verus! {

/// Whether no list is open and no API key is asked for.
pub open spec fn no_list(m: TuiModel) -> bool {
    !m.pickers.show_provider_picker && !m.pickers.show_model_picker
        && !m.saved.show_session_picker && !m.looks.show_theme_picker
        && !m.account.awaiting_api_key
}

/// Enter in the model list closes it and asks for the selected model to be
/// saved, with the provider whose list it is. What is in use stays in use until
/// that is done.
pub proof fn law_enter_takes_the_selected_model(m: TuiModel)
    requires
        m.pickers.show_model_picker,
        !m.pickers.show_provider_picker,
    ensures
        ({
            let (after, goes_on) = m.entered();
            let sel = m.pickers.picker_sel as int;
            &&& goes_on
            &&& !after.pickers.show_model_picker
            &&& after.account.provider == m.account.provider
            &&& after.account.model == m.account.model
            &&& after.account.pending_provider_selection is None
            &&& after.chat == m.chat
            &&& sel < m.pickers.picker_models.len() && m.account.pending_provider_selection is None
                ==> adds(
                m,
                after,
                RequestView::SaveProviderModel {
                    provider: m.account.provider,
                    model: m.pickers.picker_models[sel].id,
                },
            )
            &&& sel < m.pickers.picker_models.len() && m.account.pending_provider_selection is Some
                ==> adds(
                m,
                after,
                RequestView::SaveProviderModel {
                    provider: m.account.pending_provider_selection->0,
                    model: m.pickers.picker_models[sel].id,
                },
            )
            &&& sel >= m.pickers.picker_models.len() ==> after.outbox == m.outbox
        }),
{
    reveal(TuiModel::entered);
    reveal(TuiModel::enter_taken);
    reveal(TuiModel::completions_closed);
    reveal(TuiModel::model_entered);
    reveal(TuiModel::model_picker_closed);
    reveal(TuiModel::nothing_pending);
    reveal(TuiModel::ask);
}

/// A provider and a model that were saved are those in use, and the agent is
/// told of both.
pub proof fn law_a_saved_selection_is_used(m: TuiModel, provider: Seq<char>, model: Seq<char>)
    ensures
        ({
            let after = m.selection_applied(provider, model, None);
            &&& after.account == AccountView { provider, model, ..m.account }
            &&& m.links.agent_tx is Some ==> adds(
                m,
                after,
                RequestView::Agent("__switch__:"@ + provider + ":"@ + model),
            )
            &&& m.links.agent_tx is None ==> after.outbox == m.outbox
            &&& after.chat.output_lines.len() == m.chat.output_lines.len() + 1
            &&& after.chat.output_lines.last().type_ == "system"@
            &&& after.chat.output_lines.last().content == "Provider set to: "@ + provider
                + "\nModel set to: "@ + model
        }),
{
    reveal(TuiModel::say);
    reveal(TuiModel::to_agent);
    reveal(TuiModel::ask);
}

/// Display preferences that were saved are those in use.
pub proof fn law_saved_preferences_are_used(m: TuiModel, next: bool, selected: theme::ThemeView)
    ensures
        m.thinking_applied(next, None).looks == (LooksView { show_thinking: next, ..m.looks }),
        m.suggestions_applied(next, None).looks == (LooksView {
            show_suggestions: next,
            ..m.looks
        }),
        m.theme_applied(selected, m.looks.theme, None).looks == (LooksView {
            theme: selected,
            ..m.looks
        }),
        m.thinking_applied(next, None).outbox == m.outbox,
        m.suggestions_applied(next, None).outbox == m.outbox,
        !next ==> m.suggestions_applied(next, None).composer.idle_suggestion is None,
{
    reveal(TuiModel::say);
    reveal(TuiModel::suggested);
}

proof fn lemma_moved_members(list: Seq<Seq<char>>, first: Seq<char>)
    ensures
        pickers::equal_to(list, first).len() + pickers::other_than(list, first).len() == list.len(),
        forall|i: int|
            0 <= i < pickers::equal_to(list, first).len() ==> #[trigger] pickers::equal_to(
                list,
                first,
            )[i] == first,
        forall|x: Seq<char>|
            x != first ==> (#[trigger] pickers::other_than(list, first).contains(x)
                <==> list.contains(x)),
        list.contains(first) <==> pickers::equal_to(list, first).len() > 0,
        !pickers::other_than(list, first).contains(first),
    decreases list.len(),
{
    if list.len() > 0 {
        let init = list.drop_last();
        let e = pickers::equal_to(list, first);
        let o = pickers::other_than(list, first);
        let o0 = pickers::other_than(init, first);
        lemma_moved_members(init, first);
        assert forall|x: Seq<char>| x != first implies (#[trigger] o.contains(x)
            <==> list.contains(x)) by {
            if o.contains(x) {
                let i = choose|i: int| 0 <= i < o.len() && o[i] == x;
                if i < o0.len() {
                    assert(o0[i] == x);
                    assert(o0.contains(x));
                    let j = choose|j: int| 0 <= j < init.len() && init[j] == x;
                    assert(list[j] == x);
                } else {
                    assert(list[list.len() - 1] == x);
                }
            }
            if list.contains(x) {
                let j = choose|j: int| 0 <= j < list.len() && list[j] == x;
                if j < init.len() {
                    assert(init[j] == x);
                    assert(o0.contains(x));
                    let i = choose|i: int| 0 <= i < o0.len() && o0[i] == x;
                    assert(o[i] == x);
                } else {
                    assert(o[o.len() - 1] == x);
                }
            }
        }
        if list.contains(first) {
            let j = choose|j: int| 0 <= j < list.len() && list[j] == first;
            if j < init.len() {
                assert(init[j] == first);
                assert(init.contains(first));
            }
        }
        if e.len() > 0 {
            if list.last() == first {
                assert(list[list.len() - 1] == first);
            } else {
                let j = choose|j: int| 0 <= j < init.len() && init[j] == first;
                assert(list[j] == first);
            }
        }
        if o.contains(first) {
            let i = choose|i: int| 0 <= i < o.len() && o[i] == first;
            assert(i < o0.len());
            assert(o0[i] == first);
        }
    }
}

proof fn lemma_sorted_members(v: Seq<Seq<char>>)
    ensures
        sorting::texts_sorted(v).len() == v.len(),
        forall|x: Seq<char>| #[trigger] sorting::texts_sorted(v).contains(x) <==> v.contains(x),
{
    let s = sorting::texts_sorted(v);
    sorting::lemma_text_order();
    v.lemma_sort_by_ensures(sorting::text_order());
    v.to_multiset_ensures();
    s.to_multiset_ensures();
    assert forall|x: Seq<char>| #[trigger] s.contains(x) <==> v.contains(x) by {
        assert(s.contains(x) <==> s.to_multiset().contains(x));
        assert(v.contains(x) <==> v.to_multiset().contains(x));
    }
}

/// The provider list holds every provider and no other name, the one in use
/// first and selected, each with whether it can be used as it is.
pub proof fn law_the_provider_list_is_complete(m: TuiModel)
    ensures
        ({
            let after = m.provider_picker_opened();
            let list = after.pickers.provider_picker_list;
            let all = host::names(m.host.providers);
            &&& after.pickers.show_provider_picker
            &&& after.pickers.provider_picker_sel == 0
            &&& list.len() == all.len()
            &&& forall|x: Seq<char>| #[trigger] list.contains(x) <==> all.contains(x)
            &&& all.contains(m.account.provider) ==> list[0] == m.account.provider
            &&& after.pickers.provider_picker_keys.len() == list.len()
            &&& forall|i: int|
                0 <= i < list.len() ==> #[trigger] after.pickers.provider_picker_keys[i]
                    == m.host.known(list[i]).usable_credential
            &&& after.outbox == m.outbox
            &&& after.account == m.account
        }),
{
    let all = host::names(m.host.providers);
    let named = m.host.provider_names();
    let first = m.account.provider;
    let e = pickers::equal_to(named, first);
    let o = pickers::other_than(named, first);
    let list = m.provider_picker_opened().pickers.provider_picker_list;
    lemma_sorted_members(all);
    lemma_moved_members(named, first);
    assert forall|x: Seq<char>| #[trigger] list.contains(x) <==> all.contains(x) by {
        assert(named.contains(x) <==> all.contains(x));
        if list.contains(x) && x != first {
            let i = choose|i: int| 0 <= i < list.len() && list[i] == x;
            assert(i >= e.len());
            assert(o[i - e.len()] == x);
            assert(o.contains(x));
        }
        if list.contains(first) && x == first {
            let i = choose|i: int| 0 <= i < list.len() && list[i] == first;
            if i >= e.len() {
                assert(o[i - e.len()] == first);
                assert(o.contains(first));
            }
        }
        if named.contains(x) {
            if x == first {
                assert(list[0] == first);
            } else {
                assert(o.contains(x));
                let i = choose|i: int| 0 <= i < o.len() && o[i] == x;
                assert(list[e.len() + i] == x);
            }
        }
    }
    assert(named.contains(first) <==> all.contains(first));
}

proof fn lemma_place(list: Seq<host::ProviderView>, i: int, name: Seq<char>)
    requires
        0 <= i,
    ensures
        ({
            let p = host::place_from(list, i, name);
            &&& p >= 0 ==> i <= p < list.len() && list[p].name == name
            &&& p < 0 ==> forall|j: int| i <= j < list.len() ==> (#[trigger] list[j]).name != name
        }),
    decreases list.len() - i,
{
    if i < list.len() && list[i].name != name {
        lemma_place(list, i + 1, name);
    }
}

proof fn lemma_first_model(ms: Seq<llm::ModelView>, id: Seq<char>)
    ensures
        0 <= llm::first_model(ms, id) <= ms.len(),
        llm::first_model(ms, id) < ms.len() ==> ms[llm::first_model(ms, id)].id == id,
        llm::first_model(ms, id) == ms.len() ==> forall|j: int|
            0 <= j < ms.len() ==> (#[trigger] ms[j]).id != id,
    decreases ms.len(),
{
    if ms.len() > 0 && ms[0].id != id {
        let rest = ms.drop_first();
        lemma_first_model(rest, id);
        let k = llm::first_model(rest, id);
        if k < rest.len() {
            assert(rest[k] == ms[k + 1]);
        } else {
            assert forall|j: int| 0 <= j < ms.len() implies (#[trigger] ms[j]).id != id by {
                if j > 0 {
                    assert(rest[j - 1] == ms[j]);
                }
            }
        }
    }
}

/// The model list holds the models of the provider that is being changed to,
/// else of the one in use. It opens on the model in use, which shows.
pub proof fn law_the_model_list_is_the_providers(m: TuiModel, k: int)
    requires
        0 <= k < m.host.providers.len(),
        m.account.pending_provider_selection is None ==> m.host.providers[k].name
            == m.account.provider,
        m.account.pending_provider_selection is Some ==> m.host.providers[k].name
            == m.account.pending_provider_selection->0,
        forall|j: int|
            0 <= j < k ==> (#[trigger] m.host.providers[j]).name != m.host.providers[k].name,
        m.host.providers[k].models.len() <= usize::MAX,
    ensures
        ({
            let after = m.model_picker_opened();
            let models = m.host.providers[k].models;
            let sel = after.pickers.picker_sel as int;
            let top = after.pickers.picker_scrl as int;
            &&& after.pickers.show_model_picker
            &&& after.pickers.picker_models == models
            &&& models.len() > 0 ==> 0 <= sel < models.len()
            &&& models.len() > 0 ==> top <= sel < top + after.visible_models()
            &&& m.account.pending_provider_selection is None && (exists|j: int|
                0 <= j < models.len() && (#[trigger] models[j]).id == m.account.model)
                ==> models[sel].id == m.account.model
            &&& m.account.pending_provider_selection is Some && m.host.providers[k].name
                != "openrouter"@ && (exists|j: int|
                0 <= j < models.len() && (#[trigger] models[j]).id
                    == m.host.providers[k].default_model) ==> models[sel].id
                == m.host.providers[k].default_model
            &&& after.account == m.account
            &&& after.outbox == m.outbox
        }),
{
    let target = m.target_provider();
    let p = m.host.provider_place(target);
    lemma_place(m.host.providers, 0, target);
    assert(m.host.providers[k].name == target);
    assert(p >= 0);
    assert(p == k) by {
        if p < k {
            assert(m.host.providers[p].name == target);
        } else if p > k {
            lemma_place_is_first(m.host.providers, 0, target, k);
        }
    }
    let models = m.host.providers[k].models;
    lemma_first_model(models, m.account.model);
    lemma_first_model(models, m.host.providers[k].default_model);
    lemma_first_model(models, "gpt-5-mini"@);
}

proof fn lemma_place_is_first(list: Seq<host::ProviderView>, i: int, name: Seq<char>, k: int)
    requires
        0 <= i <= k < list.len(),
        list[k].name == name,
    ensures
        0 <= host::place_from(list, i, name) <= k,
    decreases k - i,
{
    if list[i].name != name {
        lemma_place_is_first(list, i + 1, name, k);
    }
}

/// Enter in the provider list, with nothing to hand over, begins the change: to
/// the models where no credential is missing, to a browser login where the
/// provider has one, else to its API key. The provider in use stays in use.
pub proof fn law_enter_begins_with_the_selected_provider(m: TuiModel)
    requires
        m.pickers.show_provider_picker,
        m.pickers.provider_picker_sel < m.pickers.provider_picker_list.len(),
    ensures
        ({
            let name = m.pickers.provider_picker_list[m.pickers.provider_picker_sel as int];
            let after = m.entered().0;
            let known = m.host.known(name);
            let pending = if name == m.account.provider {
                None
            } else {
                Some(name)
            };
            &&& !after.pickers.show_provider_picker
            &&& after.account.provider == m.account.provider
            &&& after.account.model == m.account.model
            &&& m.would_hand_over(name) ==> after.prompts.confirm_history_provider == Some(name)
                && after.prompts.confirm_history_sel == 0 && after.outbox == m.outbox
                && after.account == m.account
            &&& !m.would_hand_over(name) && m.host.offers(name) && !known.needs_credential ==> {
                &&& after.pickers.show_model_picker
                &&& after.account.pending_provider_selection == pending
                &&& after.outbox == m.outbox
            }
            &&& !m.would_hand_over(name) && m.host.offers(name) && known.needs_credential
                && !known.supports_oauth ==> {
                &&& after.account.awaiting_api_key
                &&& after.account.api_key_target == Some(name)
                &&& after.account.pending_provider_selection == pending
                &&& after.composer.input_buf.len() == 0
                &&& after.outbox == m.outbox
            }
            &&& !m.would_hand_over(name) && m.host.offers(name) && known.needs_credential
                && known.supports_oauth && m.chat.state == State::Idle && m.links.agent_tx is Some
                ==> {
                &&& after.outbox.last() == RequestView::Agent("__auth_login__:"@ + name)
                &&& after.chat.state == State::Running
                &&& after.account.pending_model_after_auth
                &&& after.account.pending_provider_selection == pending
            }
        }),
{
    reveal(TuiModel::entered);
    reveal(TuiModel::enter_taken);
    reveal(TuiModel::completions_closed);
    reveal(TuiModel::provider_entered);
    reveal(TuiModel::provider_picker_closed);
    reveal(TuiModel::say);
    reveal(TuiModel::ask);
    reveal(TuiModel::to_agent);
    reveal(TuiModel::set_cancel);
    reveal(TuiModel::running);
}

/// Enter in the theme list asks for the selected theme to be saved, and gives
/// the theme from before the list for the case that it cannot be.
pub proof fn law_enter_takes_the_selected_theme(m: TuiModel)
    requires
        m.looks.show_theme_picker,
        !m.pickers.show_provider_picker,
        !m.pickers.show_model_picker,
        !m.saved.show_session_picker,
    ensures
        ({
            let (after, goes_on) = m.entered();
            let sel = m.looks.theme_picker_sel as int;
            &&& goes_on
            &&& !after.looks.show_theme_picker
            &&& after.chat == m.chat
            &&& sel < m.looks.theme_picker_list.len() ==> {
                &&& after.outbox.len() == m.outbox.len() + 1
                &&& after.outbox.drop_last() == m.outbox
                &&& after.outbox.last() matches RequestView::SaveTheme { selected, previous }
                    && selected == m.looks.theme_picker_list[sel] && (
                m.looks.theme_before_picker is None ==> previous == m.looks.theme)
            }
            &&& sel >= m.looks.theme_picker_list.len() ==> after.outbox == m.outbox
        }),
{
    reveal(TuiModel::entered);
    reveal(TuiModel::enter_taken);
    reveal(TuiModel::completions_closed);
    reveal(TuiModel::theme_entered);
    reveal(TuiModel::theme_picker_closed);
    reveal(TuiModel::ask);
    assert(m.entered().0.outbox.len() > 0 ==> m.outbox.push(m.entered().0.outbox.last()).drop_last()
        =~= m.outbox);
}

/// An API key that is entered goes to the provider it was asked for, without the
/// white space round it, and stands nowhere else: not in the composer, not in
/// the history, not in the transcript. White space alone is no key.
pub proof fn law_enter_saves_the_typed_key(m: TuiModel)
    requires
        m.account.awaiting_api_key,
        !m.pickers.show_provider_picker,
        !m.pickers.show_model_picker,
        !m.saved.show_session_picker,
        !m.looks.show_theme_picker,
    ensures
        ({
            let (after, goes_on) = m.entered();
            let typed = m.composer.input_buf;
            let target = match m.account.api_key_target {
                Some(t) => t,
                None => m.account.provider,
            };
            &&& goes_on
            &&& after.composer.input_buf.len() == 0
            &&& after.composer.history == m.composer.history
            &&& after.chat == m.chat
            &&& !chars::blank(typed) ==> !after.account.awaiting_api_key && adds(
                m,
                after,
                RequestView::SaveApiKey { target, key: chars::trim(typed) },
            )
            &&& chars::blank(typed) ==> after.account.awaiting_api_key && after.outbox == m.outbox
        }),
{
    reveal(TuiModel::entered);
    reveal(TuiModel::enter_taken);
    reveal(TuiModel::completions_closed);
    reveal(TuiModel::api_key_entered);
    reveal(TuiModel::key_entry_over);
    reveal(TuiModel::ask);
    chars::lemma_trim_blank(m.composer.input_buf);
}

/// With no list open and nothing running, Enter on a line that starts with a
/// slash runs that line as a command, on an empty composer.
pub proof fn law_enter_runs_the_command(m: TuiModel)
    requires
        no_list(m),
        m.chat.state == State::Idle,
        m.composer.pending_images.len() == 0,
        !m.composer.show_command_picker,
        m.composer.cmd_picker_filtered.len() == 0,
        chars::trim(m.composer.input_buf).len() > 0,
        chars::trim(m.composer.input_buf)[0] == '/',
    ensures
        m.entered() == (TuiModel {
            composer: ComposerView { input_buf: seq![], cursor: 0, ..m.composer },
            ..m
        }).commanded(chars::trim(m.composer.input_buf)),
{
    reveal(TuiModel::entered);
    reveal(TuiModel::enter_taken);
    reveal(TuiModel::submitted);
    assert(chars::byte_len(Seq::<char>::empty()) == 0);
}

/// Up and Down move the selection of the open list by one, and stop at its ends;
/// nothing else changes but, for themes, the one previewed, and, for models,
/// what part of the list shows.
pub proof fn law_arrows_move_by_one(m: TuiModel)
    requires
        m.pickers.picker_models.len() <= usize::MAX,
        m.pickers.provider_picker_list.len() <= usize::MAX,
        m.saved.picker_sessions.len() <= usize::MAX,
        m.looks.theme_picker_list.len() <= usize::MAX,
        m.composer.cmd_picker_filtered.len() <= usize::MAX,
    ensures
        ({
            let (up, down) = (m.up(), m.down());
            let sessions = m.saved.show_session_picker;
            let themes = !sessions && m.looks.show_theme_picker;
            let words = !sessions && !themes && m.composer.cmd_picker_filtered.len() > 0;
            let providers = !sessions && !themes && !words && m.pickers.show_provider_picker;
            let models = !sessions && !themes && !words && !providers
                && m.pickers.show_model_picker;
            &&& sessions ==> stepped(
                m.saved.picker_session_sel as int,
                m.saved.picker_sessions.len() as int,
                up.saved.picker_session_sel as int,
                down.saved.picker_session_sel as int,
            )
            &&& themes ==> stepped(
                m.looks.theme_picker_sel as int,
                m.looks.theme_picker_list.len() as int,
                up.looks.theme_picker_sel as int,
                down.looks.theme_picker_sel as int,
            )
            &&& words ==> stepped(
                m.composer.cmd_picker_sel as int,
                m.composer.cmd_picker_filtered.len() as int,
                up.composer.cmd_picker_sel as int,
                down.composer.cmd_picker_sel as int,
            )
            &&& providers ==> stepped(
                m.pickers.provider_picker_sel as int,
                m.pickers.provider_picker_list.len() as int,
                up.pickers.provider_picker_sel as int,
                down.pickers.provider_picker_sel as int,
            )
            &&& models ==> stepped(
                m.pickers.picker_sel as int,
                m.pickers.picker_models.len() as int,
                up.pickers.picker_sel as int,
                down.pickers.picker_sel as int,
            )
            &&& themes && m.looks.theme_picker_sel > 0 ==> up.looks.theme
                == m.looks.theme_picker_list[m.looks.theme_picker_sel - 1]
            &&& themes && m.looks.theme_picker_sel + 1 < m.looks.theme_picker_list.len()
                ==> down.looks.theme == m.looks.theme_picker_list[m.looks.theme_picker_sel + 1]
            &&& !themes ==> up.looks == m.looks && down.looks == m.looks
            &&& up.outbox == m.outbox && down.outbox == m.outbox
            &&& up.chat == m.chat && down.chat == m.chat
            &&& up.account == m.account && down.account == m.account
        }),
{
    reveal(TuiModel::up);
    reveal(TuiModel::down);
    reveal(TuiModel::session_selected);
    reveal(TuiModel::theme_selected);
    reveal(TuiModel::completion_selected);
    reveal(TuiModel::provider_selected);
    reveal(TuiModel::model_selected);
    reveal(TuiModel::history_back);
    reveal(TuiModel::history_forward);
    reveal(TuiModel::scrolled_by);
}

/// Whether a selection at `sel` in a list of `len` moves to `up` and `down`.
pub open spec fn stepped(sel: int, len: int, up: int, down: int) -> bool {
    &&& up == (if sel > 0 {
        sel - 1
    } else {
        sel
    })
    &&& down == (if sel + 1 < len {
        sel + 1
    } else {
        sel
    })
}

/// Moving through the model list keeps the selected model in sight.
pub proof fn law_the_selected_model_stays_in_sight(m: TuiModel)
    requires
        m.pickers.show_model_picker,
        !m.pickers.show_provider_picker,
        !m.saved.show_session_picker,
        !m.looks.show_theme_picker,
        m.composer.cmd_picker_filtered.len() == 0,
        m.pickers.picker_models.len() <= usize::MAX,
        m.pickers.picker_sel < m.pickers.picker_models.len(),
        m.pickers.picker_scrl <= m.pickers.picker_sel,
        m.pickers.picker_sel < m.pickers.picker_scrl + m.visible_models(),
    ensures
        ({
            let (up, down) = (m.up().pickers, m.down().pickers);
            &&& up.picker_scrl <= up.picker_sel < up.picker_scrl + m.visible_models()
            &&& down.picker_scrl <= down.picker_sel < down.picker_scrl + m.visible_models()
        }),
{
    reveal(TuiModel::up);
    reveal(TuiModel::down);
    reveal(TuiModel::model_selected);
}

/// Esc closes just the list that is open, asks for nothing, and leaves the
/// provider and the model in use.
pub proof fn law_esc_leaves_the_list(m: TuiModel)
    requires
        !m.account.awaiting_api_key,
        !m.prompts.show_help,
        !m.prompts.show_shortcuts,
        !m.composer.show_command_picker,
        m.composer.cmd_picker_filtered.len() == 0,
        m.pickers.show_provider_picker || m.pickers.show_model_picker,
    ensures
        ({
            let after = m.escaped();
            &&& after.outbox == m.outbox
            &&& after.chat == m.chat
            &&& after.account.provider == m.account.provider
            &&& after.account.model == m.account.model
            &&& m.pickers.show_provider_picker ==> after.pickers == PickersView {
                show_provider_picker: false,
                ..m.pickers
            } && after.account == m.account
            &&& !m.pickers.show_provider_picker ==> after.pickers == PickersView {
                show_model_picker: false,
                ..m.pickers
            } && after.account.pending_provider_selection is None
        }),
{
    reveal(TuiModel::escaped);
    reveal(TuiModel::provider_picker_closed);
    reveal(TuiModel::model_picker_closed);
}

/// Esc gives up the entry of an API key: what was typed is gone, nothing is
/// sent, and no change of provider is left pending. So does Ctrl+C.
pub proof fn law_esc_gives_up_the_key(m: TuiModel)
    requires
        m.account.awaiting_api_key,
    ensures
        ({
            let after = m.escaped();
            &&& !after.account.awaiting_api_key
            &&& after.account.api_key_target is None
            &&& after.account.pending_provider_selection is None
            &&& !after.account.pending_model_after_auth
            &&& after.composer.input_buf.len() == 0
            &&& after.composer.history == m.composer.history
            &&& after.outbox == m.outbox
            &&& m.dismissed() == Some(after)
        }),
{
    reveal(TuiModel::escaped);
    reveal(TuiModel::dismissed);
    reveal(TuiModel::key_entry_cancelled);
    reveal(TuiModel::say);
}

/// Esc stops the running turn: the flag is set where there is one, the turn
/// stays until the agent is done, and what was streamed is kept.
pub proof fn law_esc_stops_the_turn(m: TuiModel)
    requires
        no_list(m),
        !m.prompts.show_help,
        !m.prompts.show_shortcuts,
        !m.composer.show_command_picker,
        m.composer.cmd_picker_filtered.len() == 0,
    ensures
        ({
            let after = m.escaped();
            &&& m.chat.state == State::Idle ==> after == m
            &&& m.chat.state == State::Running ==> {
                &&& after.chat.state == State::Running
                &&& m.links.cancel_flag is Some ==> adds(m, after, RequestView::SetCancel(true))
                &&& m.links.cancel_flag is None ==> after.outbox == m.outbox
                &&& after.chat.output_lines.last().type_ == "system"@
                &&& after.chat.output_lines.last().content == "Cancelled."@
                &&& m.chat.streaming_text.len() > 0 ==> after.chat.output_lines.len() >= 2
                    && after.chat.output_lines[after.chat.output_lines.len() - 2].content
                    == m.chat.streaming_text
            }
        }),
{
    reveal(TuiModel::escaped);
    reveal(TuiModel::turn_cancelled);
    reveal(TuiModel::set_cancel);
    reveal(TuiModel::flushed);
    reveal(TuiModel::say);
    reveal(TuiModel::ask);
}

/// Whoever opens a theme list finds the theme in use selected, and leaving the
/// list brings it back.
pub proof fn law_the_theme_list_opens_on_the_theme(m: TuiModel)
    ensures
        ({
            let after = m.theme_picker_opened();
            let sel = after.looks.theme_picker_sel as int;
            &&& after.looks.show_theme_picker
            &&& after.looks.theme_picker_list == m.host.themes
            &&& after.looks.theme_before_picker == Some(m.looks.theme.name)
            &&& (exists|i: int|
                0 <= i < m.host.themes.len() <= usize::MAX && (#[trigger] m.host.themes[i]).name
                    == m.looks.theme.name) ==> sel < m.host.themes.len()
                && m.host.themes[sel].name == m.looks.theme.name
            &&& after.outbox == m.outbox
        }),
{
    lemma_theme_place(m.host.themes, m.looks.theme.name);
}

proof fn lemma_theme_place(list: Seq<theme::ThemeView>, name: Seq<char>)
    ensures
        ({
            let p = theme::place(list, name);
            &&& p >= 0 ==> p < list.len() && list[p].name == name
            &&& p < 0 ==> forall|j: int| 0 <= j < list.len() ==> (#[trigger] list[j]).name != name
        }),
    decreases list.len(),
{
    if list.len() > 0 && list[0].name != name {
        let rest = list.drop_first();
        lemma_theme_place(rest, name);
        let p = theme::place(rest, name);
        if p >= 0 {
            assert(rest[p] == list[p + 1]);
        } else {
            assert forall|j: int| 0 <= j < list.len() implies (#[trigger] list[j]).name
                != name by {
                if j > 0 {
                    assert(rest[j - 1] == list[j]);
                }
            }
        }
    }
}

/// Whether a transcript line belongs to a conversation.
pub open spec fn spoken(l: transcript::OutputView) -> bool {
    l.type_ == "user"@ || l.type_ == "text"@ || l.type_ == "tool_use"@ || l.type_
        == "tool_result"@
}

/// Picking another provider while there is a conversation, on screen or kept for
/// the session, only asks: nothing is switched, sent or opened before the answer.
pub proof fn law_a_conversation_is_not_handed_over_unasked(m: TuiModel, name: Seq<char>, i: int)
    requires
        name != m.account.provider,
        (0 <= i < m.chat.output_lines.len() && spoken(m.chat.output_lines[i])) || (
        m.saved.live_mirror is Some && m.saved.live_mirror->0.messages.len() > 0),
    ensures
        ({
            let after = m.provider_picked(name);
            &&& after.prompts.confirm_history_provider == Some(name)
            &&& after.prompts.confirm_history_sel == 0
            &&& after.account == m.account
            &&& after.pickers == m.pickers
            &&& after.outbox == m.outbox
            &&& after.chat == m.chat
        }),
{
    if 0 <= i < m.chat.output_lines.len() && spoken(m.chat.output_lines[i]) {
        assert(pickers::conversational(m.chat.output_lines[i].type_));
    }
}

/// What the host says of a provider is its own row, and the row for those that
/// are not listed where it has none.
pub proof fn law_what_is_known_of_a_provider(h: host::HostView, name: Seq<char>, k: int)
    requires
        0 <= k < h.credentials.len(),
        h.credentials[k].provider == name,
        forall|j: int| 0 <= j < k ==> (#[trigger] h.credentials[j]).provider != name,
    ensures
        h.known(name) == h.credentials[k],
{
    lemma_row(h.credentials, 0, name, k);
}

proof fn lemma_row(list: Seq<host::CredentialsView>, i: int, name: Seq<char>, k: int)
    requires
        0 <= i <= k < list.len(),
        list[k].provider == name,
        forall|j: int| 0 <= j < k ==> (#[trigger] list[j]).provider != name,
    ensures
        host::row_from(list, i, name) == k,
    decreases k - i,
{
    if i < k {
        assert(list[i].provider != name);
        lemma_row(list, i + 1, name, k);
    }
}

/// A browser login starts only for a provider that has one, while nothing runs
/// and the agent listens; else it is only said why not.
pub proof fn law_logins_start_only_where_they_can(m: TuiModel, name: Seq<char>, then_models: bool)
    ensures
        ({
            let after = m.login_started(name, then_models);
            let can = m.host.known(name).supports_oauth && m.chat.state == State::Idle
                && m.links.agent_tx is Some;
            &&& !can ==> after.outbox == m.outbox && after.account == m.account && after.chat.state
                == m.chat.state && after.chat.output_lines.len() == m.chat.output_lines.len() + 1
            &&& can ==> after.chat.state == State::Running && after.outbox.last()
                == RequestView::Agent("__auth_login__:"@ + name)
                && after.account.pending_model_after_auth == then_models && after.account.provider
                == m.account.provider
            &&& can && m.links.cancel_flag is Some ==> after.outbox == m.outbox.push(
                RequestView::SetCancel(false),
            ).push(RequestView::Agent("__auth_login__:"@ + name))
        }),
{
    reveal(TuiModel::say);
    reveal(TuiModel::ask);
    reveal(TuiModel::to_agent);
    reveal(TuiModel::set_cancel);
    reveal(TuiModel::running);
}

/// A theme that is asked for by name is the one used and the one selected in the
/// list; a name that no theme has stands for the default theme.
pub proof fn law_themes_are_known_by_name(m: TuiModel, name: Seq<char>)
    requires
        m.host.themes.len() <= usize::MAX,
    ensures
        ({
            let after = m.with_theme_name(name);
            let known = exists|i: int|
                0 <= i < m.host.themes.len() && (#[trigger] m.host.themes[i]).name == name;
            &&& known ==> after.looks.theme.name == name && m.host.themes.contains(
                after.looks.theme,
            ) && m.host.themes[after.looks.theme_picker_sel as int].name == name
            &&& !known ==> after.looks.theme == m.host.default_theme
            &&& after.looks.theme_picker_list == m.host.themes
            &&& after.outbox == m.outbox
        }),
{
    lemma_theme_place(m.host.themes, name);
    let p = theme::place(m.host.themes, name);
    if p >= 0 {
        assert(m.host.themes[p].name == name);
    }
}

/// A fresh program is idle and empty, with the provider, the model and the
/// directory it was given, the default theme, and thinking and suggestions off.
pub proof fn law_a_fresh_start(
    version: Seq<char>,
    model: Seq<char>,
    provider: Seq<char>,
    work_dir: Seq<char>,
    h: host::HostView,
)
    ensures
        ({
            let m = TuiModel::fresh(version, model, provider, work_dir, h);
            &&& m.account.model == model
            &&& m.account.provider == provider
            &&& m.work_dir == work_dir
            &&& m.version == version
            &&& m.looks.theme == h.default_theme
            &&& !m.looks.show_thinking && !m.looks.show_suggestions && m.looks.mouse_capture
            &&& m.chat.state == State::Idle
            &&& m.chat.output_lines.len() == 0
            &&& m.composer.input_buf.len() == 0
            &&& m.outbox.len() == 0
            &&& no_list(m)
            &&& !m.permission.show_permission_prompt
            &&& m.saved.current_session_id is None
            &&& m.scroll.transcript_follow
            &&& m.host == h
        }),
{
}

/// The model ids that complete a command are those of the provider's models, in
/// their order; a provider that is not there has none.
pub proof fn law_model_ids_are_the_providers(h: host::HostView, name: Seq<char>, k: int)
    ensures
        0 <= k < h.providers.len() && h.providers[k].name == name && (forall|j: int|
            0 <= j < k ==> (#[trigger] h.providers[j]).name != name) ==> {
            let models = h.providers[k].models;
            &&& h.model_ids(name).len() == models.len()
            &&& forall|j: int|
                0 <= j < models.len() ==> #[trigger] h.model_ids(name)[j] == models[j].id
        },
        (forall|j: int| 0 <= j < h.providers.len() ==> (#[trigger] h.providers[j]).name != name)
            ==> h.model_ids(name).len() == 0,
{
    lemma_place(h.providers, 0, name);
    let p = h.provider_place(name);
    if 0 <= k < h.providers.len() && h.providers[k].name == name && (forall|j: int|
        0 <= j < k ==> (#[trigger] h.providers[j]).name != name) {
        lemma_place_is_first(h.providers, 0, name, k);
        assert(p == k);
    }
}

/// The prompt for an API key says for which provider it is and what variable it
/// could come from, empties the composer, and points to the browser login where
/// there is one.
pub proof fn law_key_prompts_say_what_for(m: TuiModel, name: Seq<char>)
    ensures
        ({
            let after = m.api_key_prompted(name);
            let known = m.host.known(name);
            let told = after.chat.output_lines.last();
            let lead = "Enter API key for "@ + name + " (saved to OS keyring, env "@;
            &&& after.account.awaiting_api_key
            &&& after.account.api_key_target == Some(name)
            &&& after.composer.input_buf.len() == 0
            &&& after.chat.output_lines.len() == m.chat.output_lines.len() + 1
            &&& told.type_ == "system"@
            &&& known.env_var matches Some(v) ==> chars::begins(told.content, lead + v)
            &&& known.env_var is None ==> chars::begins(told.content, lead + "API_KEY"@)
            &&& known.supports_oauth ==> chars::ends(
                told.content,
                " Prefer browser login: Esc, then `/auth login xai`."@,
            )
            &&& !known.supports_oauth ==> chars::ends(told.content, "). Input is masked."@)
            &&& after.outbox == m.outbox
        }),
{
    reveal(TuiModel::say);
    reveal_strlit("");
    let known = m.host.known(name);
    let variable = match known.env_var {
        Some(v) => v,
        None => "API_KEY"@,
    };
    let p = "Enter API key for "@ + name + " (saved to OS keyring, env "@ + variable;
    let s = m.api_key_prompted(name).chat.output_lines.last().content;
    let hint = " Prefer browser login: Esc, then `/auth login xai`."@;
    let mask = "). Input is masked."@;
    assert(s.take(p.len() as int) =~= p);
    if known.supports_oauth {
        assert(s.skip(s.len() - hint.len()) =~= hint);
    } else {
        assert(s =~= p + mask);
        assert(s.skip(s.len() - mask.len()) =~= mask);
    }
}

/// Suggestions that are switched on show at once in an idle, empty composer, and
/// those that are switched off are gone at once.
pub proof fn law_suggestions_switch_at_once(m: TuiModel, show: bool)
    requires
        m.composer.input_buf.len() == 0,
        m.chat.state == State::Idle,
        !m.permission.show_permission_prompt,
        !m.prompts.show_recovery_prompt,
    ensures
        m.suggesting(show).looks.show_suggestions == show,
        m.suggesting(show).composer.idle_suggestion is Some <==> show,
        m.suggestions_applied(show, None).composer.idle_suggestion is Some <==> show,
        m.suggesting(show).outbox == m.outbox,
{
    reveal(TuiModel::suggested);
    reveal(TuiModel::say);
}

} // verus!
