//! What the composer offers to complete a command with.

use crate::chars;
use crate::completion;
use crate::sorting;
use crate::state::{State, TuiModel};
use crate::text_laws;
use vstd::prelude::*;

verus! {

/// Whether a list offers `item` behind `prefix`.
pub open spec fn offered(out: Seq<Seq<char>>, prefix: Seq<char>, item: Seq<char>) -> bool {
    out.contains(prefix + item)
}

/// Whether the characters of `typed` appear in `item` in order, upper and lower
/// case taken as one.
pub open spec fn fits(item: Seq<char>, typed: Seq<char>) -> bool {
    completion::appears(chars::lowered(item), chars::lowered(typed), 0)
}

/// Whether `out` offers just those of the items that fit what is typed, each
/// behind `prefix`.
pub open spec fn offers_fitting(
    out: Seq<Seq<char>>,
    prefix: Seq<char>,
    items: Seq<Seq<char>>,
    typed: Seq<char>,
) -> bool {
    &&& forall|k: int|
        0 <= k < out.len() ==> exists|i: int|
            0 <= i < items.len() && #[trigger] out[k] == prefix + #[trigger] items[i] && fits(
                items[i],
                typed,
            )
    &&& forall|i: int|
        0 <= i < items.len() && fits(#[trigger] items[i], typed) ==> offered(out, prefix, items[i])
}

/// Whether `out` offers all of the items, in their order, each behind `prefix`.
pub open spec fn offers_all(
    out: Seq<Seq<char>>,
    prefix: Seq<char>,
    items: Seq<Seq<char>>,
) -> bool {
    out.len() == items.len() && forall|i: int|
        0 <= i < items.len() ==> #[trigger] out[i] == prefix + items[i]
}

proof fn lemma_deduped_members(s: Seq<Seq<char>>)
    ensures
        forall|x: Seq<char>| #[trigger] sorting::deduped(s).contains(x) <==> s.contains(x),
    decreases s.len(),
{
    let d = sorting::deduped(s);
    if s.len() == 0 {
        assert forall|x: Seq<char>| #[trigger] d.contains(x) <==> s.contains(x) by {}
    } else {
        let t = s.drop_last();
        let dt = sorting::deduped(t);
        lemma_deduped_members(t);
        assert forall|x: Seq<char>| #[trigger] d.contains(x) <==> s.contains(x) by {
            if d.contains(x) {
                let i = choose|i: int| 0 <= i < d.len() && d[i] == x;
                if i < dt.len() {
                    assert(dt[i] == x);
                    assert(dt.contains(x));
                    let j = choose|j: int| 0 <= j < t.len() && t[j] == x;
                    assert(s[j] == x);
                } else {
                    assert(s[s.len() - 1] == x);
                }
            }
            if s.contains(x) {
                let j = choose|j: int| 0 <= j < s.len() && s[j] == x;
                if j < t.len() {
                    assert(t[j] == x);
                    assert(dt.contains(x));
                    let i = choose|i: int| 0 <= i < dt.len() && dt[i] == x;
                    assert(d[i] == x);
                } else {
                    assert(d[d.len() - 1] == x);
                }
            }
        }
    }
}

proof fn lemma_matching_holds(cands: Seq<Seq<char>>, query: Seq<char>, i: int)
    requires
        0 <= i < cands.len(),
        completion::score(cands[i], query) is Some,
    ensures
        completion::matching(cands, query).contains(i),
    decreases cands.len(),
{
    let init = cands.drop_last();
    let m = completion::matching(cands, query);
    if i < init.len() {
        assert(init[i] == cands[i]);
        lemma_matching_holds(init, query, i);
        let b = completion::matching(init, query);
        let k = choose|k: int| 0 <= k < b.len() && b[k] == i;
        assert(m[k] == i);
    } else {
        assert(m[m.len() - 1] == i);
    }
}

/// A ranking offers just the items that fit.
proof fn lemma_ranked_offers(items: Seq<Seq<char>>, typed: Seq<char>, prefix: Seq<char>)
    ensures
        offers_fitting(completion::ranked(items, typed, prefix), prefix, items, typed),
{
    let places = completion::ranking(items, typed);
    let shown = completion::picked(items, places, prefix);
    let out = completion::ranked(items, typed, prefix);
    completion::law_ranking_order(items, typed);
    lemma_deduped_members(shown);
    assert forall|k: int| 0 <= k < out.len() implies exists|i: int|
        0 <= i < items.len() && #[trigger] out[k] == prefix + #[trigger] items[i] && fits(
            items[i],
            typed,
        ) by {
        assert(out.contains(out[k]));
        let j = choose|j: int| 0 <= j < shown.len() && shown[j] == out[k];
        let i = places[j];
        assert(0 <= i < items.len());
        completion::law_fuzzy_match(items[i], typed);
        assert(out[k] == prefix + items[i]);
    }
    assert forall|i: int| 0 <= i < items.len() && fits(#[trigger] items[i], typed) implies offered(
        out,
        prefix,
        items[i],
    ) by {
        completion::law_fuzzy_match(items[i], typed);
        lemma_matching_holds(items, typed, i);
        let m = completion::matching(items, typed);
        assert(m.to_multiset().contains(i)) by {
            m.to_multiset_ensures();
        }
        assert(places.to_multiset().contains(i));
        assert(places.contains(i)) by {
            places.to_multiset_ensures();
        }
        let j = choose|j: int| 0 <= j < places.len() && places[j] == i;
        assert(shown[j] == prefix + items[i]);
        assert(shown.contains(prefix + items[i]));
    }
}

/// Whether an input ends in a blank, so that another word is to come.
pub open spec fn spaced(input: Seq<char>) -> bool {
    input.last() == ' ' || input.last() == '\t'
}

/// Whether an input is the command `cmd`, in either case, and nothing more, with
/// the next word to come.
pub open spec fn awaits_value(input: Seq<char>, cmd: Seq<char>) -> bool {
    &&& input.len() > 0
    &&& input[0] == '/'
    &&& spaced(input)
    &&& chars::words(input).len() == 1
    &&& chars::lowered(chars::words(input)[0]) == cmd
}

/// Whether an input is the command `cmd`, in either case, with its value being
/// typed.
pub open spec fn types_value(input: Seq<char>, cmd: Seq<char>) -> bool {
    &&& input.len() > 0
    &&& input[0] == '/'
    &&& !spaced(input)
    &&& chars::words(input).len() == 2
    &&& chars::lowered(chars::words(input)[0]) == cmd
}

proof fn lemma_command_words()
    ensures
        "/thinking"@.len() == 9,
        "/suggestions"@.len() == 12,
        "/mouse"@.len() == 6,
        "/reset"@.len() == 6,
        "/auth"@.len() == 5,
        "/theme"@.len() == 6,
        "/model"@.len() == 6,
        "/provider"@.len() == 9,
        "/resume"@.len() == 7,
        "/delete"@.len() == 7,
        "/thinking"@[1] == 't',
        "/provider"@[1] == 'p',
        "/mouse"@[1] == 'm',
        "/model"@[1] == 'm',
        "/reset"@[1] == 'r',
        "/theme"@[1] == 't',
        "/mouse"@[3] == 'u',
        "/model"@[3] == 'd',
        "/resume"@[1] == 'r',
        "/delete"@[1] == 'd',
{
    reveal_strlit("/thinking");
    reveal_strlit("/suggestions");
    reveal_strlit("/mouse");
    reveal_strlit("/reset");
    reveal_strlit("/auth");
    reveal_strlit("/theme");
    reveal_strlit("/model");
    reveal_strlit("/provider");
    reveal_strlit("/resume");
    reveal_strlit("/delete");
}

/// `/provider` is completed with the providers, all of them before anything is
/// typed and then those that fit, and with nothing else.
pub proof fn law_provider_takes_providers(
    input: Seq<char>,
    base: Seq<Seq<char>>,
    models: Seq<Seq<char>>,
    providers: Seq<Seq<char>>,
    themes: Seq<Seq<char>>,
    sessions: Seq<Seq<char>>,
)
    ensures
        ({
            let out = completion::completions(input, base, models, providers, themes, sessions);
            &&& awaits_value(input, "/provider"@) ==> offers_all(out, "/provider "@, providers)
            &&& types_value(input, "/provider"@) ==> offers_fitting(
                out,
                "/provider "@,
                providers,
                chars::words(input)[1],
            )
        }),
{
    lemma_command_words();
    if types_value(input, "/provider"@) {
        lemma_ranked_offers(providers, chars::words(input)[1], "/provider "@);
    }
}

/// `/model` is completed with the models, by a name of one word or more.
pub proof fn law_model_takes_models(
    input: Seq<char>,
    base: Seq<Seq<char>>,
    models: Seq<Seq<char>>,
    providers: Seq<Seq<char>>,
    themes: Seq<Seq<char>>,
    sessions: Seq<Seq<char>>,
)
    ensures
        ({
            let out = completion::completions(input, base, models, providers, themes, sessions);
            &&& awaits_value(input, "/model"@) ==> offers_all(out, "/model "@, models)
            &&& types_value(input, "/model"@) ==> offers_fitting(
                out,
                "/model "@,
                models,
                chars::words(input)[1],
            )
        }),
{
    lemma_command_words();
    if types_value(input, "/model"@) {
        let parts = chars::words(input);
        assert(parts.skip(1) =~= seq![parts[1]]);
        lemma_ranked_offers(models, parts[1], "/model "@);
    }
}

/// `/resume` and `/delete` are completed with the saved sessions.
pub proof fn law_session_commands_take_sessions(
    input: Seq<char>,
    base: Seq<Seq<char>>,
    models: Seq<Seq<char>>,
    providers: Seq<Seq<char>>,
    themes: Seq<Seq<char>>,
    sessions: Seq<Seq<char>>,
)
    ensures
        ({
            let out = completion::completions(input, base, models, providers, themes, sessions);
            &&& awaits_value(input, "/resume"@) ==> offers_all(
                out,
                "/resume"@ + " "@,
                sessions,
            )
            &&& types_value(input, "/resume"@) ==> offers_fitting(
                out,
                "/resume"@ + " "@,
                sessions,
                chars::words(input)[1],
            )
            &&& awaits_value(input, "/delete"@) ==> offers_all(
                out,
                "/delete"@ + " "@,
                sessions,
            )
            &&& types_value(input, "/delete"@) ==> offers_fitting(
                out,
                "/delete"@ + " "@,
                sessions,
                chars::words(input)[1],
            )
        }),
{
    lemma_command_words();
    if types_value(input, "/resume"@) {
        lemma_ranked_offers(sessions, chars::words(input)[1], "/resume"@ + " "@);
    }
    if types_value(input, "/delete"@) {
        lemma_ranked_offers(sessions, chars::words(input)[1], "/delete"@ + " "@);
    }
}

/// `/theme` is completed with the word that lists the themes and with the
/// themes: all of them at first, then those that fit.
pub proof fn law_theme_takes_themes(
    input: Seq<char>,
    base: Seq<Seq<char>>,
    models: Seq<Seq<char>>,
    providers: Seq<Seq<char>>,
    themes: Seq<Seq<char>>,
    sessions: Seq<Seq<char>>,
)
    ensures
        ({
            let out = completion::completions(input, base, models, providers, themes, sessions);
            &&& awaits_value(input, "/theme"@) ==> out.len() == themes.len() + 1 && out[0]
                == "/theme list"@ && offers_all(out.drop_first(), "/theme "@, themes)
            &&& types_value(input, "/theme"@) ==> {
                let typed = chars::words(input)[1];
                &&& forall|i: int|
                    0 <= i < themes.len() && fits(#[trigger] themes[i], typed) ==> offered(
                        out,
                        "/theme "@,
                        themes[i],
                    )
                &&& forall|k: int|
                    0 <= k < out.len() ==> #[trigger] out[k] == "/theme list"@ || exists|i: int|
                        0 <= i < themes.len() && out[k] == "/theme "@ + #[trigger] themes[i]
                            && fits(themes[i], typed)
                &&& chars::begins("list"@, chars::lowered(typed)) ==> out.contains("/theme list"@)
            }
        }),
{
    lemma_command_words();
    let out = completion::completions(input, base, models, providers, themes, sessions);
    let list = seq!["/theme list"@];
    if awaits_value(input, "/theme"@) {
        assert(out.drop_first() =~= completion::prefixed("/theme "@, themes));
    }
    if types_value(input, "/theme"@) {
        let typed = chars::words(input)[1];
        let hits = completion::ranked(themes, typed, "/theme "@);
        lemma_ranked_offers(themes, typed, "/theme "@);
        lemma_deduped_members(hits);
        lemma_deduped_members(list + hits);
        assert forall|i: int| 0 <= i < themes.len() && fits(#[trigger] themes[i], typed) implies
            offered(out, "/theme "@, themes[i]) by {
            let x = "/theme "@ + themes[i];
            assert(hits.contains(x));
            let k = choose|k: int| 0 <= k < hits.len() && hits[k] == x;
            assert((list + hits)[k + 1] == x);
        }
        assert forall|k: int| 0 <= k < out.len() implies #[trigger] out[k] == "/theme list"@
            || exists|i: int|
            0 <= i < themes.len() && out[k] == "/theme "@ + #[trigger] themes[i] && fits(
                themes[i],
                typed,
            ) by {
            assert(out.contains(out[k]));
            if hits.contains(out[k]) {
                let j = choose|j: int| 0 <= j < hits.len() && hits[j] == out[k];
                assert(hits[j] == out[k]);
            } else {
                let j = choose|j: int| 0 <= j < (list + hits).len() && (list + hits)[j] == out[k];
                if j > 0 {
                    assert(hits[j - 1] == out[k]);
                }
            }
        }
        if chars::begins("list"@, chars::lowered(typed)) {
            assert((list + hits)[0] == "/theme list"@);
        }
    }
}

/// A command whose name is being typed is completed with the commands that fit,
/// and with nothing else.
pub proof fn law_names_are_completed(
    input: Seq<char>,
    base: Seq<Seq<char>>,
    models: Seq<Seq<char>>,
    providers: Seq<Seq<char>>,
    themes: Seq<Seq<char>>,
    sessions: Seq<Seq<char>>,
)
    requires
        input.len() > 0,
        input[0] == '/',
        !spaced(input),
        chars::words(input).len() == 1,
    ensures
        offers_fitting(
            completion::completions(input, base, models, providers, themes, sessions),
            ""@,
            base,
            chars::words(input)[0],
        ),
{
    let typed = chars::words(input)[0];
    let low = chars::lowered(typed);
    assert(chars::lowered(low) =~= low);
    lemma_ranked_offers(base, low, ""@);
    let out = completion::completions(input, base, models, providers, themes, sessions);
    assert forall|i: int| 0 <= i < base.len() && fits(#[trigger] base[i], typed) implies offered(
        out,
        ""@,
        base[i],
    ) by {
        assert(fits(base[i], low));
    }
    assert forall|k: int| 0 <= k < out.len() implies exists|i: int|
        0 <= i < base.len() && #[trigger] out[k] == ""@ + #[trigger] base[i] && fits(
            base[i],
            typed,
        ) by {
        let i = choose|i: int|
            0 <= i < base.len() && out[k] == ""@ + #[trigger] base[i] && fits(base[i], low);
        assert(out[k] == ""@ + base[i] && fits(base[i], typed));
    }
}

/// `/auth login`, `/auth logout` and `/auth key` are completed with the
/// providers.
pub proof fn law_auth_takes_providers(
    input: Seq<char>,
    base: Seq<Seq<char>>,
    models: Seq<Seq<char>>,
    providers: Seq<Seq<char>>,
    themes: Seq<Seq<char>>,
    sessions: Seq<Seq<char>>,
    action: Seq<char>,
)
    requires
        action == "login"@ || action == "logout"@ || action == "key"@,
        input.len() > 0,
        input[0] == '/',
        chars::words(input).len() >= 2,
        chars::lowered(chars::words(input)[0]) == "/auth"@,
        chars::lowered(chars::words(input)[1]) == action,
    ensures
        ({
            let out = completion::completions(input, base, models, providers, themes, sessions);
            let prefix = "/auth "@ + action + " "@;
            &&& spaced(input) && chars::words(input).len() == 2 ==> offers_all(
                out,
                prefix,
                providers,
            )
            &&& !spaced(input) && chars::words(input).len() == 3 ==> offers_fitting(
                out,
                prefix,
                providers,
                chars::words(input)[2],
            )
        }),
{
    lemma_command_words();
    if !spaced(input) && chars::words(input).len() == 3 {
        lemma_ranked_offers(providers, chars::words(input)[2], "/auth "@ + action + " "@);
    }
}

/// `/auth` alone is completed with its four actions, and while one is typed with
/// those that fit.
pub proof fn law_auth_takes_actions(
    input: Seq<char>,
    base: Seq<Seq<char>>,
    models: Seq<Seq<char>>,
    providers: Seq<Seq<char>>,
    themes: Seq<Seq<char>>,
    sessions: Seq<Seq<char>>,
)
    ensures
        ({
            let out = completion::completions(input, base, models, providers, themes, sessions);
            let actions = seq!["login"@, "logout"@, "status"@, "key"@];
            &&& awaits_value(input, "/auth"@) ==> offers_all(out, "/auth "@, actions)
            &&& types_value(input, "/auth"@) ==> offers_fitting(
                out,
                "/auth "@,
                actions,
                chars::lowered(chars::words(input)[1]),
            )
        }),
{
    lemma_command_words();
    let actions = seq!["login"@, "logout"@, "status"@, "key"@];
    assert(completion::literals(completion::AUTH_ACTIONS@) =~= actions);
    if types_value(input, "/auth"@) {
        lemma_ranked_offers(actions, chars::lowered(chars::words(input)[1]), "/auth "@);
    }
}

/// The switches are completed with on and off, `/reset` with its three words:
/// all of them at first, and then those that start with what is typed.
pub proof fn law_switches_take_on_and_off(
    input: Seq<char>,
    base: Seq<Seq<char>>,
    models: Seq<Seq<char>>,
    providers: Seq<Seq<char>>,
    themes: Seq<Seq<char>>,
    sessions: Seq<Seq<char>>,
    cmd: Seq<char>,
)
    requires
        cmd == "/thinking"@ || cmd == "/suggestions"@ || cmd == "/mouse"@,
    ensures
        ({
            let out = completion::completions(input, base, models, providers, themes, sessions);
            let on = cmd + " "@ + "on"@;
            let off = cmd + " "@ + "off"@;
            &&& awaits_value(input, cmd) ==> out == seq![on, off]
            &&& types_value(input, cmd) ==> {
                let typed = chars::lowered(chars::words(input)[1]);
                &&& chars::begins("on"@, typed) <==> out.contains(on)
                &&& chars::begins("off"@, typed) <==> out.contains(off)
                &&& out.len() <= 2
            }
            &&& awaits_value(input, "/reset"@) ==> out == seq![
                "/reset "@ + "list"@,
                "/reset "@ + "apply"@,
                "/reset "@ + "status"@,
            ]
        }),
{
    lemma_command_words();
    let out = completion::completions(input, base, models, providers, themes, sessions);
    let toggles = completion::literals(completion::TOGGLES@);
    let resets = completion::literals(completion::RESET_ACTIONS@);
    let on = cmd + " "@ + "on"@;
    let off = cmd + " "@ + "off"@;
    assert(toggles =~= seq!["on"@, "off"@]);
    assert(resets =~= seq!["list"@, "apply"@, "status"@]);
    if awaits_value(input, cmd) {
        assert(out =~= seq![on, off]);
    }
    if awaits_value(input, "/reset"@) {
        assert(out =~= seq!["/reset "@ + "list"@, "/reset "@ + "apply"@, "/reset "@ + "status"@]);
    }
    if types_value(input, cmd) {
        let typed = chars::lowered(chars::words(input)[1]);
        let p = cmd + " "@;
        reveal_strlit("on");
        reveal_strlit("off");
        assert(on.len() != off.len());
        let one = toggles.drop_last();
        assert(one =~= seq!["on"@]);
        assert(one.drop_last() =~= seq![]);
        assert(completion::offers(p, one.drop_last(), typed) =~= seq![]);
        let first = completion::offers(p, one, typed);
        assert(first =~= (if chars::begins("on"@, typed) {
            seq![on]
        } else {
            seq![]
        }));
        assert(out =~= (if chars::begins("off"@, typed) {
            first.push(off)
        } else {
            first
        }));
        if chars::begins("on"@, typed) {
            assert(out[0] == on);
        }
        if chars::begins("off"@, typed) {
            assert(out[out.len() - 1] == off);
        }
    }
}

/// The values of one command do not depend on those of another.
pub proof fn law_values_are_kept_apart(
    input: Seq<char>,
    base: Seq<Seq<char>>,
    models: Seq<Seq<char>>,
    providers: Seq<Seq<char>>,
    themes: Seq<Seq<char>>,
    sessions: Seq<Seq<char>>,
    other: Seq<Seq<char>>,
)
    requires
        input.len() > 0,
        input[0] == '/',
        chars::words(input).len() >= 1,
        chars::words(input).len() >= 2 || spaced(input),
    ensures
        ({
            let cmd = chars::lowered(chars::words(input)[0]);
            let out = completion::completions(input, base, models, providers, themes, sessions);
            &&& cmd == "/provider"@ || cmd == "/auth"@ ==> out == completion::completions(
                input,
                other,
                other,
                providers,
                other,
                other,
            )
            &&& cmd == "/model"@ ==> out == completion::completions(
                input,
                other,
                models,
                other,
                other,
                other,
            )
            &&& cmd == "/theme"@ ==> out == completion::completions(
                input,
                other,
                other,
                other,
                themes,
                other,
            )
            &&& cmd == "/resume"@ || cmd == "/delete"@ ==> out == completion::completions(
                input,
                other,
                other,
                other,
                other,
                sessions,
            )
        }),
{
    lemma_command_words();
}

/// Text that is no command is not completed.
pub proof fn law_only_commands_are_completed(
    input: Seq<char>,
    base: Seq<Seq<char>>,
    models: Seq<Seq<char>>,
    providers: Seq<Seq<char>>,
    themes: Seq<Seq<char>>,
    sessions: Seq<Seq<char>>,
)
    requires
        input.len() == 0 || input[0] != '/',
    ensures
        completion::completions(input, base, models, providers, themes, sessions).len() == 0,
{
}

/// The composer offers the models of the provider in use, the providers of the
/// host, its themes, and the short ids of its sessions, and only while a command
/// is typed and no API key.
pub proof fn law_the_composer_offers_what_the_host_has(m: TuiModel)
    ensures
        ({
            let after = m.completed().composer;
            let typed = m.composer.input_buf;
            &&& typed.len() == 0 || typed[0] != '/' || m.account.awaiting_api_key
                ==> after.cmd_picker_filtered.len() == 0 && !after.show_command_picker
            &&& typed.len() > 0 && typed[0] == '/' && !m.account.awaiting_api_key
                ==> after.cmd_picker_filtered == completion::completions(
                typed,
                m.composer.cmd_picker_list,
                m.host.model_ids(m.account.provider),
                m.host.provider_names(),
                crate::theme::names(m.host.themes),
                crate::host::short_ids(m.host.sessions),
            ) && (after.show_command_picker <==> after.cmd_picker_filtered.len() > 0)
            &&& after.input_buf == typed
            &&& after.cursor == m.composer.cursor
            &&& after.cmd_picker_filtered.len() > 0 ==> after.cmd_picker_sel
                < after.cmd_picker_filtered.len() || after.cmd_picker_filtered.len() > usize::MAX
        }),
{
    reveal(TuiModel::completed);
}

/// What Tab fills in is the completion that is selected, with a blank behind it
/// just where another word is to come.
pub proof fn law_tab_fills_in_the_selected_completion(m: TuiModel)
    requires
        m.composer.cmd_picker_filtered.len() > 0,
        m.composer.cmd_picker_sel < m.composer.cmd_picker_filtered.len(),
        m.composer.input_buf.len() > 0,
        m.composer.input_buf[0] != '/',
    ensures
        ({
            let choice = m.composer.cmd_picker_filtered[m.composer.cmd_picker_sel as int];
            m.tabbed().composer.input_buf == (if completion::wants_more(choice) {
                choice + " "@
            } else {
                choice
            })
        }),
{
    reveal(TuiModel::tabbed);
    reveal(TuiModel::completed);
}

/// For a command that is typed, Tab puts in one of the completions that fit it.
pub proof fn law_tab_completes_the_command(m: TuiModel)
    requires
        m.composer.input_buf.len() > 0,
        m.composer.input_buf[0] == '/',
        !m.account.awaiting_api_key,
    ensures
        ({
            let offers = m.completed().composer.cmd_picker_filtered;
            let after = m.tabbed().composer.input_buf;
            &&& offers.len() == 0 ==> after == m.composer.input_buf
            &&& 0 < offers.len() <= usize::MAX ==> exists|i: int|
                0 <= i < offers.len() && (after == #[trigger] offers[i] || after == offers[i]
                    + " "@)
            &&& m.tabbed().outbox == m.outbox
            &&& m.tabbed().chat == m.chat
        }),
{
    reveal(TuiModel::tabbed);
    reveal(TuiModel::completed);
    let c = m.completed();
    let offers = c.composer.cmd_picker_filtered;
    if 0 < offers.len() <= usize::MAX {
        assert(offers[c.composer.cmd_picker_sel as int] == c.selected_completion()->0);
    }
}

/// The gray text behind what is typed is what the completion would add: the two
/// together are as long as the completion and spell it, upper and lower case
/// taken as one.
pub proof fn law_ghost_text_finishes_the_word(input: Seq<char>, choice: Seq<char>)
    ensures
        completion::ghost_suffix(input, choice) is Some ==> chars::lowered(
            input + completion::ghost_suffix(input, choice)->0,
        ) == chars::lowered(choice) && completion::ghost_suffix(input, choice)->0.len() > 0,
        choice.len() > input.len() && chars::begins(choice, input) ==> completion::ghost_suffix(
            input,
            choice,
        ) is Some,
        choice.len() <= input.len() ==> completion::ghost_suffix(input, choice) is None,
{
    let low = chars::lowered(choice);
    let typed = chars::lowered(input);
    if completion::ghost_suffix(input, choice) is Some {
        let rest = completion::ghost_suffix(input, choice)->0;
        assert forall|i: int| 0 <= i < choice.len() implies chars::lowered(input + rest)[i]
            == low[i] by {
            if i < input.len() {
                assert(low.take(typed.len() as int)[i] == typed[i]);
            }
        }
        assert(chars::lowered(input + rest) =~= low);
    }
    if choice.len() > input.len() && chars::begins(choice, input) {
        assert forall|i: int| 0 <= i < input.len() implies #[trigger] low[i] == typed[i] by {
            assert(choice.take(input.len() as int)[i] == input[i]);
        }
        assert(low.take(typed.len() as int) =~= typed);
    }
}

/// Tab and Right in an empty composer take the suggestion, whole and unsent.
pub proof fn law_suggestions_are_taken_whole(m: TuiModel)
    requires
        m.composer.input_buf.len() == 0,
        m.composer.idle_suggestion is Some,
        !m.account.awaiting_api_key,
        !m.pickers.show_model_picker,
        !m.pickers.show_provider_picker,
        !m.looks.show_theme_picker,
        !m.saved.show_session_picker,
    ensures
        m.tabbed().composer.input_buf == m.composer.idle_suggestion->0,
        m.tabbed().outbox == m.outbox,
        m.tabbed().chat == m.chat,
        m.composer.cmd_picker_filtered.len() == 0 ==> m.right().composer.input_buf
            == m.composer.idle_suggestion->0,
        m.composer.cmd_picker_filtered.len() == 0 ==> m.right().outbox == m.outbox,
{
    reveal(TuiModel::tabbed);
    reveal(TuiModel::right);
    reveal(TuiModel::suggestion_taken);
}

/// Suggestions that are switched off are not offered; switched on, one is
/// offered to an idle, empty composer that nothing else owns.
pub proof fn law_suggestions_are_offered_where_wanted(m: TuiModel)
    ensures
        !m.looks.show_suggestions ==> m.suggested().composer.idle_suggestion is None,
        m.looks.show_suggestions && m.composer.input_buf.len() == 0 && m.chat.state == State::Idle
            && !m.permission.show_permission_prompt && !m.prompts.show_recovery_prompt
            ==> m.suggested().composer.idle_suggestion == Some(
            completion::idle_suggestion(m.chat.output_lines),
        ),
        m.looks.show_suggestions && m.composer.input_buf.len() == 0 && m.chat.state == State::Idle
            && (m.permission.show_permission_prompt || m.prompts.show_recovery_prompt)
            ==> m.suggested().composer.idle_suggestion is None,
        m.suggested().composer.input_buf == m.composer.input_buf,
        m.suggested().outbox == m.outbox,
{
    reveal(TuiModel::suggested);
}

/// Tab puts a blank behind just those commands that something can follow: where
/// every list has something to offer, a command wants more exactly where there
/// is something to complete it with.
pub proof fn law_commands_that_want_more(
    c: Seq<char>,
    base: Seq<Seq<char>>,
    x: Seq<char>,
)
    requires
        c.len() > 0,
        c[0] == '/',
        chars::lowered(c) == c,
        forall|i: int| 0 <= i < c.len() ==> !chars::is_ws(#[trigger] c[i]),
    ensures
        completion::wants_more(c) <==> completion::completions(
            c + " "@,
            base,
            seq![x],
            seq![x],
            seq![x],
            seq![x],
        ).len() > 0,
{
    let input = c + " "@;
    reveal_strlit(" ");
    let gap = Seq::<char>::empty();
    text_laws::law_words_are_runs(gap, c, " "@);
    assert(gap + c + " "@ =~= input);
    text_laws::law_words_are_runs(" "@, c, gap);
    assert(chars::words(input) =~= seq![c]);
    assert(input.last() == ' ');
    chars::lemma_trim_end(c);
    assert(chars::trim_end(c) == c) by {
        assert(!chars::is_ws(c[c.len() - 1]));
    }
    lemma_command_words();
    lemma_no_spaced_word(c);
    assert(completion::literals(completion::TOGGLES@).len() == 2);
    assert(completion::literals(completion::RESET_ACTIONS@).len() == 3);
    assert(completion::literals(completion::AUTH_ACTIONS@).len() == 4);
}

proof fn lemma_no_spaced_word(c: Seq<char>)
    requires
        forall|i: int| 0 <= i < c.len() ==> !chars::is_ws(#[trigger] c[i]),
    ensures
        c != "/auth login"@,
        c != "/auth logout"@,
        c != "/auth key"@,
{
    reveal_strlit("/auth login");
    reveal_strlit("/auth logout");
    reveal_strlit("/auth key");
    assert("/auth login"@[5] == ' ');
    assert("/auth logout"@[5] == ' ');
    assert("/auth key"@[5] == ' ');
    if c.len() > 5 {
        assert(!chars::is_ws(c[5]));
    }
}

proof fn lemma_deduped_first(s: Seq<Seq<char>>)
    requires
        s.len() > 0,
    ensures
        sorting::deduped(s).len() > 0,
        sorting::deduped(s)[0] == s[0],
    decreases s.len(),
{
    let t = s.drop_last();
    if t.len() > 0 {
        lemma_deduped_first(t);
    } else {
        assert(sorting::deduped(t).len() == 0);
    }
}

/// Matches are listed by their score, the highest first, and those with equal
/// scores in the order of the list.
pub proof fn law_matches_go_by_score(items: Seq<Seq<char>>, typed: Seq<char>, k: int, l: int)
    requires
        0 <= k < l < completion::ranking(items, typed).len(),
    ensures
        ({
            let r = completion::ranking(items, typed);
            let (a, b) = (
                completion::score(items[r[k]], typed)->0,
                completion::score(items[r[l]], typed)->0,
            );
            a > b || (a == b && r[k] <= r[l])
        }),
{
    completion::law_ranking_order(items, typed);
    let r = completion::ranking(items, typed);
    assert(completion::better(items, typed)(r[k], r[l]));
}

/// The first completion is a best match: no other item scores higher.
pub proof fn law_the_best_match_comes_first(
    items: Seq<Seq<char>>,
    typed: Seq<char>,
    prefix: Seq<char>,
)
    requires
        completion::ranked(items, typed, prefix).len() > 0,
    ensures
        exists|b: int|
            0 <= b < items.len() && completion::ranked(items, typed, prefix)[0] == prefix
                + #[trigger] items[b] && completion::score(items[b], typed) is Some && forall|
                i: int,
            |
                0 <= i < items.len() && completion::score(#[trigger] items[i], typed) is Some
                    ==> completion::score(items[i], typed)->0 <= completion::score(
                    items[b],
                    typed,
                )->0,
{
    let r = completion::ranking(items, typed);
    let shown = completion::picked(items, r, prefix);
    let m = completion::matching(items, typed);
    completion::law_ranking_order(items, typed);
    if shown.len() > 0 {
        lemma_deduped_first(shown);
    }
    let b = r[0];
    assert(shown[0] == prefix + items[b]);
    assert forall|i: int|
        0 <= i < items.len() && completion::score(#[trigger] items[i], typed) is Some implies
        completion::score(items[i], typed)->0 <= completion::score(items[b], typed)->0 by {
        lemma_matching_holds(items, typed, i);
        m.to_multiset_ensures();
        r.to_multiset_ensures();
        assert(r.to_multiset().contains(i));
        assert(r.contains(i));
        let j = choose|j: int| 0 <= j < r.len() && r[j] == i;
        if j > 0 {
            law_matches_go_by_score(items, typed, 0, j);
        }
    }
}

/// A model's name may hold blanks: all that is typed behind the command counts.
pub proof fn law_model_names_may_hold_blanks(
    input: Seq<char>,
    base: Seq<Seq<char>>,
    models: Seq<Seq<char>>,
    providers: Seq<Seq<char>>,
    themes: Seq<Seq<char>>,
    sessions: Seq<Seq<char>>,
)
    requires
        input.len() > 0,
        input[0] == '/',
        !spaced(input),
        chars::words(input).len() >= 2,
        chars::lowered(chars::words(input)[0]) == "/model"@,
    ensures
        offers_fitting(
            completion::completions(input, base, models, providers, themes, sessions),
            "/model "@,
            models,
            chars::joined(chars::words(input).skip(1), " "@),
        ),
{
    lemma_command_words();
    lemma_ranked_offers(models, chars::joined(chars::words(input).skip(1), " "@), "/model "@);
}

/// Once a command has its value, nothing more is offered; nor is anything for a
/// command that takes none.
pub proof fn law_complete_commands_offer_nothing(
    input: Seq<char>,
    base: Seq<Seq<char>>,
    models: Seq<Seq<char>>,
    providers: Seq<Seq<char>>,
    themes: Seq<Seq<char>>,
    sessions: Seq<Seq<char>>,
)
    requires
        input.len() > 0,
        input[0] == '/',
        chars::words(input).len() == 2,
        spaced(input),
        chars::lowered(chars::words(input)[0]) != "/auth"@,
    ensures
        completion::completions(input, base, models, providers, themes, sessions).len() == 0,
{
    lemma_command_words();
}

proof fn lemma_help_row(i: int, k: int)
    requires
        0 <= i <= k < completion::SLASH_COMMANDS@.len(),
        forall|j: int|
            0 <= j < k ==> (#[trigger] completion::SLASH_COMMANDS@[j]).0@
                != completion::SLASH_COMMANDS@[k].0@,
    ensures
        completion::help_from(i, completion::SLASH_COMMANDS@[k].0@) == Some(
            completion::SLASH_COMMANDS@[k].1@,
        ),
    decreases k - i,
{
    if i < k {
        assert(completion::SLASH_COMMANDS@[i].0@ != completion::SLASH_COMMANDS@[k].0@);
        lemma_help_row(i + 1, k);
    }
}

/// Each command in the list of completions is explained by its own help, and a
/// value by what it is.
pub proof fn law_completions_are_explained(c: Seq<char>, x: Seq<char>, k: int)
    requires
        x != "on"@,
        x != "off"@,
        x != "list"@,
    ensures
        0 <= k < completion::SLASH_COMMANDS@.len() && (forall|j: int|
            0 <= j < k ==> (#[trigger] completion::SLASH_COMMANDS@[j]).0@
                != completion::SLASH_COMMANDS@[k].0@) && chars::words(c) == seq![
            completion::SLASH_COMMANDS@[k].0@,
        ] ==> completion::completion_help(c) == Some(completion::SLASH_COMMANDS@[k].1@),
        chars::words(c) == seq!["/provider"@, x] ==> completion::completion_help(c) == Some(
            "provider"@,
        ),
        chars::words(c) == seq!["/model"@, x] ==> completion::completion_help(c) == Some(
            "model"@,
        ),
        chars::words(c) == seq!["/theme"@, x] ==> completion::completion_help(c) == Some(
            "theme"@,
        ),
        chars::words(c) == seq!["/resume"@, x] ==> completion::completion_help(c) == Some(
            "session id"@,
        ),
        chars::words(c) == seq!["/delete"@, x] ==> completion::completion_help(c) == Some(
            "session id"@,
        ),
        chars::words(c) == seq!["/auth"@, "login"@, x] ==> completion::completion_help(c) == Some(
            "provider"@,
        ),
        chars::words(c) == seq!["/mouse"@, "on"@] ==> completion::completion_help(c) == Some(
            "Enable"@,
        ),
        chars::words(c) == seq!["/mouse"@, "off"@] ==> completion::completion_help(c) == Some(
            "Disable"@,
        ),
{
    lemma_command_words();
    reveal_strlit("on");
    reveal_strlit("off");
    assert("on"@.len() != "off"@.len());
    if 0 <= k < completion::SLASH_COMMANDS@.len() && (forall|j: int|
        0 <= j < k ==> (#[trigger] completion::SLASH_COMMANDS@[j]).0@
            != completion::SLASH_COMMANDS@[k].0@) {
        lemma_help_row(0, k);
    }
}

} // verus!
