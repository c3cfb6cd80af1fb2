//! What the lists, the questions and the status line tell.

use crate::chars;
use crate::chrome;
use crate::completion;
use crate::layout::Area;
use crate::lines;
use crate::lines::Tone;
use crate::prompt_panels;
use crate::render;
use crate::session;
use crate::session_laws;
use crate::state::{ScrollView, State, TuiModel};
use crate::status;
use crate::text;
use crate::text_laws;
use vstd::prelude::*;

verus! {

/// Whether a row stands out as the selected one: by its mark and by its tone.
pub open spec fn stands_out(row: Seq<lines::SpanView>) -> bool {
    row.len() > 0 && row[0].tone == Tone::Selected && chars::begins(row[0].content, "▸ "@)
}

/// Whether a row is one that is not selected.
pub open spec fn stands_back(row: Seq<lines::SpanView>) -> bool {
    row.len() > 0 && row[0].tone == Tone::Muted && chars::begins(row[0].content, "  "@)
}

/// The provider list has one row for each provider, in the order of the list,
/// which names it. The selected one alone stands out; the one in use is called
/// current, and those with a credential signed in.
pub proof fn law_the_provider_rows(m: TuiModel, i: int)
    requires
        0 <= i < m.pickers.provider_picker_list.len(),
    ensures
        ({
            let panel = m.provider_panel();
            let row = panel[i + 1];
            let name = m.pickers.provider_picker_list[i];
            let signed_in = i < m.pickers.provider_picker_keys.len()
                && m.pickers.provider_picker_keys[i];
            &&& panel.len() == m.pickers.provider_picker_list.len() + 1
            &&& chars::has(row[0].content, name)
            &&& i == m.pickers.provider_picker_sel ==> stands_out(row)
            &&& i != m.pickers.provider_picker_sel ==> stands_back(row)
            &&& name == m.account.provider ==> chars::ends(row[0].content, "  (current)"@)
            &&& signed_in ==> chars::has(row[0].content, "  [signed in]"@)
            &&& !signed_in && m.host.known(name).supports_oauth ==> chars::has(
                row[0].content,
                "  [browser login]"@,
            )
            &&& !signed_in && !m.host.known(name).supports_oauth && name != m.account.provider
                ==> row[0].content.len() == 2 + name.len()
        }),
{
    let panel = m.provider_panel();
    let name = m.pickers.provider_picker_list[i];
    let selected = i == m.pickers.provider_picker_sel;
    let row = m.provider_row(i);
    assert(panel[i + 1] == row);
    let signed_in = i < m.pickers.provider_picker_keys.len() && m.pickers.provider_picker_keys[i];
    let key = if signed_in {
        "  [signed in]"@
    } else if m.host.known(name).supports_oauth {
        "  [browser login]"@
    } else {
        ""@
    };
    let cur = if name == m.account.provider {
        "  (current)"@
    } else {
        ""@
    };
    let mark = chrome::row_mark(selected);
    assert(row[0].content == mark + name + key + cur);
    lemma_provider_row(mark, name, key, cur);
    reveal_strlit("");
    reveal_strlit("▸ ");
    reveal_strlit("  ");
}

proof fn lemma_provider_row(mark: Seq<char>, name: Seq<char>, key: Seq<char>, cur: Seq<char>)
    ensures
        ({
            let s = mark + name + key + cur;
            &&& chars::begins(s, mark)
            &&& chars::has(s, name)
            &&& chars::has(s, key)
            &&& chars::ends(s, cur)
        }),
{
    let s = mark + name + key + cur;
    let i = mark.len() as int;
    let j = i + name.len();
    assert(s.take(i) =~= mark);
    assert(s.subrange(i, j) =~= name);
    assert(chars::occurs_at(s, name, i));
    assert(s.subrange(j, j + key.len()) =~= key);
    assert(chars::occurs_at(s, key, j));
    assert(s.skip(s.len() - cur.len()) =~= cur);
}

/// The model list shows the models from where it is scrolled to, one row each,
/// by name and id; the selected one alone stands out, and the one in use is
/// checked.
pub proof fn law_the_model_rows(m: TuiModel, k: int)
    requires
        0 <= k < m.visible_models(),
        m.pickers.picker_scrl + k < m.pickers.picker_models.len(),
    ensures
        ({
            let panel = m.model_panel();
            let i = m.pickers.picker_scrl + k;
            let lead: int = if m.pickers.picker_models.len() > m.visible_models() {
                2
            } else {
                1
            };
            let row = panel[lead + k];
            let model = m.pickers.picker_models[i];
            &&& lead + k < panel.len()
            &&& chars::has(row[0].content, model.name)
            &&& chars::has(row[0].content, model.id)
            &&& i == m.pickers.picker_sel ==> stands_out(row)
            &&& i != m.pickers.picker_sel ==> stands_back(row)
            &&& model.id == m.account.model ==> chars::ends(row[0].content, "  ✓"@)
            &&& model.max_ctx > 0 ==> chars::has(
                row[0].content,
                " ("@ + chars::decimal((model.max_ctx / 1000) as nat) + "K context)"@,
            )
        }),
{
    let i = m.pickers.picker_scrl + k;
    let selected = i == m.pickers.picker_sel;
    let model = m.pickers.picker_models[i];
    let panel = m.model_panel();
    let lead: int = if m.pickers.picker_models.len() > m.visible_models() {
        2
    } else {
        1
    };
    let row = m.model_row(i);
    assert(panel[lead + k] == row);
    let mark = chrome::row_mark(selected);
    let ctx = if model.max_ctx > 0 {
        " ("@ + chars::decimal((model.max_ctx / 1000) as nat) + "K context)"@
    } else {
        ""@
    };
    let check = if model.id == m.account.model {
        "  ✓"@
    } else {
        ""@
    };
    assert(row[0].content == mark + model.name + "  "@ + model.id + ctx + check);
    lemma_model_row(mark, model.name, model.id, ctx, check);
}

proof fn lemma_model_row(
    mark: Seq<char>,
    name: Seq<char>,
    id: Seq<char>,
    ctx: Seq<char>,
    check: Seq<char>,
)
    ensures
        ({
            let s = mark + name + "  "@ + id + ctx + check;
            &&& chars::begins(s, mark)
            &&& chars::has(s, name)
            &&& chars::has(s, id)
            &&& chars::has(s, ctx)
            &&& chars::ends(s, check)
        }),
{
    let a = mark + name + "  "@;
    let b = a + id + ctx;
    let s = b + check;
    let i = mark.len() as int;
    let j = a.len() as int;
    let k = (a + id).len() as int;
    assert(s.take(i) =~= mark);
    assert(s.subrange(i, i + name.len()) =~= name);
    assert(chars::occurs_at(s, name, i));
    assert(s.subrange(j, j + id.len()) =~= id);
    assert(chars::occurs_at(s, id, j));
    assert(s.subrange(k, k + ctx.len()) =~= ctx);
    assert(chars::occurs_at(s, ctx, k));
    assert(s.skip(s.len() - check.len()) =~= check);
}

/// The theme list has one row for each theme, by label and name; the selected
/// one alone stands out, and the one in use is checked.
pub proof fn law_the_theme_rows(m: TuiModel, i: int)
    requires
        0 <= i < m.looks.theme_picker_list.len(),
    ensures
        ({
            let panel = m.theme_panel();
            let row = panel[i + 1];
            let t = m.looks.theme_picker_list[i];
            &&& panel.len() == m.looks.theme_picker_list.len() + 1
            &&& chars::has(row[0].content, t.label + " ("@ + t.name + ")"@)
            &&& i == m.looks.theme_picker_sel ==> stands_out(row)
            &&& i != m.looks.theme_picker_sel ==> stands_back(row)
            &&& t.name == m.looks.theme.name ==> chars::ends(row[0].content, "  ✓"@)
        }),
{
    let panel = m.theme_panel();
    let t = m.looks.theme_picker_list[i];
    let selected = i == m.looks.theme_picker_sel;
    let row = m.theme_row(i);
    assert(panel[i + 1] == row);
    let mark = chrome::row_mark(selected);
    let named = t.label + " ("@ + t.name + ")"@;
    let check = if t.name == m.looks.theme.name {
        "  ✓"@
    } else {
        ""@
    };
    let s = row[0].content;
    assert(s =~= mark + named + check);
    assert(s.take(mark.len() as int) =~= mark);
    session_laws::lemma_has_itself(named);
    session_laws::lemma_has_right(mark, named, named);
    session_laws::lemma_has_left(mark + named, check, named);
    assert(s.skip(s.len() - check.len()) =~= check);
}

/// The session list says in its heading whether Enter resumes or deletes, and
/// gives each session by its short id; the selected one alone stands out, with
/// its summary under it.
pub proof fn law_the_session_rows(m: TuiModel, i: int)
    requires
        0 <= i < m.saved.picker_sessions.len(),
    ensures
        ({
            let rows = m.saved_rows(i);
            let s = m.saved.picker_sessions[i];
            let selected = i == m.saved.picker_session_sel;
            let head = m.session_panel()[0];
            &&& rows.len() >= 1
            &&& chars::has(rows[0][0].content, session::short(s.id))
            &&& chars::has(rows[0][0].content, s.model)
            &&& selected ==> stands_out(rows[0])
            &&& !selected ==> stands_back(rows[0]) && rows.len() == 1
            &&& selected && 0 < s.summary.len() <= 50 ==> rows.len() == 2 && rows[1][0].content
                == "   "@ + s.summary
            &&& m.saved.session_picker_delete <==> head[0].content == "── Delete Session "@
            &&& !m.saved.session_picker_delete <==> head[0].content == "── Resume Session "@
        }),
{
    let s = m.saved.picker_sessions[i];
    let selected = i == m.saved.picker_session_sel;
    let row = m.saved_rows(i)[0];
    let mark = chrome::row_mark(selected);
    let short = session::short(s.id);
    let count = chars::decimal(s.msg_count as nat);
    let age = text::age(s.updated_at as nat, m.host.unix_secs as nat);
    let a = mark + short;
    let b = a + "  "@ + s.model;
    let c = row[0].content;
    assert(c == b + "  "@ + count + " msgs  "@ + age);
    assert(c.take(mark.len() as int) =~= mark);
    assert(c.subrange(mark.len() as int, a.len() as int) =~= short);
    assert(chars::occurs_at(c, short, mark.len() as int));
    let at = a.len() as int + "  "@.len();
    assert(c.subrange(at, at + s.model.len()) =~= s.model);
    assert(chars::occurs_at(c, s.model, at));
    reveal_strlit("── Delete Session ");
    reveal_strlit("── Resume Session ");
    assert("── Delete Session "@[3] != "── Resume Session "@[3]);
}

proof fn lemma_range_len(m: TuiModel, lo: int, hi: int, i: int) -> (at: int)
    requires
        0 <= lo <= i < hi,
    ensures
        0 <= at,
        at + m.saved_rows(i).len() <= m.saved_range(lo, hi).len(),
        m.saved_range(lo, hi).subrange(at, at + m.saved_rows(i).len()) == m.saved_rows(i),
    decreases hi - lo,
{
    let head = m.saved_range(lo, hi - 1);
    let tail = m.saved_rows(hi - 1);
    if i == hi - 1 {
        assert((head + tail).subrange(head.len() as int, head.len() as int + tail.len()) =~= tail);
        head.len() as int
    } else {
        let at = lemma_range_len(m, lo, hi - 1, i);
        let n = m.saved_rows(i).len();
        assert((head + tail).subrange(at, at + n) =~= head.subrange(at, at + n));
        at
    }
}

/// Ten sessions show at a time, from where the list is scrolled to: each of
/// them stands in the panel.
pub proof fn law_ten_sessions_show(m: TuiModel, i: int)
    requires
        m.saved.picker_session_scrl <= i < m.saved.picker_session_scrl + 10,
        i < m.saved.picker_sessions.len(),
    ensures
        exists|at: int|
            0 <= at && at + m.saved_rows(i).len() <= m.session_panel().len()
                && #[trigger] m.session_panel().subrange(at, at + m.saved_rows(i).len())
                == m.saved_rows(i),
{
    let n = m.saved.picker_sessions.len();
    let top = m.saved.picker_session_scrl as int;
    let end = if top + 10 <= n {
        top + 10
    } else {
        n as int
    };
    let at = lemma_range_len(m, top, end, i);
    let panel = m.session_panel();
    let body = m.saved_range(top, end);
    let lead = panel.len() - body.len();
    assert(panel.skip(lead) =~= body);
    let len = m.saved_rows(i).len();
    assert(panel.subrange(lead + at, lead + at + len) =~= body.subrange(at, at + len));
}

/// The selected completion is among those shown and alone stands out, up to
/// eight at a time; each row names its command.
pub proof fn law_the_command_rows(m: TuiModel, k: int)
    requires
        m.composer.cmd_picker_sel < m.composer.cmd_picker_filtered.len(),
        0 <= k < m.shown_commands().len(),
    ensures
        ({
            let rows = m.shown_commands();
            let start = m.command_start();
            let row = status::command_row(
                rows[k],
                status::widest(rows),
                start + k == m.composer.cmd_picker_sel,
            );
            let lead: int = if m.composer.cmd_picker_filtered.len() > 8 {
                2
            } else {
                1
            };
            &&& rows.len() <= 8
            &&& start <= m.composer.cmd_picker_sel < start + rows.len()
            &&& rows[k] == m.composer.cmd_picker_filtered[start + k]
            &&& m.command_panel()[lead + k] == row
            &&& chars::has(row[0].content, rows[k])
            &&& completion::completion_help(rows[k]) matches Some(help) ==> row.len() == 2
                && row[1].content == "  "@ + help
            &&& start + k == m.composer.cmd_picker_sel ==> stands_out(row)
            &&& start + k != m.composer.cmd_picker_sel ==> stands_back(row)
        }),
{
    let rows = m.shown_commands();
    let selected = m.command_start() + k == m.composer.cmd_picker_sel;
    let cmd = rows[k];
    let row = status::command_row(cmd, status::widest(rows), selected);
    let mark = chrome::row_mark(selected);
    let c = row[0].content;
    assert(c.take(mark.len() as int) =~= mark);
    assert(c.subrange(mark.len() as int, mark.len() as int + cmd.len()) =~= cmd);
    assert(chars::occurs_at(c, cmd, mark.len() as int));
}

/// The questions name the provider that they are about, and show their choices
/// with the highlighted one in brackets.
pub proof fn law_questions_say_what_about(m: TuiModel, masked: Seq<char>, name: Seq<char>)
    ensures
        ({
            let shown = m.chrome(masked).0;
            &&& m.prompts.confirm_remove_provider == Some(name) ==> shown[0][0].content
                == "Remove saved API key for '"@ + name + "'?"@
            &&& m.prompts.confirm_remove_provider == Some(name) && m.prompts.confirm_remove_sel == 0
                ==> shown[3][0].content == "["@ + "Cancel"@ + "]"@ && shown[3][2].content == " "@
                + "Remove"@ + " "@
            &&& m.prompts.confirm_remove_provider == Some(name) && m.prompts.confirm_remove_sel == 1
                ==> shown[3][0].content == " "@ + "Cancel"@ + " "@ && shown[3][2].content == "["@
                + "Remove"@ + "]"@
            &&& m.prompts.confirm_remove_provider is None && m.prompts.confirm_history_provider
                == Some(name) ==> shown[0][0].content == "Send existing conversation to '"@ + name
                + "'?"@
            &&& m.prompts.confirm_remove_provider is None && m.prompts.confirm_history_provider
                == Some(name) && m.prompts.confirm_history_sel == 1 ==> shown[3][0].content == " "@
                + "Cancel"@ + " "@ && shown[3][2].content == "["@ + "Continue"@ + "]"@
            &&& m.prompts.confirm_remove_provider is None && m.prompts.confirm_history_provider
                == Some(name) && m.prompts.confirm_history_sel == 0 ==> shown[3][0].content == "["@
                + "Cancel"@ + "]"@ && shown[3][2].content == " "@ + "Continue"@ + " "@
        }),
{
    lemma_two_options(chrome::REMOVE_OPTIONS@, m.prompts.confirm_remove_sel as int);
    lemma_two_options(chrome::HANDOVER_OPTIONS@, m.prompts.confirm_history_sel as int);
}

proof fn lemma_two_options(options: Seq<&'static str>, sel: int)
    requires
        options.len() == 2,
    ensures
        ({
            let s = chrome::option_spans(options, sel);
            &&& s.len() == 3
            &&& sel == 0 ==> s[0].content == "["@ + options[0]@ + "]"@ && s[2].content == " "@
                + options[1]@ + " "@
            &&& sel == 1 ==> s[0].content == " "@ + options[0]@ + " "@ && s[2].content == "["@
                + options[1]@ + "]"@
        }),
{
    let one = options.drop_last();
    let none = one.drop_last();
    assert(chrome::option_spans(none, sel).len() == 0);
    assert(one[0] == options[0]);
    assert(chrome::option_spans(one, sel).len() == 1);
}

/// After a failure the prompt names what failed, and highlights the choice that
/// Enter takes.
pub proof fn law_the_recovery_prompt_names_what_failed(m: TuiModel)
    ensures
        m.recovery_panel()[0][0].content == "LLM failed ("@ + m.account.provider + "/"@
            + m.account.model + "). Switch and retry your request:"@,
        m.prompts.recovery_selection == 0 ==> m.recovery_panel()[2][0].tone == Tone::AccentBold
            && m.recovery_panel()[2][2].tone == Tone::Muted && m.recovery_panel()[2][4].tone
            == Tone::Muted,
        m.prompts.recovery_selection == 1 ==> m.recovery_panel()[2][0].tone == Tone::Muted
            && m.recovery_panel()[2][2].tone == Tone::AccentBold && m.recovery_panel()[2][4].tone
            == Tone::Muted,
        m.prompts.recovery_selection == 2 ==> m.recovery_panel()[2][0].tone == Tone::Muted
            && m.recovery_panel()[2][2].tone == Tone::Muted && m.recovery_panel()[2][4].tone
            == Tone::AccentBold,
{
    let options = chrome::RECOVERY_OPTIONS@;
    let sel = m.prompts.recovery_selection as int;
    let two = options.drop_last();
    lemma_two_options(two, sel);
    let one = two.drop_last();
    assert(chrome::option_spans(one.drop_last(), sel).len() == 0);
    assert(chrome::option_spans(one, sel).len() == 1);
}

/// An API key is never shown as typed: the panel shows the masked text alone,
/// whole, for the provider it is for.
pub proof fn law_the_key_panel_shows_the_masked_key(m: TuiModel, masked: Seq<char>)
    ensures
        ({
            let line = m.api_key_panel(masked)[0];
            let target = match m.account.api_key_target {
                Some(t) => t,
                None => m.account.provider,
            };
            let label = line[0].content.take(line[0].content.len() - m.masked_split(masked));
            &&& line.len() == 3
            &&& chars::begins(line[0].content, target + " API key ("@)
            &&& line[0].content.skip(label.len() as int) + line[2].content == masked
            &&& line[1].content == "▋"@
        }),
{
    let line = m.api_key_panel(masked)[0];
    let target = match m.account.api_key_target {
        Some(t) => t,
        None => m.account.provider,
    };
    chars::lemma_chars_before_bounds(m.composer.input_buf, m.composer.cursor as int);
    let k = m.masked_split(masked);
    let p = target + " API key ("@;
    let s = line[0].content;
    assert(s.take(p.len() as int) =~= p);
    let label = s.take(s.len() - k);
    assert(s.skip(label.len() as int) =~= masked.take(k));
    assert(masked.take(k) + masked.skip(k) =~= masked);
}

/// The status line names the provider and the model in use, and the directory;
/// while a turn runs it says how to interrupt it, and once exit is armed it
/// says only that.
pub proof fn law_the_status_line(m: TuiModel)
    ensures
        ({
            let s = m.status();
            let u = m.chat.total_usage;
            let use_ = lines::sp(m.account.provider + "/"@ + m.account.model, Tone::Muted);
            let idle = !m.ctrl_c_exit_armed && m.chat.state == State::Idle;
            &&& m.ctrl_c_exit_armed ==> s.len() == 1 && s[0].content
                == "Press Ctrl+C again to exit"@
            &&& !m.ctrl_c_exit_armed && m.chat.state == State::Running ==> s[0].content
                == "esc to interrupt"@ && s.last() == use_
            &&& idle ==> s.contains(use_)
            &&& idle && m.composer.pending_images.len() == 1 ==> s[0].content
                == "1 image attached"@
            &&& idle && m.composer.pending_images.len() > 1 ==> s[0].content == chars::decimal(
                m.composer.pending_images.len(),
            ) + " images attached"@
            &&& idle && m.composer.pending_images.len() == 0 ==> s[0] == use_
            &&& idle && (u.input_tokens > 0 || u.output_tokens > 0) ==> s.contains(
                lines::sp(
                    chars::decimal(u.input_tokens as nat) + "↓ "@ + chars::decimal(
                        u.output_tokens as nat,
                    ) + "↑"@,
                    Tone::Muted,
                ),
            )
            &&& m.status_panel().last() == s
        }),
{
    let s = m.status();
    let img = m.image_status();
    let n = img.len() as int;
    if !m.ctrl_c_exit_armed && m.chat.state == State::Idle {
        assert(s[n] == m.in_use());
        assert(s[0] == (if n > 0 {
            img[0]
        } else {
            s[n]
        }));
        if m.usage_status().len() > 0 {
            assert(s[n + 4] == m.usage_status()[1]);
        }
    }
}

/// While one has scrolled back, the frame says how far down one is, in percent
/// of the way to the bottom.
pub proof fn law_the_scroll_hint(scroll: ScrollView, area: Area)
    requires
        scroll.transcript_rowoff <= scroll.max_off(),
    ensures
        scroll.transcript_follow || scroll.max_off() == 0 ==> render::scroll_hint(scroll, area)
            is None,
        render::scroll_hint(scroll, area) is Some ==> {
            let p = render::scroll_percent(scroll);
            &&& 0 <= p <= 100
            &&& p * scroll.max_off() <= scroll.transcript_rowoff * 100 < (p + 1) * scroll.max_off()
            &&& chars::begins(
                (render::scroll_hint(scroll, area)->0).0,
                " ↑ "@ + chars::decimal(p as nat) + "%"@,
            )
        },
{
    if render::scroll_hint(scroll, area) is Some {
        let n = scroll.transcript_rowoff * 100;
        let d = scroll.max_off();
        let p = render::scroll_percent(scroll);
        assert(d > 0);
        vstd::arithmetic::div_mod::lemma_fundamental_div_mod(n, d);
        vstd::arithmetic::div_mod::lemma_mod_bound(n, d);
        assert(p * d <= n < (p + 1) * d) by (nonlinear_arith)
            requires
                n == d * p + n % d,
                0 <= n % d < d,
        ;
        assert(0 <= p <= 100) by (nonlinear_arith)
            requires
                p * d <= n < (p + 1) * d,
                0 <= n <= 100 * d,
                d > 0,
        ;
        let hint = (render::scroll_hint(scroll, area)->0).0;
        let lead = " ↑ "@ + chars::decimal(p as nat);
        let rest = "% · PgUp/PgDn · wheel · Ctrl+U/D "@;
        reveal_strlit("% · PgUp/PgDn · wheel · Ctrl+U/D ");
        reveal_strlit("%");
        assert(hint == lead + rest);
        assert(hint.take(lead.len() as int + 1) =~= lead + "%"@);
    }
}

/// A pane of `h` rows over `wrapped` lines can be scrolled by just the lines
/// that do not fit; a page is one line less than the pane, and half a page half
/// of it, but at least one line.
pub proof fn law_page_sizes(s: ScrollView)
    ensures
        s.last_body_h > 0 && s.last_body_wrapped > s.last_body_h ==> s.max_off() + s.last_body_h
            == s.last_body_wrapped,
        s.last_body_wrapped <= s.last_body_h ==> s.max_off() == 0,
        s.last_body_h > 0 ==> s.page() + 1 == s.last_body_h,
        s.half_page() >= 1,
        s.last_body_h > 3 ==> 2 * s.half_page() <= s.last_body_h <= 2 * s.half_page() + 1,
        s.transcript_follow ==> s.current_off() == s.max_off(),
        !s.transcript_follow && s.transcript_rowoff < s.max_off() ==> s.current_off()
            == s.transcript_rowoff,
{
}

/// While a turn runs, the spinner and the status line tell how long it has been
/// running.
pub proof fn law_running_turns_show_their_time(m: TuiModel, started: u64, s: nat)
    requires
        m.chat.state == State::Running,
        !m.ctrl_c_exit_armed,
        m.chat.running_started == Some(started),
        s < 60,
        started + s * 1_000_000_000 <= m.host.now_ns,
        m.host.now_ns < started + (s + 1) * 1_000_000_000,
    ensures
        m.status()[2].content == chars::decimal(s) + "s"@,
        m.spinner().last().content == " "@ + (chars::decimal(s) + "s"@),
{
    let ms = (m.since(started) / 1_000_000) as nat;
    assert(ms / 1000 == s);
    assert(text::elapsed_compact(ms) == chars::decimal(s) + "s"@);
}

/// The status line names the working directory by its end, and the cost where
/// there is one.
pub proof fn law_the_status_line_names_the_place(m: TuiModel)
    requires
        !m.ctrl_c_exit_armed,
        m.chat.state == State::Idle,
    ensures
        m.status().contains(lines::sp(status::short_path(m.work_dir), Tone::Muted)),
        m.host.cost_positive && m.chat.total_usage.input_tokens > 0 ==> m.status().contains(
            lines::sp(m.host.cost_text, Tone::Muted),
        ),
        m.composer.input_buf.len() == 0 ==> m.status().last().content == "? for shortcuts"@,
{
    let s = m.status();
    let n = m.image_status().len() as int;
    assert(s[n + 2] == lines::sp(status::short_path(m.work_dir), Tone::Muted));
    if m.host.cost_positive && m.chat.total_usage.input_tokens > 0 {
        assert(m.usage_status().len() == 4);
        assert(s[n + 6] == m.usage_status()[3]);
    }
}

/// A prompt for permission names the tool, warns of git, shows each row of the
/// call's preview, and then the four answers.
pub proof fn law_the_permission_prompt_shows_the_call(m: TuiModel, i: int)
    ensures
        ({
            let p = m.permission_panel();
            let rows = prompt_panels::input_preview(m.permission.perm_tool_input);
            let git: int = if m.permission.perm_tool_name == "git"@ {
                1
            } else {
                0
            };
            let head = 1 + git + rows.len();
            &&& p[0][0].content == "Tool '"@ + m.permission.perm_tool_name + "' wants to run:"@
            &&& git == 1 ==> chars::has(p[1][0].content, "Shell-equivalent risk"@)
            &&& 0 <= i < rows.len() ==> p[1 + git + i][0].content == "  "@ + rows[i]
            &&& p[head].len() == 0
            &&& chars::has(p[head + 1][0].content, "1. Yes"@)
            &&& chars::has(p[head + 2][0].content, "2. Yes, always allow"@)
            &&& chars::has(p[head + 3][0].content, "3. No"@)
            &&& chars::has(p[head + 4][0].content, "4. Discuss"@)
        }),
{
    let p = m.permission_panel();
    let name = m.permission.perm_tool_name;
    let rows = prompt_panels::input_preview(m.permission.perm_tool_input);
    let git: int = if name == "git"@ {
        1
    } else {
        0
    };
    let head = 1 + git + rows.len();
    assert(m.permission_head().len() == head + 1);
    if git == 1 {
        let w = "Shell-equivalent risk: Git may execute aliases, hooks, helpers, and configured commands."@;
        reveal_strlit(
            "Shell-equivalent risk: Git may execute aliases, hooks, helpers, and configured commands.",
        );
        reveal_strlit("Shell-equivalent risk");
        reveal_strlit("  ");
        let c = p[1][0].content;
        assert(c == "  "@ + w);
        assert(c.subrange(2, 23) =~= "Shell-equivalent risk"@);
        assert(chars::occurs_at(c, "Shell-equivalent risk"@, 2));
    }
    lemma_option_named(m, 0);
    lemma_option_named(m, 1);
    lemma_option_named(m, 2);
    lemma_option_named(m, 3);
    assert(p[head + 1] == m.permission_option(0));
    assert(p[head + 2] == m.permission_option(1));
    assert(p[head + 3] == m.permission_option(2));
    assert(p[head + 4] == m.permission_option(3));
}

proof fn lemma_option_named(m: TuiModel, k: int)
    requires
        0 <= k < 4,
    ensures
        chars::has(m.permission_option(k)[0].content, chrome::PERMISSION_OPTIONS@[k]@),
{
    let name = chrome::PERMISSION_OPTIONS@[k]@;
    session_laws::lemma_has_itself(name);
    session_laws::lemma_has_right("❯ "@, name, name);
    session_laws::lemma_has_right("  "@, name, name);
}

/// The model list shows ten rows less than the terminal has, but at least three,
/// and no more than there are models. A terminal that does not say how high it
/// is counts as 24 rows.
pub proof fn law_visible_models(m: TuiModel, n: nat)
    requires
        m.host.term_lines == Some(chars::decimal(n)),
        n <= usize::MAX,
    ensures
        text::announced_height(m.host.term_lines) == n,
        text::announced_height(None) == 24,
        n < 13 ==> m.visible_models() == 3,
        n >= 13 && n - 10 <= m.pickers.picker_models.len() ==> m.visible_models() == n - 10,
        n >= 13 && n - 10 > m.pickers.picker_models.len() ==> m.visible_models()
            == m.pickers.picker_models.len(),
{
    text_laws::law_decimals_denote_their_number(n);
}

/// Help and the shortcuts show each of their rows: the keys, then what they do.
pub proof fn law_help_shows_its_rows(i: int)
    ensures
        0 <= i < chrome::SHORTCUT_ROWS@.len() ==> {
            let row = chrome::shortcuts_chrome()[i + 1];
            &&& chars::has(row[0].content, chrome::SHORTCUT_ROWS@[i].0@)
            &&& row[1].content == chrome::SHORTCUT_ROWS@[i].1@
        },
        0 <= i < chrome::HELP_ROWS@.len() && chrome::HELP_ROWS@[i].0@.len() > 0 ==> {
            let row = chrome::help_chrome()[i + 1];
            &&& chars::has(row[0].content, chrome::HELP_ROWS@[i].0@)
            &&& chrome::HELP_ROWS@[i].1@.len() > 0 ==> row[1].content == chrome::HELP_ROWS@[i].1@
        },
{
    if 0 <= i < chrome::SHORTCUT_ROWS@.len() {
        lemma_aligned(chrome::SHORTCUT_ROWS@[i].0@, 22);
    }
    if 0 <= i < chrome::HELP_ROWS@.len() {
        lemma_aligned(chrome::HELP_ROWS@[i].0@, 28);
    }
}

proof fn lemma_aligned(keys: Seq<char>, n: nat)
    ensures
        chars::has("  "@ + chars::left_aligned(keys, n), keys),
        chars::has("  "@ + keys, keys),
{
    let s = "  "@ + chars::left_aligned(keys, n);
    let at = "  "@.len() as int;
    assert(s.subrange(at, at + keys.len()) =~= keys);
    assert(chars::occurs_at(s, keys, at));
    assert(("  "@ + keys).subrange(at, at + keys.len()) =~= keys);
    assert(chars::occurs_at("  "@ + keys, keys, at));
}

} // verus!
