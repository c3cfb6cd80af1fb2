//! What the texts that are shown and read come to.

use crate::chars;
use crate::completion;
use crate::lines;
use crate::listings;
use crate::session;
use crate::session_laws;
use crate::sorting;
use crate::state::TuiModel;
use crate::status;
use crate::text;
use crate::text::EscapeState;
use crate::tool_display;
use crate::transcript::OutputView;
use vstd::prelude::*;

verus! {

/// Text without control characters, other than newlines and tabs.
pub open spec fn plain_text(s: Seq<char>) -> bool {
    forall|i: int| 0 <= i < s.len() ==> #[trigger] s[i] == '\n' || s[i] == '\t' || !chars::is_ctl(s[i])
}

proof fn lemma_plain_first(p: Seq<char>, rest: Seq<char>)
    requires
        plain_text(p),
    ensures
        text::sanitized(p + rest) == p + text::sanitized(rest),
    decreases p.len(),
{
    let s = p + rest;
    if p.len() == 0 {
        assert(s =~= rest);
        assert(p + text::sanitized(rest) =~= text::sanitized(rest));
    } else {
        let q = p.drop_first();
        assert forall|i: int| 0 <= i < q.len() implies #[trigger] q[i] == '\n' || q[i] == '\t'
            || !chars::is_ctl(q[i]) by {
            assert(q[i] == p[i + 1]);
        }
        lemma_plain_first(q, rest);
        assert(s.drop_first() =~= q + rest);
        assert(s[0] == p[0]);
        assert(text::next_state(EscapeState::Text, s[0]) == EscapeState::Text);
        assert(seq![s[0]] + (q + text::sanitized(rest)) =~= p + text::sanitized(rest));
    }
}

proof fn lemma_inside_csi(params: Seq<char>, end: char, rest: Seq<char>)
    requires
        forall|i: int| 0 <= i < params.len() ==> '\u{20}' <= #[trigger] params[i] <= '\u{3f}',
        '\u{40}' <= end <= '\u{7e}',
    ensures
        text::visible_from(EscapeState::Csi, params.push(end) + rest) == text::sanitized(rest),
    decreases params.len(),
{
    let s = params.push(end) + rest;
    if params.len() == 0 {
        assert(s[0] == end);
        assert(s.drop_first() =~= rest);
    } else {
        let q = params.drop_first();
        assert forall|i: int| 0 <= i < q.len() implies '\u{20}' <= #[trigger] q[i]
            <= '\u{3f}' by {
            assert(q[i] == params[i + 1]);
        }
        lemma_inside_csi(q, end, rest);
        assert(s[0] == params[0]);
        assert(s.drop_first() =~= q.push(end) + rest);
    }
}

/// A control sequence with its parameters, such as one that sets a colour or
/// moves the cursor, is dropped whole, and the text round it kept whole.
pub proof fn law_control_sequences_are_dropped(
    p: Seq<char>,
    params: Seq<char>,
    end: char,
    rest: Seq<char>,
)
    requires
        plain_text(p),
        forall|i: int| 0 <= i < params.len() ==> '\u{20}' <= #[trigger] params[i] <= '\u{3f}',
        '\u{40}' <= end <= '\u{7e}',
    ensures
        text::sanitized(p + seq!['\u{1b}', '['] + params.push(end) + rest) == p + text::sanitized(
            rest,
        ),
{
    let tail = params.push(end) + rest;
    let seq_ = seq!['\u{1b}', '['] + tail;
    assert(p + seq!['\u{1b}', '['] + params.push(end) + rest =~= p + seq_);
    lemma_plain_first(p, seq_);
    lemma_inside_csi(params, end, rest);
    assert(seq_[0] == '\u{1b}');
    assert(seq_.drop_first()[0] == '[');
    assert(seq_.drop_first().drop_first() =~= tail);
    reveal_with_fuel(text::visible_from, 3);
}

proof fn lemma_inside_string(payload: Seq<char>, rest: Seq<char>)
    requires
        forall|i: int|
            0 <= i < payload.len() ==> #[trigger] payload[i] != '\u{1b}' && payload[i] != '\u{7}'
                && payload[i] != '\u{9c}',
    ensures
        text::visible_from(
            EscapeState::ControlString { osc: true },
            payload.push('\u{7}') + rest,
        ) == text::sanitized(rest),
    decreases payload.len(),
{
    let s = payload.push('\u{7}') + rest;
    if payload.len() == 0 {
        assert(s[0] == '\u{7}');
        assert(s.drop_first() =~= rest);
    } else {
        let q = payload.drop_first();
        assert forall|i: int| 0 <= i < q.len() implies #[trigger] q[i] != '\u{1b}' && q[i]
            != '\u{7}' && q[i] != '\u{9c}' by {
            assert(q[i] == payload[i + 1]);
        }
        lemma_inside_string(q, rest);
        assert(s[0] == payload[0]);
        assert(s.drop_first() =~= q.push('\u{7}') + rest);
    }
}

/// A command to the terminal, such as one that sets its title or writes its
/// clipboard, is dropped with all that it carries.
pub proof fn law_terminal_commands_are_dropped(p: Seq<char>, payload: Seq<char>, rest: Seq<char>)
    requires
        plain_text(p),
        forall|i: int|
            0 <= i < payload.len() ==> #[trigger] payload[i] != '\u{1b}' && payload[i] != '\u{7}'
                && payload[i] != '\u{9c}',
    ensures
        text::sanitized(p + seq!['\u{1b}', ']'] + payload.push('\u{7}') + rest) == p
            + text::sanitized(rest),
{
    let tail = payload.push('\u{7}') + rest;
    let seq_ = seq!['\u{1b}', ']'] + tail;
    assert(p + seq!['\u{1b}', ']'] + payload.push('\u{7}') + rest =~= p + seq_);
    lemma_plain_first(p, seq_);
    lemma_inside_string(payload, rest);
    assert(seq_[0] == '\u{1b}');
    assert(seq_.drop_first()[0] == ']');
    assert(seq_.drop_first().drop_first() =~= tail);
    reveal_with_fuel(text::visible_from, 3);
}

/// A number's notation denotes that number, in digits alone and without a
/// leading nought.
pub proof fn law_decimals_denote_their_number(n: nat)
    ensures
        chars::digits_value(chars::decimal(n)) == n,
        chars::all_digits(chars::decimal(n)),
        n > 0 ==> chars::decimal(n)[0] != '0',
        n <= usize::MAX ==> chars::parsed_count(chars::decimal(n)) == Some(n as usize),
    decreases n,
{
    let d = chars::decimal(n);
    chars::lemma_decimal_digits(n);
    assert forall|i: int| 0 <= i < d.len() implies chars::is_digit(#[trigger] d[i]) by {}
    if n < 10 {
        assert(d.drop_last() =~= Seq::<char>::empty());
        assert(chars::digits_value(d.drop_last()) == 0);
    } else {
        law_decimals_denote_their_number(n / 10);
        assert(d.drop_last() =~= chars::decimal(n / 10));
        assert(d[0] == chars::decimal(n / 10)[0]);
    }
    assert(d[0] != '+');
}

/// Trimming takes white space off both ends, all of it and nothing else.
pub proof fn law_trimming_takes_the_ends(s: Seq<char>)
    ensures
        exists|a: Seq<char>, b: Seq<char>|
            #![trigger a + chars::trim(s) + b]
            chars::blank(a) && chars::blank(b) && s == a + chars::trim(s) + b,
        chars::trim(s).len() > 0 ==> !chars::is_ws(chars::trim(s)[0]) && !chars::is_ws(
            chars::trim(s).last(),
        ),
{
    let t = chars::trim_start(s);
    let c = chars::trim(s);
    chars::lemma_trim_start(s);
    chars::lemma_trim_end(t);
    let a = s.take(s.len() - t.len());
    let b = t.skip(c.len() as int);
    assert forall|i: int| 0 <= i < a.len() implies chars::is_ws(#[trigger] a[i]) by {
        assert(a[i] == s[i]);
    }
    assert forall|i: int| 0 <= i < b.len() implies chars::is_ws(#[trigger] b[i]) by {
        assert(b[i] == t[i + c.len()]);
    }
    assert(s =~= a + c + b);
    if c.len() > 0 {
        assert(c[0] == t[0]);
    }
}

/// The words of a line are its runs of characters that are no white space, in
/// order.
pub proof fn law_words_are_runs(gap: Seq<char>, word: Seq<char>, rest: Seq<char>)
    requires
        chars::blank(gap),
        word.len() > 0,
        forall|i: int| 0 <= i < word.len() ==> !chars::is_ws(#[trigger] word[i]),
        rest.len() == 0 || chars::is_ws(rest[0]),
    ensures
        chars::words(gap + word + rest) == seq![word] + chars::words(rest),
        chars::words(gap).len() == 0,
{
    let s = gap + word + rest;
    let t = word + rest;
    assert(s.skip(gap.len() as int) =~= t);
    assert forall|i: int| 0 <= i < gap.len() implies chars::is_ws(#[trigger] s[i]) by {
        assert(s[i] == gap[i]);
    }
    chars::lemma_trim_start_is(s, gap.len() as int);
    assert forall|i: int| 0 <= i < word.len() implies !chars::is_ws(#[trigger] t[i]) by {
        assert(t[i] == word[i]);
    }
    chars::lemma_word_len_is(t, word.len() as int);
    assert(t.take(word.len() as int) =~= word);
    assert(t.skip(word.len() as int) =~= rest);
    assert(gap.skip(gap.len() as int) =~= Seq::<char>::empty());
    chars::lemma_trim_start(gap);
    if chars::trim_start(gap).len() > 0 {
        assert(chars::trim_start(gap)[0] == gap[gap.len() - chars::trim_start(gap).len()]);
    }
}

/// A text is its lines again, with a line feed behind each; none holds one.
pub proof fn law_lines_make_the_text(first: Seq<char>, rest: Seq<char>)
    requires
        forall|i: int| 0 <= i < first.len() ==> #[trigger] first[i] != '\n',
    ensures
        first.len() > 0 && first.last() == '\r' ==> chars::lines(first.push('\n') + rest)
            == seq![first.drop_last()] + chars::lines(rest),
        first.len() == 0 || first.last() != '\r' ==> chars::lines(first.push('\n') + rest)
            == seq![first] + chars::lines(rest),
        first.len() > 0 ==> chars::lines(first) == seq![first],
        chars::split_on(first.push('\n') + rest, '\n') == seq![first] + chars::split_on(
            rest,
            '\n',
        ),
        chars::split_on(first, '\n') == seq![first],
{
    let s = first.push('\n') + rest;
    let n = first.len() as int;
    assert forall|i: int| 0 <= i < n implies #[trigger] s[i] != '\n' by {
        assert(s[i] == first[i]);
    }
    assert(s[n] == '\n');
    chars::lemma_first_index_is(s, '\n', n);
    chars::lemma_first_index_is(first, '\n', n);
    assert(s.take(n) =~= first);
    assert(s.skip(n + 1) =~= rest);
}

/// Letters from A to Z are lowered, and nothing else is changed.
pub proof fn law_lower_case(s: Seq<char>, i: int)
    requires
        0 <= i < s.len(),
    ensures
        chars::lowered(s).len() == s.len(),
        !('A' <= s[i] <= 'Z') ==> chars::lowered(s)[i] == s[i],
        'A' <= s[i] <= 'Z' ==> 'a' <= chars::lowered(s)[i] <= 'z' && chars::lowered(s)[i] as int
            - s[i] as int == 32,
        chars::lowered(chars::lowered(s)) == chars::lowered(s),
{
    assert(chars::lowered(chars::lowered(s)) =~= chars::lowered(s));
}

/// A path is shown by what stands behind its last separator.
pub proof fn law_paths_show_their_end(dir: Seq<char>, name: Seq<char>)
    requires
        name.len() > 0,
        forall|i: int| 0 <= i < name.len() ==> #[trigger] name[i] != '/' && name[i] != '\\',
    ensures
        status::short_path(dir.push('/') + name) == name,
        status::short_path(dir.push('\\') + name) == name,
        status::short_path(name) == name,
        status::short_path(dir.push('/')) == dir.push('/'),
{
    lemma_trailing(dir.push('/'), name);
    lemma_trailing(dir.push('\\'), name);
    lemma_trailing(Seq::empty(), name);
    assert(Seq::<char>::empty() + name =~= name);
}

proof fn lemma_trailing(lead: Seq<char>, name: Seq<char>)
    requires
        lead.len() == 0 || lead.last() == '/' || lead.last() == '\\',
        forall|i: int| 0 <= i < name.len() ==> #[trigger] name[i] != '/' && name[i] != '\\',
    ensures
        status::trailing_name(lead + name) == name,
    decreases name.len(),
{
    let s = lead + name;
    if name.len() == 0 {
        assert(s =~= lead);
    } else {
        let init = name.drop_last();
        assert forall|i: int| 0 <= i < init.len() implies #[trigger] init[i] != '/' && init[i]
            != '\\' by {
            assert(init[i] == name[i]);
        }
        lemma_trailing(lead, init);
        assert(s.drop_last() =~= lead + init);
        assert(s.last() == name[name.len() - 1]);
        assert(init.push(name.last()) =~= name);
    }
}

/// A session is known by the first eight characters of an id in ASCII, or by all
/// of a shorter one.
pub proof fn law_short_ids(id: Seq<char>)
    requires
        forall|i: int| 0 <= i < id.len() ==> (#[trigger] id[i] as u32) < 0x80,
    ensures
        id.len() >= 8 ==> session::short(id) == id.take(8),
        id.len() < 8 ==> session::short(id) == id,
{
    lemma_ascii_bytes(id);
    if id.len() >= 8 {
        let head = id.take(8);
        assert forall|i: int| 0 <= i < head.len() implies (#[trigger] head[i] as u32) < 0x80 by {
            assert(head[i] == id[i]);
        }
        lemma_ascii_bytes(head);
        chars::lemma_chars_before_is(id, 8);
    }
}

proof fn lemma_ascii_bytes(s: Seq<char>)
    requires
        forall|i: int| 0 <= i < s.len() ==> (#[trigger] s[i] as u32) < 0x80,
    ensures
        chars::byte_len(s) == s.len(),
    decreases s.len(),
{
    if s.len() > 0 {
        let t = s.drop_first();
        assert forall|i: int| 0 <= i < t.len() implies (#[trigger] t[i] as u32) < 0x80 by {
            assert(t[i] == s[i + 1]);
        }
        lemma_ascii_bytes(t);
        assert((s[0] as u32) < 0x80);
    }
}

/// A styled line takes just the rows that its columns fill, and an empty one a
/// row of its own.
pub proof fn law_wrapped_rows(line: Seq<lines::SpanView>, w: nat)
    requires
        w > 0,
    ensures
        text::line_width(line) == 0 ==> text::wrapped_rows(line, w) == 1,
        text::line_width(line) > 0 ==> (text::wrapped_rows(line, w) - 1) * w < text::line_width(
            line,
        ) <= text::wrapped_rows(line, w) * w,
{
    let n = text::line_width(line) as int;
    if n > 0 {
        let d = w as int;
        let m = n + d - 1;
        let q = m / d;
        vstd::arithmetic::div_mod::lemma_fundamental_div_mod(m, d);
        vstd::arithmetic::div_mod::lemma_mod_bound(m, d);
        assert((q - 1) * d < n <= q * d) by (nonlinear_arith)
            requires
                m == d * q + m % d,
                0 <= m % d < d,
                m == n + d - 1,
        ;
    }
}

/// The last forty lines of the transcript, which a suggestion goes by.
pub open spec fn lately(ls: Seq<OutputView>, i: int) -> bool {
    0 <= i < ls.len() && i >= ls.len() - 40
}

proof fn lemma_latest(ls: Seq<OutputView>, type_: Seq<char>)
    ensures
        match completion::latest(ls, type_) {
            Some(l) => l.type_ == type_ && ls.contains(l),
            None => forall|j: int| 0 <= j < ls.len() ==> (#[trigger] ls[j]).type_ != type_,
        },
        (exists|j: int| 0 <= j < ls.len() && (#[trigger] ls[j]).type_ == type_)
            ==> completion::latest(ls, type_) is Some,
        ls.len() > 0 && ls.last().type_ == type_ ==> completion::latest(ls, type_) == Some(
            ls.last(),
        ),
    decreases ls.len(),
{
    if ls.len() > 0 {
        let init = ls.drop_last();
        let n = ls.len() - 1;
        lemma_latest(init, type_);
        if ls.last().type_ == type_ {
            assert(ls[n] == ls.last());
        } else {
            match completion::latest(init, type_) {
                Some(l) => {
                    let j = choose|j: int| 0 <= j < init.len() && init[j] == l;
                    assert(ls[j] == l);
                },
                None => {
                    assert forall|j: int| 0 <= j < ls.len() implies (#[trigger] ls[j]).type_
                        != type_ by {
                        if j < n {
                            assert(init[j] == ls[j]);
                        }
                    }
                },
            }
        }
    }
}

/// Whether none of the last lines has a type.
pub open spec fn lately_no(ls: Seq<OutputView>, type_: Seq<char>) -> bool {
    forall|i: int| lately(ls, i) ==> (#[trigger] ls[i]).type_ != type_
}

/// The suggestion goes by what happened last: an error is to be retried, a
/// command's output to be summed up, a tool's result to be taken further, a plan
/// to be continued; in an empty session it asks for an overview.
pub proof fn law_suggestions_follow_the_conversation(ls: Seq<OutputView>)
    ensures
        ({
            let s = completion::idle_suggestion(ls);
            &&& !lately_no(ls, "error"@) ==> s == "Retry the last step and fix any errors you hit"@
            &&& lately_no(ls, "error"@) && ls.len() > 0 && ls.last().type_ == "tool_use"@
                && ls.last().tool_name == "shell"@ ==> s
                == "Summarize the command output and what we should do next"@
            &&& lately_no(ls, "error"@) && ls.len() > 0 && ls.last().type_ == "tool_use"@
                && ls.last().tool_name == "grep"@ ==> s == "Based on the "@ + "grep"@
                + " results, explain what you found and recommend next steps"@
            &&& lately_no(ls, "error"@) && lately_no(ls, "tool_use"@) && lately_no(ls, "user"@)
                && !lately_no(ls, "text"@) ==> s
                == "Continue with the next step from your previous plan"@
            &&& lately_no(ls, "error"@) && lately_no(ls, "tool_use"@) && ls.len() > 0
                && ls.last().type_ == "user"@ && chars::has(
                chars::lowered(ls.last().content),
                "test"@,
            ) ==> s == "Run the tests, fix any failures, and report the final result"@
            &&& ls.len() == 0 ==> s
                == "Give me an overview of this codebase and how it is organized"@
        }),
{
    let near = completion::recent(ls);
    lemma_near(ls, "error"@);
    lemma_near(ls, "tool_use"@);
    lemma_near(ls, "user"@);
    lemma_near(ls, "text"@);
    lemma_latest(near, "error"@);
    lemma_latest(near, "tool_use"@);
    lemma_latest(near, "user"@);
    lemma_latest(near, "text"@);
    if ls.len() > 0 {
        assert(near.last() == ls.last());
    }
    reveal_strlit("shell");
    reveal_strlit("grep");
    assert("shell"@.len() != "grep"@.len());
}

proof fn lemma_near(ls: Seq<OutputView>, type_: Seq<char>)
    ensures
        lately_no(ls, type_) <==> completion::latest(completion::recent(ls), type_) is None,
{
    let near = completion::recent(ls);
    let k: int = if ls.len() <= 40 {
        0
    } else {
        ls.len() - 40
    };
    lemma_latest(near, type_);
    if lately_no(ls, type_) {
        if completion::latest(near, type_) is Some {
            let l = completion::latest(near, type_)->0;
            let j = choose|j: int| 0 <= j < near.len() && near[j] == l;
            assert(lately(ls, j + k));
            assert(ls[j + k] == l);
        }
    } else {
        let i = choose|i: int| lately(ls, i) && (#[trigger] ls[i]).type_ == type_;
        assert(near[i - k] == ls[i]);
    }
}

proof fn lemma_skill_rows(v: Seq<listings::Skill>, i: int)
    requires
        0 <= i < v.len(),
    ensures
        chars::has(
            listings::skill_rows(v),
            "  "@ + v[i].name@ + " - "@ + v[i].description@ + "\n"@,
        ),
    decreases v.len(),
{
    let row = "  "@ + v[i].name@ + " - "@ + v[i].description@ + "\n"@;
    let head = listings::skill_rows(v.drop_last());
    if i < v.len() - 1 {
        let tail = "  "@ + v.last().name@ + " - "@ + v.last().description@ + "\n"@;
        assert(v.drop_last()[i] == v[i]);
        lemma_skill_rows(v.drop_last(), i);
        session_laws::lemma_has_left(head, tail, row);
    } else {
        session_laws::lemma_has_itself(row);
        session_laws::lemma_has_right(head, row, row);
    }
}

/// The list of skills gives each by its name and what it is for.
pub proof fn law_every_skill_is_listed(list: listings::SkillList, i: int)
    requires
        0 <= i < list.skills@.len(),
    ensures
        chars::has(
            listings::skills_text(list),
            "  "@ + list.skills@[i].name@ + " - "@ + list.skills@[i].description@ + "\n"@,
        ),
{
    let row = "  "@ + list.skills@[i].name@ + " - "@ + list.skills@[i].description@ + "\n"@;
    let head = "Skills ("@ + chars::decimal(list.skills@.len()) + ") from "@ + list.dir@ + ":\n"@;
    let rows = listings::skill_rows(list.skills@);
    let tail = "Load in-chat with the skill tool: {\"name\":\"...\"}"@;
    lemma_skill_rows(list.skills@, i);
    session_laws::lemma_has_right(head, rows, row);
    session_laws::lemma_has_left(head + rows, tail, row);
}

proof fn lemma_server_place(v: Seq<listings::McpServer>, i: int, k: int)
    requires
        0 <= i <= k < v.len(),
    ensures
        ({
            let p = listings::server_from(v, i, v[k].name@);
            i <= p <= k && v[p].name@ == v[k].name@
        }),
    decreases k - i,
{
    if v[i].name@ != v[k].name@ {
        lemma_server_place(v, i + 1, k);
    }
}

proof fn lemma_server_rows(v: Seq<listings::McpServer>, names: Seq<Seq<char>>, j: int, row: Seq<char>)
    requires
        0 <= j < names.len(),
        listings::server_from(v, 0, names[j]) >= 0,
        row == listings::server_row(v[listings::server_from(v, 0, names[j])]),
    ensures
        chars::has(listings::server_rows(v, names), row),
    decreases names.len(),
{
    let head = listings::server_rows(v, names.drop_last());
    let p = listings::server_from(v, 0, names.last());
    let tail = if p >= 0 {
        listings::server_row(v[p])
    } else {
        seq![]
    };
    if j < names.len() - 1 {
        assert(names.drop_last()[j] == names[j]);
        lemma_server_rows(v, names.drop_last(), j, row);
        session_laws::lemma_has_left(head, tail, row);
    } else {
        session_laws::lemma_has_itself(row);
        session_laws::lemma_has_right(head, row, row);
    }
}

/// The list of servers gives each, by its name, with whether it is enabled and
/// the command that starts it.
pub proof fn law_every_server_is_listed(list: listings::McpList, k: int)
    requires
        0 <= k < list.servers@.len(),
        forall|j: int|
            0 <= j < k ==> (#[trigger] list.servers@[j]).name@ != list.servers@[k].name@,
    ensures
        ({
            let s = list.servers@[k];
            let state = if s.disabled {
                "disabled"@
            } else {
                "enabled"@
            };
            chars::has(
                listings::mcp_text(list),
                "  "@ + s.name@ + " ["@ + state + "] - "@ + s.command@,
            )
        }),
{
    let v = list.servers@;
    let s = v[k];
    let names = listings::server_names(v);
    let sorted = sorting::texts_sorted(names);
    let row = listings::server_row(s);
    lemma_server_place(v, 0, k);
    let p = listings::server_from(v, 0, s.name@);
    assert(p == k) by {
        if p < k {
            assert(v[p].name@ == s.name@);
        }
    }
    sorting::lemma_text_order();
    names.lemma_sort_by_ensures(sorting::text_order());
    names.to_multiset_ensures();
    sorted.to_multiset_ensures();
    assert(names[k] == s.name@);
    assert(names.contains(s.name@));
    assert(sorted.to_multiset().contains(s.name@));
    assert(sorted.contains(s.name@));
    let j = choose|j: int| 0 <= j < sorted.len() && sorted[j] == s.name@;
    lemma_server_rows(v, sorted, j, row);
    let rows = listings::server_rows(v, sorted);
    let state = if s.disabled {
        "disabled"@
    } else {
        "enabled"@
    };
    let args = match s.args {
        Some(a) => " "@ + a@,
        None => seq![],
    };
    let lead = "  "@ + s.name@ + " ["@ + state + "] - "@ + s.command@;
    assert(row == lead + args + "\n"@);
    session_laws::lemma_has_itself(lead);
    session_laws::lemma_has_left(lead, args, lead);
    session_laws::lemma_has_left(lead + args, "\n"@, lead);
    lemma_has_inner(rows, row, lead);
    session_laws::lemma_has_right("Configured MCP servers:\n"@, rows, lead);
    session_laws::lemma_has_left(
        "Configured MCP servers:\n"@ + rows,
        "Tools register at startup as mcp_<server>_<tool> (permission required)."@,
        lead,
    );
}

proof fn lemma_has_inner(s: Seq<char>, t: Seq<char>, p: Seq<char>)
    requires
        chars::has(s, t),
        chars::has(t, p),
    ensures
        chars::has(s, p),
{
    let i = choose|i: int| chars::occurs_at(s, t, i);
    let j = choose|j: int| chars::occurs_at(t, p, j);
    assert(s.subrange(i + j, i + j + p.len()) =~= s.subrange(i, i + t.len()).subrange(
        j,
        j + p.len(),
    ));
    assert(chars::occurs_at(s, p, i + j));
}

/// A saved API key leads on to the models where a change of provider waits for
/// it, and else changes nothing but the transcript; one that could not be saved
/// ends the change.
pub proof fn law_a_saved_key_leads_on(
    m: TuiModel,
    target: Seq<char>,
    tail: Seq<char>,
    error: Seq<char>,
)
    ensures
        ({
            let saved = m.key_saved(target, tail);
            let failed = m.key_not_saved(target, error);
            &&& m.account.pending_model_after_auth ==> saved.pickers.show_model_picker
                && !saved.account.pending_model_after_auth
            &&& !m.account.pending_model_after_auth ==> saved.pickers == m.pickers && saved.account
                == m.account
            &&& m.account.pending_model_after_auth ==> !failed.account.pending_model_after_auth
                && failed.account.pending_provider_selection is None
            &&& failed.pickers == m.pickers
            &&& failed.chat.output_lines.last().type_ == "error"@
            &&& saved.chat.output_lines.last().type_ == "system"@
            &&& saved.account.provider == m.account.provider
            &&& saved.account.model == m.account.model
            &&& saved.outbox == m.outbox && failed.outbox == m.outbox
        }),
{
    reveal(TuiModel::say);
}

/// The removal of a key is reported as it went, and the provider list shows
/// which keys are left.
pub proof fn law_a_removal_is_reported(m: TuiModel, name: Seq<char>, error: Seq<char>)
    ensures
        ({
            let gone = m.removal_reported(name, Ok(true));
            let none = m.removal_reported(name, Ok(false));
            let failed = m.removal_reported(name, Err(error));
            &&& chars::begins(
                gone.chat.output_lines.last().content,
                "Removed saved API key for "@ + name + "."@,
            )
            &&& none.chat.output_lines.last().content == "No saved API key for "@ + name + "."@
            &&& failed.chat.output_lines.last().type_ == "error"@
            &&& failed.chat.output_lines.last().content == "Failed to remove API key for "@ + name
                + ": "@ + error
            &&& gone.outbox == m.outbox && gone.account == m.account
            &&& forall|i: int|
                0 <= i < m.pickers.provider_picker_list.len() ==> #[trigger] gone.pickers.provider_picker_keys[i]
                    == m.host.known(m.pickers.provider_picker_list[i]).usable_credential
        }),
{
    reveal(TuiModel::say);
    let p = "Removed saved API key for "@ + name + "."@;
    let gone = m.removal_reported(name, Ok(true));
    assert(gone.chat.output_lines.last().content.take(p.len() as int) =~= p);
}

/// Padding keeps a text that fits, and of one that does not the part that does;
/// the rest is blanks.
pub proof fn law_padding_keeps_the_text(s: Seq<char>, w: nat)
    ensures
        text::width(s) <= w ==> chars::begins(text::padded(s, w), s),
        forall|i: int|
            0 <= i < text::padded(s, w).len() ==> #[trigger] text::padded(s, w)[i] == ' ' || (i
                < s.len() && text::padded(s, w)[i] == s[i]),
{
    text::lemma_fit_len(s, w as int);
    if text::width(s) <= w {
        assert(text::padded(s, w).take(s.len() as int) =~= s);
    }
}

/// A summary is cut to its first characters, and a cut is shown.
pub proof fn law_summaries_are_cut(s: Seq<char>, max: nat)
    ensures
        s.len() <= max ==> text::summary_cut(s, max) == s,
        s.len() > max ==> text::summary_cut(s, max) == s.take(max as int) + seq!['…'],
{
    if s.len() > max {
        assert(s.take(max as int).push('…') =~= s.take(max as int) + seq!['…']);
    }
}

/// A value on one line has each line break as one arrow, and all else as it is.
pub proof fn law_one_line(a: Seq<char>, b: Seq<char>)
    requires
        forall|i: int| 0 <= i < a.len() ==> #[trigger] a[i] != '\n' && a[i] != '\r',
    ensures
        tool_display::one_line(a) == a,
        tool_display::one_line(a + seq!['\n'] + b) == a + seq!['↵'] + tool_display::one_line(b),
        tool_display::one_line(a + seq!['\r', '\n'] + b) == a + seq!['↵']
            + tool_display::one_line(b),
{
    lemma_one_line_from(a, Seq::empty());
    lemma_one_line_from(a, seq!['\n'] + b);
    lemma_one_line_from(a, seq!['\r', '\n'] + b);
    assert(a + Seq::<char>::empty() =~= a);
    assert(a + tool_display::one_line(Seq::empty()) =~= a);
    assert(a + seq!['\n'] + b =~= a + (seq!['\n'] + b));
    assert(a + seq!['\r', '\n'] + b =~= a + (seq!['\r', '\n'] + b));
    assert((seq!['\n'] + b).skip(1) =~= b);
    assert((seq!['\r', '\n'] + b).skip(2) =~= b);
    let rest = tool_display::one_line(b);
    assert(a + (seq!['↵'] + rest) =~= a + seq!['↵'] + rest);
}

proof fn lemma_one_line_from(a: Seq<char>, s: Seq<char>)
    requires
        forall|i: int| 0 <= i < a.len() ==> #[trigger] a[i] != '\n' && a[i] != '\r',
    ensures
        tool_display::one_line(a + s) == a + tool_display::one_line(s),
    decreases a.len(),
{
    if a.len() == 0 {
        assert(a + s =~= s);
        assert(a + tool_display::one_line(s) =~= tool_display::one_line(s));
    } else {
        let t = a.drop_first();
        assert forall|i: int| 0 <= i < t.len() implies #[trigger] t[i] != '\n' && t[i]
            != '\r' by {
            assert(t[i] == a[i + 1]);
        }
        lemma_one_line_from(t, s);
        assert((a + s)[0] == a[0]);
        assert((a + s).skip(1) =~= t + s);
        assert(seq![a[0]] + (t + tool_display::one_line(s)) =~= a + tool_display::one_line(s));
    }
}

/// What the host lists, or runs, is told in full; what it could not, by its
/// error.
pub proof fn law_answers_of_the_host_are_told(m: TuiModel, body: Seq<char>, error: Seq<char>)
    ensures
        ({
            let listed = m.listing_reported(Ok(body)).chat.output_lines;
            let not_listed = m.listing_reported(Err(error)).chat.output_lines;
            let run = m.reset_reported(Ok(body)).chat.output_lines;
            let not_run = m.reset_reported(Err(error)).chat.output_lines;
            let n = m.chat.output_lines.len();
            &&& listed.len() == n + 1 && listed.last().type_ == "system"@ && listed.last().content
                == body
            &&& run.len() == n + 1 && run.last().type_ == "system"@ && run.last().content == body
            &&& not_listed.len() == n + 1 && not_listed.last().type_ == "error"@
                && not_listed.last().content == "Error loading configuration: "@ + error
            &&& not_run.len() == n + 1 && not_run.last().type_ == "error"@
                && not_run.last().content == error
        }),
{
    reveal(TuiModel::say);
}

/// Plain ASCII takes one column, the ideographs two, and a combining accent
/// none.
pub proof fn law_columns(c: char)
    ensures
        ' ' <= c <= '~' ==> text::columns(c) == 1,
        0x4E00 <= c as u32 <= 0xA4CF ==> text::columns(c) == 2,
        0x0300 <= c as u32 <= 0x036F ==> text::columns(c) == 0,
        text::columns(c) <= 2,
{
    reveal(text::columns);
    let z = text::ZERO_WIDTH_RANGES@;
    let w = text::WIDE_RANGES@;
    assert(z[0] == (0x0300u32, 0x036Fu32));
    assert(z[1] == (0x1AB0u32, 0x1AFFu32));
    assert(z[2] == (0x1DC0u32, 0x1DFFu32));
    assert(z[3] == (0x200Du32, 0x200Du32));
    assert(z[4] == (0x20D0u32, 0x20FFu32));
    assert(z[5] == (0xFE00u32, 0xFE0Fu32));
    assert(z[6] == (0xFEFFu32, 0xFEFFu32));
    assert(z[7] == (0xE0100u32, 0xE01EFu32));
    assert(w[12] == (0x4E00u32, 0xA4CFu32));
}

/// Where no error and no tool was seen lately, the suggestion follows up on what
/// was asked for last: tests before a commit or a push, these before a fix, and
/// a fix before a refactoring.
pub proof fn law_suggestions_follow_up_the_request(ls: Seq<OutputView>)
    requires
        lately_no(ls, "error"@),
        lately_no(ls, "tool_use"@),
        ls.len() > 0,
        ls.last().type_ == "user"@,
    ensures
        ({
            let s = completion::idle_suggestion(ls);
            let asked = chars::lowered(ls.last().content);
            let tests = chars::has(asked, "test"@);
            let commits = chars::has(asked, "commit"@) || chars::has(asked, "push"@);
            let fixes = chars::has(asked, "fix"@) || chars::has(asked, "bug"@);
            &&& !tests && commits ==> s
                == "Review the git status and diff, then commit and push if the changes look good"@
            &&& !tests && !commits && fixes ==> s
                == "Verify the fix works end-to-end and check for related regressions"@
            &&& !tests && !commits && !fixes && chars::has(asked, "refactor"@) ==> s
                == "Continue the refactor and keep behavior covered by tests"@
            &&& !tests && !commits && !fixes && !chars::has(asked, "refactor"@) && lately_no(
                ls,
                "text"@,
            ) ==> s == "Give me an overview of this codebase and how it is organized"@
        }),
{
    let near = completion::recent(ls);
    lemma_near(ls, "error"@);
    lemma_near(ls, "tool_use"@);
    lemma_near(ls, "text"@);
    lemma_latest(near, "user"@);
    assert(near.last() == ls.last());
}

} // verus!
