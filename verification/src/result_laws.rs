//! What the transcript says of a tool's call and of its result.

use crate::chars;
use crate::text;
use crate::tool_display;
use crate::tool_display::FieldView;
use vstd::prelude::*;

verus! {

/// The lines of a tool's output that hold more than white space.
pub open spec fn written(content: Seq<char>) -> Seq<Seq<char>> {
    chars::lines(chars::trim(content)).filter(|l: Seq<char>| !chars::blank(l))
}

proof fn lemma_written(ls: Seq<Seq<char>>)
    ensures
        tool_display::inked(ls) == ls.filter(|l: Seq<char>| !chars::blank(l)),
    decreases ls.len(),
{
    reveal(Seq::filter);
    if ls.len() > 0 {
        lemma_written(ls.drop_last());
    }
}

/// Output that is not all white space has a line that holds more.
proof fn lemma_something_is_written(content: Seq<char>)
    requires
        !chars::blank(content),
    ensures
        chars::trim(content).len() > 0,
        written(content).len() > 0,
{
    let c = chars::trim(content);
    let ls = chars::lines(c);
    chars::lemma_trim_blank(content);
    chars::lemma_trim_end(chars::trim_start(content));
    chars::lemma_lines_of_trimmed(c);
    lemma_written(ls);
    let last = ls.last();
    assert(last[last.len() - 1] == c.skip(c.len() - last.len())[last.len() - 1]);
    assert(!chars::is_ws(last[last.len() - 1]));
    assert(!chars::blank(last));
}

proof fn lemma_kinds()
    ensures
        "grep"@ != "glob"@,
        "grep"@ != "file_read"@,
        "grep"@ != "shell"@,
        "glob"@ != "file_read"@,
        "glob"@ != "shell"@,
        "shell"@ != "file_read"@,
{
    reveal_strlit("grep");
    reveal_strlit("glob");
    reveal_strlit("file_read");
    reveal_strlit("shell");
    assert("grep"@[1] != "glob"@[1]);
    assert("grep"@.len() != "file_read"@.len());
    assert("grep"@.len() != "shell"@.len());
    assert("glob"@.len() != "file_read"@.len());
    assert("glob"@.len() != "shell"@.len());
    assert("shell"@.len() != "file_read"@.len());
}

/// A search that found several lines says how many; one that found a single
/// line shows it, cut to a hundred characters. It is said to have found nothing
/// only where the output itself is that line.
pub proof fn law_searches_are_counted(content: Seq<char>)
    requires
        !chars::blank(content),
    ensures
        ({
            let found = written(content);
            let shown = tool_display::result_body("grep"@, content);
            &&& found.len() >= 1
            &&& found.len() >= 2 ==> shown == chars::decimal(found.len()) + " matches"@
            &&& found.len() == 1 && found[0].len() <= 100 ==> shown == found[0]
            &&& found.len() == 1 && found[0].len() > 100 ==> shown == found[0].take(100)
            &&& shown == "No matches."@ ==> found == seq!["No matches."@]
        }),
{
    let c = chars::trim(content);
    let ls = chars::lines(c);
    let found = written(content);
    let shown = tool_display::result_body("grep"@, content);
    lemma_written(ls);
    lemma_something_is_written(content);
    lemma_kinds();
    reveal_strlit("No matches.");
    if found.len() >= 2 {
        chars::lemma_decimal_digits(found.len());
        assert(shown[0] == chars::decimal(found.len())[0]);
        assert("No matches."@[0] == 'N');
        assert(shown != "No matches."@);
    } else if found[0].len() > 100 {
        assert(shown.len() == 100);
    }
    if shown == "No matches."@ {
        assert(found =~= seq!["No matches."@]);
    }
}

proof fn lemma_last_with(ls: Seq<Seq<char>>, p: Seq<char>)
    ensures
        match tool_display::last_with(ls, p) {
            Some(l) => exists|k: int|
                0 <= k < ls.len() && #[trigger] ls[k] == l && chars::has(l, p) && forall|j: int|
                    k < j < ls.len() ==> !chars::has(#[trigger] ls[j], p),
            None => forall|j: int| 0 <= j < ls.len() ==> !chars::has(#[trigger] ls[j], p),
        },
    decreases ls.len(),
{
    if ls.len() > 0 {
        let init = ls.drop_last();
        let n = ls.len() - 1;
        lemma_last_with(init, p);
        if chars::has(ls.last(), p) {
            assert(ls[n] == ls.last());
        } else {
            match tool_display::last_with(init, p) {
                Some(l) => {
                    let k = choose|k: int|
                        0 <= k < init.len() && #[trigger] init[k] == l && chars::has(l, p)
                            && forall|j: int|
                            k < j < init.len() ==> !chars::has(#[trigger] init[j], p);
                    assert(ls[k] == l);
                    assert forall|j: int| k < j < ls.len() implies !chars::has(
                        #[trigger] ls[j],
                        p,
                    ) by {
                        if j < n {
                            assert(init[j] == ls[j]);
                        }
                    }
                },
                None => {
                    assert forall|j: int| 0 <= j < ls.len() implies !chars::has(
                        #[trigger] ls[j],
                        p,
                    ) by {
                        if j < n {
                            assert(init[j] == ls[j]);
                        }
                    }
                },
            }
        }
    }
}

/// A file that was read shows as the last line that says which part it was;
/// without one, as the number of lines.
pub proof fn law_reads_say_how_much(content: Seq<char>)
    requires
        !chars::blank(content),
    ensures
        ({
            let ls = chars::lines(chars::trim(content));
            let shown = tool_display::result_body("file_read"@, content);
            let told = |l: Seq<char>| chars::has(l, "(showing lines"@);
            ||| exists|k: int|
                0 <= k < ls.len() && #[trigger] ls[k] == shown && told(ls[k]) && forall|j: int|
                    k < j < ls.len() ==> !told(#[trigger] ls[j])
            ||| (forall|j: int| 0 <= j < ls.len() ==> !told(#[trigger] ls[j])) && shown == "("@
                + chars::decimal(written(content).len()) + " lines read)"@
        }),
{
    let ls = chars::lines(chars::trim(content));
    lemma_written(ls);
    lemma_something_is_written(content);
    lemma_last_with(ls, "(showing lines"@);
    let told = |l: Seq<char>| chars::has(l, "(showing lines"@);
    let shown = tool_display::result_body("file_read"@, content);
    match tool_display::last_with(ls, "(showing lines"@) {
        Some(l) => {
            let k = choose|k: int|
                0 <= k < ls.len() && #[trigger] ls[k] == l && chars::has(l, "(showing lines"@)
                    && forall|j: int|
                    k < j < ls.len() ==> !chars::has(#[trigger] ls[j], "(showing lines"@);
            assert(ls[k] == shown && told(ls[k]));
            assert(forall|j: int| k < j < ls.len() ==> !told(#[trigger] ls[j]));
        },
        None => {
            assert(forall|j: int| 0 <= j < ls.len() ==> !told(#[trigger] ls[j]));
        },
    }
}

proof fn lemma_no_summary(ls: Seq<Seq<char>>)
    requires
        forall|j: int| 0 <= j < ls.len() ==> !tool_display::sums_up(#[trigger] ls[j]),
    ensures
        tool_display::last_summary(ls) is None,
    decreases ls.len(),
{
    if ls.len() > 0 {
        let init = ls.drop_last();
        assert forall|j: int| 0 <= j < init.len() implies !tool_display::sums_up(
            #[trigger] init[j],
        ) by {
            assert(init[j] == ls[j]);
        }
        lemma_no_summary(init);
        assert(ls[ls.len() - 1] == ls.last());
    }
}

/// A line that speaks of a number of files found.
pub open spec fn tells_count(line: Seq<char>, n: nat) -> bool {
    chars::trim(line) == chars::decimal(n) + " result(s)"@
}

/// A search for files that found none says so; one whose last line gives the
/// count shows that count; one without a line that sums it up shows the number
/// of lines.
pub proof fn law_found_files_are_counted(content: Seq<char>, n: nat)
    requires
        !chars::blank(content),
    ensures
        ({
            let c = chars::trim(content);
            let ls = chars::lines(c);
            let shown = tool_display::result_body("glob"@, content);
            &&& chars::has(c, "No matches"@) ==> shown == "No matches found."@
            &&& !chars::has(c, "No matches"@) && tells_count(ls.last(), n) ==> shown
                == chars::decimal(n) + " matches"@
            &&& !chars::has(c, "No matches"@) && (forall|j: int|
                0 <= j < ls.len() ==> !chars::has(#[trigger] ls[j], "result(s)"@) && !chars::has(
                    ls[j],
                    " total)"@,
                ) && chars::count_of(ls[j], '…') == 0) ==> shown == chars::decimal(
                written(content).len(),
            ) + " matches"@
        }),
{
    let c = chars::trim(content);
    let ls = chars::lines(c);
    lemma_written(ls);
    lemma_something_is_written(content);
    lemma_kinds();
    chars::lemma_trim_end(chars::trim_start(content));
    chars::lemma_lines_of_trimmed(c);
    if tells_count(ls.last(), n) {
        lemma_count_line(n);
    }
    if forall|j: int|
        0 <= j < ls.len() ==> !chars::has(#[trigger] ls[j], "result(s)"@) && !chars::has(
            ls[j],
            " total)"@,
        ) && chars::count_of(ls[j], '…') == 0 {
        assert forall|j: int| 0 <= j < ls.len() implies !tool_display::sums_up(
            #[trigger] ls[j],
        ) by {
            lemma_trim_holds_less(ls[j], "result(s)"@);
            lemma_trim_holds_less(ls[j], " total)"@);
            lemma_no_ellipsis(ls[j]);
        }
        lemma_no_summary(ls);
    }
}

/// What stands in a trimmed line stands in the line.
proof fn lemma_trim_holds_less(l: Seq<char>, p: Seq<char>)
    ensures
        chars::has(chars::trim(l), p) ==> chars::has(l, p),
{
    let t = chars::trim_start(l);
    let c = chars::trim(l);
    chars::lemma_trim_start(l);
    chars::lemma_trim_end(t);
    if chars::has(c, p) {
        let i = choose|i: int| chars::occurs_at(c, p, i);
        let k = l.len() - t.len();
        assert(l.subrange(i + k, i + k + p.len()) =~= c.subrange(i, i + p.len()));
        assert(chars::occurs_at(l, p, i + k));
    }
}

proof fn lemma_counted(s: Seq<char>, c: char, i: int)
    requires
        0 <= i < s.len(),
        s[i] == c,
    ensures
        chars::count_of(s, c) > 0,
    decreases s.len(),
{
    if i < s.len() - 1 {
        lemma_counted(s.drop_last(), c, i);
    }
}

proof fn lemma_no_ellipsis(l: Seq<char>)
    requires
        chars::count_of(l, '…') == 0,
    ensures
        chars::trim(l).len() > 0 ==> chars::trim(l)[0] != '…',
{
    let t = chars::trim_start(l);
    chars::lemma_trim_start(l);
    chars::lemma_trim_end(t);
    if chars::trim(l).len() > 0 && chars::trim(l)[0] == '…' {
        assert(l[l.len() - t.len()] == '…');
        lemma_counted(l, '…', l.len() - t.len());
    }
}

proof fn lemma_count_line(n: nat)
    ensures
        chars::has(chars::decimal(n) + " result(s)"@, "result(s)"@),
        tool_display::clean_count(chars::decimal(n) + " result(s)"@) == chars::decimal(n)
            + " matches"@,
{
    let d = chars::decimal(n);
    let s = d + " result(s)"@;
    reveal_strlit(" result(s)");
    reveal_strlit("result(s)");
    chars::lemma_decimal_digits(n);
    assert(s.subrange(d.len() as int + 1, d.len() as int + 10) =~= "result(s)"@);
    assert(chars::occurs_at(s, "result(s)"@, d.len() as int + 1));
    assert(s.take(s.len() - " result(s)"@.len()) =~= d);
    assert(s.subrange(d.len() as int, s.len() as int) =~= " result(s)"@);
    assert(chars::all_digits(d)) by {
        assert forall|i: int| 0 <= i < d.len() implies chars::is_digit(#[trigger] d[i]) by {}
    }
}

/// Output of a command of up to five lines is shown whole. Of a longer one the
/// first two lines and the last three are shown, and between them how many are
/// not.
pub proof fn law_output_shows_both_ends(content: Seq<char>)
    requires
        !chars::blank(content),
    ensures
        ({
            let c = chars::trim(content);
            let ls = chars::lines(c);
            let n = ls.len();
            let shown = tool_display::result_body("shell"@, content);
            &&& n <= 5 ==> shown == c
            &&& n > 5 ==> shown == ls[0] + "\n"@ + ls[1] + "\n"@ + ("… ("@ + chars::decimal(
                (n - 5) as nat,
            ) + " lines omitted) …\n"@) + ls[n - 3] + "\n"@ + ls[n - 2] + "\n"@ + ls[n - 1]
        }),
{
    let c = chars::trim(content);
    let ls = chars::lines(c);
    let n = ls.len();
    lemma_something_is_written(content);
    lemma_kinds();
    chars::lemma_trim_end(chars::trim_start(content));
    chars::lemma_lines_of_trimmed(c);
    if n > 5 {
        let a = ls.take(2);
        let b = ls.skip(n - 3);
        let note = "… ("@ + chars::decimal((n - 5) as nat) + " lines omitted) …\n"@;
        lemma_two_terminated(ls[0], ls[1]);
        assert(a =~= seq![ls[0], ls[1]]);
        lemma_three_terminated(ls[n - 3], ls[n - 2], ls[n - 1]);
        assert(b =~= seq![ls[n - 3], ls[n - 2], ls[n - 1]]);
        let last = ls[n - 1];
        let up = ls[0] + "\n"@ + ls[1] + "\n"@ + note;
        let whole = up + (ls[n - 3] + "\n"@ + ls[n - 2] + "\n"@ + last + "\n"@);
        let shown = up + ls[n - 3] + "\n"@ + ls[n - 2] + "\n"@ + last;
        reveal_strlit("\n");
        assert(whole.drop_last() =~= shown);
        assert(whole.last() == '\n');
        chars::lemma_lines_are_whole(c, n - 1);
        assert(last[last.len() - 1] != '\n');
        assert(shown.last() == last[last.len() - 1]);
        assert(text::without_final_newlines(shown) == shown);
        assert(text::without_final_newlines(whole) == text::without_final_newlines(shown));
        assert(tool_display::result_body("shell"@, content) == text::display_cut(c, 2, 3));
        assert(text::terminated(a) + note + text::terminated(b) =~= whole);
    }
}

proof fn lemma_two_terminated(a: Seq<char>, b: Seq<char>)
    ensures
        text::terminated(seq![a, b]) == a + "\n"@ + b + "\n"@,
{
    let one = seq![a];
    let two = seq![a, b];
    assert(one.drop_last() =~= Seq::<Seq<char>>::empty());
    assert(two.drop_last() =~= one);
    assert(text::terminated(Seq::<Seq<char>>::empty()) =~= seq![]);
    assert(text::terminated(one) =~= a + "\n"@);
}

proof fn lemma_three_terminated(a: Seq<char>, b: Seq<char>, c: Seq<char>)
    ensures
        text::terminated(seq![a, b, c]) == a + "\n"@ + b + "\n"@ + c + "\n"@,
{
    lemma_two_terminated(a, b);
    assert(seq![a, b, c].drop_last() =~= seq![a, b]);
}

/// The result of any other tool is shown whole where it has at most two lines
/// that hold more than white space; a longer one by the start of its first such
/// line and the number of them.
pub proof fn law_other_results_are_summed_up(kind: Seq<char>, content: Seq<char>)
    requires
        !chars::blank(content),
        kind != "file_read"@,
        kind != "glob"@,
        kind != "grep"@,
        kind != "shell"@,
    ensures
        ({
            let ls = written(content);
            let shown = tool_display::result_body(kind, content);
            &&& ls.len() <= 2 ==> shown == chars::trim(content)
            &&& ls.len() > 2 && ls[0].len() <= 80 ==> shown == ls[0] + "… ("@ + chars::decimal(
                ls.len(),
            ) + " lines)"@
            &&& ls.len() > 2 && ls[0].len() > 80 ==> shown == ls[0].take(80) + "… ("@
                + chars::decimal(ls.len()) + " lines)"@
        }),
{
    lemma_written(chars::lines(chars::trim(content)));
    lemma_something_is_written(content);
}

/// A tool that is known by name is shown as itself; the kind is read off the
/// output only of one that is not.
pub proof fn law_named_tools_keep_their_kind(tool_name: Seq<char>, content: Seq<char>)
    ensures
        tool_name.len() > 0 && tool_name != "tool"@ ==> tool_display::display_kind(
            tool_name,
            content,
        ) == tool_name,
        tool_name.len() == 0 || tool_name == "tool"@ ==> {
            let kind = tool_display::display_kind(tool_name, content);
            &&& chars::has(content, "(showing lines"@) ==> kind == "file_read"@
            &&& kind == "file_read"@ ==> chars::has(content, "(showing lines"@)
            &&& kind == "glob"@ ==> chars::has(content, "result(s)"@) || chars::has(
                content,
                " total)"@,
            )
            &&& kind == "shell"@ ==> chars::has(content, "(exit code"@)
            &&& kind == "grep"@ ==> chars::lines(content).len() > 3
            &&& chars::has(content, "(exit code"@) && !chars::has(content, "(showing lines"@)
                && !chars::has(content, "result(s)"@) && !chars::has(content, " more ("@) ==> kind
                == "shell"@
            &&& chars::has(content, "result(s)"@) && !chars::has(content, "(showing lines"@)
                ==> kind == "glob"@
        },
{
    lemma_kinds();
    reveal_strlit("tool");
    reveal_strlit("grep");
    reveal_strlit("glob");
    reveal_strlit("file_read");
    reveal_strlit("shell");
    assert("tool"@[0] != "grep"@[0]);
    assert("tool"@[0] != "glob"@[0]);
    assert("tool"@.len() != "shell"@.len());
    assert("tool"@.len() != "file_read"@.len());
}

/// The names that a hint looks for, the most telling first.
pub open spec fn telling() -> Seq<Seq<char>> {
    seq![
        "pattern"@,
        "file_path"@,
        "path"@,
        "command"@,
        "query"@,
        "url"@,
        "old_string"@,
        "args"@,
    ]
}

proof fn lemma_first_text(
    obj: Seq<(Seq<char>, FieldView)>,
    keys: Seq<Seq<char>>,
    k: int,
    value: Seq<char>,
)
    requires
        0 <= k < keys.len(),
        tool_display::field_of(obj, keys[k]) == Some(FieldView::Str(value)),
        forall|j: int|
            0 <= j < k ==> !(tool_display::field_of(obj, #[trigger] keys[j]) matches Some(
                FieldView::Str(_),
            )),
    ensures
        tool_display::first_text(obj, keys) == Some(
            keys[k] + "="@ + text::summary_cut(chars::replaced(value, '\n', ' '), 64),
        ),
    decreases k,
{
    if k > 0 {
        let rest = keys.drop_first();
        assert(rest[k - 1] == keys[k]);
        assert forall|j: int| 0 <= j < k - 1 implies !(tool_display::field_of(
            obj,
            #[trigger] rest[j],
        ) matches Some(FieldView::Str(_))) by {
            assert(rest[j] == keys[j + 1]);
        }
        lemma_first_text(obj, rest, k - 1, value);
        assert(!(tool_display::field_of(obj, keys[0]) matches Some(FieldView::Str(_))));
    }
}

/// The hint for a call names the most telling of its arguments, with the
/// argument's own text: its first 64 characters on one line.
pub proof fn law_hints_name_the_telling_argument(
    trimmed: Seq<char>,
    obj: Seq<(Seq<char>, FieldView)>,
    k: int,
    value: Seq<char>,
)
    requires
        0 <= k < telling().len(),
        tool_display::field_of(obj, telling()[k]) == Some(FieldView::Str(value)),
        forall|j: int|
            0 <= j < k ==> !(tool_display::field_of(obj, #[trigger] telling()[j]) matches Some(
                FieldView::Str(_),
            )),
    ensures
        ({
            let hint = tool_display::arg_hint(trimmed, Some(obj));
            let key = telling()[k];
            &&& chars::begins(hint, key + "="@)
            &&& value.len() <= 64 ==> hint.len() == key.len() + 1 + value.len()
            &&& value.len() > 64 ==> hint.len() == key.len() + 1 + 65 && hint.last() == '…'
            &&& forall|i: int|
                0 <= i < value.len() && i < 64 && value[i] != '\n' ==> hint[key.len() + 1 + i]
                    == #[trigger] value[i]
        }),
{
    let keys = tool_display::names(tool_display::HINT_KEYS@);
    assert(keys =~= telling());
    lemma_first_text(obj, keys, k, value);
    let hint = tool_display::arg_hint(trimmed, Some(obj));
    let key = telling()[k];
    let cut = text::summary_cut(chars::replaced(value, '\n', ' '), 64);
    reveal_strlit("=");
    assert(hint == key + "="@ + cut);
    assert(hint.take(key.len() as int + 1) =~= key + "="@);
    assert forall|i: int| 0 <= i < value.len() && i < 64 && value[i] != '\n' implies hint[key.len()
        + 1 + i] == #[trigger] value[i] by {
        assert(hint[key.len() + 1 + i] == cut[i]);
    }
}

/// Input that is no JSON object is its own hint, on one line and cut to 72
/// characters.
pub proof fn law_plain_input_is_its_own_hint(trimmed: Seq<char>)
    ensures
        ({
            let hint = tool_display::arg_hint(trimmed, None);
            &&& trimmed.len() <= 72 ==> hint.len() == trimmed.len()
            &&& trimmed.len() > 72 ==> hint.len() == 73 && hint.last() == '…'
            &&& forall|i: int|
                0 <= i < trimmed.len() && i < 72 && trimmed[i] != '\n' ==> hint[i]
                    == #[trigger] trimmed[i]
        }),
{
}

/// The fields that a request for permission shows, in their order.
pub open spec fn asked_about() -> Seq<Seq<char>> {
    seq![
        "file_path"@,
        "path"@,
        "command"@,
        "query"@,
        "url"@,
        "pattern"@,
        "old_string"@,
        "new_string"@,
        "content"@,
        "replace_all"@,
        "args"@,
    ]
}

proof fn lemma_preview_row(
    obj: Seq<(Seq<char>, FieldView)>,
    keys: Seq<Seq<char>>,
    k: int,
) -> (at: int)
    requires
        0 <= k < keys.len(),
        tool_display::field_of(obj, keys[k]) is Some,
        tool_display::shown_value(tool_display::field_of(obj, keys[k])->0) is Some,
    ensures
        0 <= at <= k,
        at < tool_display::preview_rows(obj, keys).len(),
        tool_display::preview_rows(obj, keys)[at] == keys[k] + ": "@ + tool_display::shown_value(
            tool_display::field_of(obj, keys[k])->0,
        )->0,
    decreases keys.len(),
{
    let init = keys.drop_last();
    lemma_rows_at_most(obj, init);
    if k < init.len() {
        assert(init[k] == keys[k]);
        lemma_preview_row(obj, init, k)
    } else {
        tool_display::preview_rows(obj, init).len() as int
    }
}

proof fn lemma_rows_at_most(obj: Seq<(Seq<char>, FieldView)>, keys: Seq<Seq<char>>)
    ensures
        tool_display::preview_rows(obj, keys).len() <= keys.len(),
    decreases keys.len(),
{
    if keys.len() > 0 {
        lemma_rows_at_most(obj, keys.drop_last());
    }
}

proof fn lemma_rows_are_fields(obj: Seq<(Seq<char>, FieldView)>, keys: Seq<Seq<char>>, at: int)
    requires
        0 <= at < tool_display::preview_rows(obj, keys).len(),
    ensures
        exists|k: int|
            0 <= k < keys.len() && tool_display::field_of(obj, #[trigger] keys[k]) is Some
                && tool_display::shown_value(tool_display::field_of(obj, keys[k])->0) is Some
                && tool_display::preview_rows(obj, keys)[at] == keys[k] + ": "@
                + tool_display::shown_value(tool_display::field_of(obj, keys[k])->0)->0,
    decreases keys.len(),
{
    let init = keys.drop_last();
    let rows = tool_display::preview_rows(obj, init);
    if at < rows.len() {
        lemma_rows_are_fields(obj, init, at);
        let k = choose|k: int|
            0 <= k < init.len() && tool_display::field_of(obj, #[trigger] init[k]) is Some
                && tool_display::shown_value(tool_display::field_of(obj, init[k])->0) is Some
                && rows[at] == init[k] + ": "@ + tool_display::shown_value(
                tool_display::field_of(obj, init[k])->0,
            )->0;
        assert(keys[k] == init[k]);
    } else {
        assert(keys[keys.len() - 1] == keys.last());
    }
}

/// A request for permission shows, of a call's arguments, the path, the command
/// and the other telling ones that stand among the first eight, each by its name
/// and its text.
pub proof fn law_permission_shows_the_arguments(
    trimmed: Seq<char>,
    obj: Seq<(Seq<char>, FieldView)>,
    k: int,
    value: Seq<char>,
)
    requires
        0 <= k < 8,
        tool_display::field_of(obj, asked_about()[k]) == Some(FieldView::Str(value)),
        text::width(tool_display::one_line(value)) <= 96,
    ensures
        tool_display::preview(trimmed, Some(obj)).contains(
            asked_about()[k] + ": "@ + tool_display::one_line(value),
        ),
{
    let keys = tool_display::names(tool_display::PERM_KEYS@);
    assert(keys =~= asked_about());
    let at = lemma_preview_row(obj, keys, k);
    let rows = tool_display::preview_rows(obj, keys);
    let shown = tool_display::preview(trimmed, Some(obj));
    assert(rows[at] == asked_about()[k] + ": "@ + tool_display::one_line(value));
    if rows.len() > 8 {
        assert(rows.take(8)[at] == rows[at]);
    }
    assert(shown[at] == rows[at]);
}

/// A request for permission shows nothing but arguments of the call, a count of
/// those left out, and, where none can be shown, the hint for the call.
pub proof fn law_permission_shows_nothing_else(
    trimmed: Seq<char>,
    obj: Seq<(Seq<char>, FieldView)>,
    at: int,
)
    requires
        0 <= at < tool_display::preview(trimmed, Some(obj)).len(),
    ensures
        ({
            let row = tool_display::preview(trimmed, Some(obj))[at];
            ||| row == tool_display::arg_hint(trimmed, Some(obj))
            ||| exists|n: nat| n > 0 && row == "… (+"@ + #[trigger] chars::decimal(n)
                + " more field(s))"@
            ||| exists|k: int|
                0 <= k < asked_about().len() && tool_display::field_of(
                    obj,
                    #[trigger] asked_about()[k],
                ) is Some && chars::begins(row, asked_about()[k] + ": "@)
        }),
{
    let keys = tool_display::names(tool_display::PERM_KEYS@);
    assert(keys =~= asked_about());
    let rows = tool_display::preview_rows(obj, keys);
    let kept = if rows.len() <= 8 {
        rows
    } else {
        rows.take(8)
    };
    let row = tool_display::preview(trimmed, Some(obj))[at];
    if kept.len() > 0 {
        if at < kept.len() {
            assert(row == rows[at]);
            lemma_rows_are_fields(obj, keys, at);
            let k = choose|k: int|
                0 <= k < keys.len() && tool_display::field_of(obj, #[trigger] keys[k]) is Some
                    && tool_display::shown_value(tool_display::field_of(obj, keys[k])->0) is Some
                    && rows[at] == keys[k] + ": "@ + tool_display::shown_value(
                    tool_display::field_of(obj, keys[k])->0,
                )->0;
            let p = asked_about()[k] + ": "@;
            assert(row.take(p.len() as int) =~= p);
            assert(chars::begins(row, p));
        } else {
            let n = (tool_display::present(obj, keys) - kept.len()) as nat;
            assert(row == "… (+"@ + chars::decimal(n) + " more field(s))"@);
        }
    }
}

/// Git, and only git, is called a risk as great as the shell's.
pub proof fn law_git_is_warned_of(tool_name: Seq<char>)
    ensures
        tool_display::risk_warning(tool_name) is Some <==> tool_name == "git"@,
{
}

/// A request for permission shows a switch by its word and a whole number by its
/// digits.
pub proof fn law_permission_shows_other_values(b: bool, n: u64)
    ensures
        tool_display::shown_value(FieldView::Bool(b)) == Some(
            if b {
                "true"@
            } else {
                "false"@
            },
        ),
        tool_display::shown_value(FieldView::Number(Some(n))) == Some(chars::decimal(n as nat)),
        tool_display::shown_value(FieldView::Other) is None,
{
}

proof fn lemma_present(obj: Seq<(Seq<char>, FieldView)>, keys: Seq<Seq<char>>)
    ensures
        tool_display::present(obj, keys) == keys.filter(
            |k: Seq<char>| tool_display::field_of(obj, k) is Some,
        ).len(),
    decreases keys.len(),
{
    reveal(Seq::filter);
    if keys.len() > 0 {
        lemma_present(obj, keys.drop_last());
    }
}

/// Where a request for permission leaves out arguments, its last row says how
/// many.
pub proof fn law_permission_counts_what_it_leaves_out(
    trimmed: Seq<char>,
    obj: Seq<(Seq<char>, FieldView)>,
)
    ensures
        ({
            let rows = tool_display::preview(trimmed, Some(obj));
            let all = asked_about().filter(
                |k: Seq<char>| tool_display::field_of(obj, k) is Some,
            ).len();
            &&& rows.len() <= 9
            &&& rows.len() == 9 ==> all > 8 && rows.last() == "… (+"@ + chars::decimal(
                (all - 8) as nat,
            ) + " more field(s))"@
        }),
{
    let keys = tool_display::names(tool_display::PERM_KEYS@);
    assert(keys =~= asked_about());
    lemma_present(obj, keys);
}

/// A value that is too wide for its row is cut to the columns it has, and the
/// cut is shown; one that fits is shown whole.
pub proof fn law_wide_values_are_cut(s: Seq<char>, max: nat)
    requires
        max >= 2,
    ensures
        ({
            let one = tool_display::one_line(s);
            let shown = tool_display::perm_value(s, max);
            &&& text::width(one) <= max ==> shown == one
            &&& text::width(one) > max ==> shown.len() > 0 && shown.last() == '…'
                && chars::begins(one, shown.drop_last()) && text::width(shown.drop_last()) < max
        }),
{
    let one = tool_display::one_line(s);
    let n = text::fit_len(one, max - 1) as int;
    text::lemma_fit_len(one, max - 1);
    let shown = tool_display::perm_value(s, max);
    if text::width(one) > max {
        assert(shown.drop_last() =~= one.take(n));
        assert(one.take(one.take(n).len() as int) =~= one.take(n));
    }
}

/// A call whose only telling argument is a list of words is hinted at by them.
pub proof fn law_word_lists_are_hinted_at(
    trimmed: Seq<char>,
    obj: Seq<(Seq<char>, FieldView)>,
    words: Seq<Option<Seq<char>>>,
)
    requires
        forall|j: int|
            0 <= j < telling().len() ==> !(tool_display::field_of(
                obj,
                #[trigger] telling()[j],
            ) matches Some(FieldView::Str(_))),
        tool_display::field_of(obj, "args"@) == Some(FieldView::Array(words)),
    ensures
        chars::begins(tool_display::arg_hint(trimmed, Some(obj)), "args="@),
{
    let keys = tool_display::names(tool_display::HINT_KEYS@);
    assert(keys =~= telling());
    lemma_no_first_text(obj, keys);
    let hint = tool_display::arg_hint(trimmed, Some(obj));
    assert(hint.take("args="@.len() as int) =~= "args="@);
}

proof fn lemma_no_first_text(obj: Seq<(Seq<char>, FieldView)>, keys: Seq<Seq<char>>)
    requires
        forall|j: int|
            0 <= j < keys.len() ==> !(tool_display::field_of(obj, #[trigger] keys[j]) matches Some(
                FieldView::Str(_),
            )),
    ensures
        tool_display::first_text(obj, keys) is None,
    decreases keys.len(),
{
    if keys.len() > 0 {
        let rest = keys.drop_first();
        assert forall|j: int| 0 <= j < rest.len() implies !(tool_display::field_of(
            obj,
            #[trigger] rest[j],
        ) matches Some(FieldView::Str(_))) by {
            assert(rest[j] == keys[j + 1]);
        }
        lemma_no_first_text(obj, rest);
        assert(!(tool_display::field_of(obj, keys[0]) matches Some(FieldView::Str(_))));
    }
}

} // verus!
