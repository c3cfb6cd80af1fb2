//! Compact tool-call and permission-prompt formatting.

use crate::chars;
use crate::text;
use vstd::prelude::*;

verus! {

// ---------------------------------------------------------------------------
// Tool arguments as JSON fields
// ---------------------------------------------------------------------------

/// A field of a JSON object, as far as previews read it.
#[derive(Debug)]
pub enum Field {
    Str(String),
    Bool(bool),
    /// A number, with its value where it is an unsigned integer of 64 bits.
    Number(Option<u64>),
    /// An array, with the text of each element that is a string.
    Array(Vec<Option<String>>),
    /// Null or a nested object.
    Other,
}

/// The mathematical value of a [`Field`].
pub enum FieldView {
    Str(Seq<char>),
    Bool(bool),
    Number(Option<u64>),
    Array(Seq<Option<Seq<char>>>),
    Other,
}

impl View for Field {
    type V = FieldView;

    open spec fn view(&self) -> FieldView {
        match self {
            Field::Str(s) => FieldView::Str(s@),
            Field::Bool(b) => FieldView::Bool(*b),
            Field::Number(n) => FieldView::Number(*n),
            Field::Array(a) => FieldView::Array(Seq::new(a@.len(), |i: int| chars::opt(a@[i]))),
            Field::Other => FieldView::Other,
        }
    }
}

/// The named fields of an object, as values.
pub open spec fn object(v: Seq<(String, Field)>) -> Seq<(Seq<char>, FieldView)> {
    Seq::new(v.len(), |i: int| (v[i].0@, v[i].1@))
}

/// The fields of a parsed object, where there was one.
pub open spec fn opt_object(o: Option<Vec<(String, Field)>>) -> Option<
    Seq<(Seq<char>, FieldView)>,
> {
    match o {
        Some(v) => Some(object(v@)),
        None => None,
    }
}

/// The fields of the JSON object that a text denotes, if it denotes one.
pub uninterp spec fn json_fields(text: Seq<char>) -> Option<Seq<(Seq<char>, FieldView)>>;

/// Parses a JSON object with `serde_json::from_str` and hands its fields out in
/// the order of `serde_json`'s map. The contract claims that the outcome is
/// determined by the text: the fields, or nothing when the text is no JSON or
/// no object. What JSON is, is left to that crate.
#[verifier::external_body]
fn parse_object(text: &str) -> (r: Option<Vec<(String, Field)>>)
    ensures
        opt_object(r) == json_fields(text@),
{
    let map = match serde_json::from_str(text) {
        Ok(serde_json::Value::Object(map)) => map,
        _ => return None,
    };
    let field = |v: serde_json::Value| match v {
        serde_json::Value::String(s) => Field::Str(s),
        serde_json::Value::Bool(b) => Field::Bool(b),
        serde_json::Value::Number(n) => Field::Number(n.as_u64()),
        serde_json::Value::Array(a) => Field::Array(
            a.iter().map(|x| x.as_str().map(String::from)).collect(),
        ),
        serde_json::Value::Null | serde_json::Value::Object(_) => Field::Other,
    };
    Some(map.into_iter().map(|(k, v)| (k, field(v))).collect())
}

/// A text in quotes, with its special characters escaped.
pub uninterp spec fn debug_text(s: Seq<char>) -> Seq<char>;

/// The standard library's `Debug` form of a string, as `{:?}` writes it. The
/// contract claims that it is determined by the text, and that it holds no line
/// break, which `{:?}` writes as an escape.
#[verifier::external_body]
fn quoted(s: &str) -> (r: String)
    ensures
        r@ == debug_text(s@),
        no_break(r@),
{
    format!("{:?}", s)
}

/// The first field with the given name.
pub open spec fn field_of(obj: Seq<(Seq<char>, FieldView)>, key: Seq<char>) -> Option<FieldView>
    decreases obj.len(),
{
    if obj.len() == 0 {
        None
    } else if obj[0].0 == key {
        Some(obj[0].1)
    } else {
        field_of(obj.drop_first(), key)
    }
}

fn find_field<'a>(obj: &'a Vec<(String, Field)>, key: &str) -> (r: Option<&'a Field>)
    ensures
        match r {
            Some(f) => field_of(object(obj@), key@) == Some(f@),
            None => field_of(object(obj@), key@) is None,
        },
{
    let ghost all = object(obj@);
    let mut i: usize = 0;
    assert(all.skip(0) =~= all);
    while i < obj.len()
        invariant
            0 <= i <= obj@.len(),
            all == object(obj@),
            field_of(all, key@) == field_of(all.skip(i as int), key@),
        decreases obj@.len() - i,
    {
        assert(all.skip(i as int)[0] == all[i as int]);
        assert(all.skip(i as int).drop_first() =~= all.skip(i + 1));
        if chars::str_eq(obj[i].0.as_str(), key) {
            return Some(&obj[i].1);
        }
        i = i + 1;
    }
    None
}

/// The string elements of an array, each in quotes.
pub open spec fn quoted_elements(a: Seq<Option<Seq<char>>>) -> Seq<Seq<char>>
    decreases a.len(),
{
    if a.len() == 0 {
        seq![]
    } else {
        match a.last() {
            Some(s) => quoted_elements(a.drop_last()).push(debug_text(s)),
            None => quoted_elements(a.drop_last()),
        }
    }
}

/// The string elements of an array in quotes, with a space between neighbours.
pub open spec fn joined_elements(a: Seq<Option<Seq<char>>>) -> Seq<char> {
    chars::joined(quoted_elements(a), " "@)
}

/// The elements of an array, as values.
pub open spec fn elements(a: Seq<Option<String>>) -> Seq<Option<Seq<char>>> {
    Seq::new(a.len(), |i: int| chars::opt(a[i]))
}

fn join_elements(a: &Vec<Option<String>>) -> (r: String)
    ensures
        r@ == joined_elements(elements(a@)),
        no_break(r@),
{
    let ghost all = elements(a@);
    let mut parts: Vec<String> = Vec::new();
    let mut i: usize = 0;
    assert(chars::strs(parts@) =~= quoted_elements(all.take(0)));
    while i < a.len()
        invariant
            0 <= i <= a@.len(),
            all == elements(a@),
            chars::strs(parts@) == quoted_elements(all.take(i as int)),
            forall|j: int| 0 <= j < parts@.len() ==> no_break(#[trigger] chars::strs(parts@)[j]),
        decreases a@.len() - i,
    {
        proof {
            assert(all.take(i + 1).drop_last() =~= all.take(i as int));
            assert(all.take(i + 1).last() == chars::opt(a@[i as int]));
        }
        match &a[i] {
            Some(s) => {
                let q = quoted(s.as_str());
                proof {
                    chars::lemma_strs_push(parts@, q);
                }
                parts.push(q);
            },
            None => {},
        }
        i = i + 1;
    }
    assert(all.take(i as int) =~= all);
    proof {
        reveal_strlit(" ");
        lemma_joined_no_break(chars::strs(parts@), " "@);
    }
    chars::join(&parts, " ")
}

/// Joining texts without line breaks makes none.
proof fn lemma_joined_no_break(parts: Seq<Seq<char>>, sep: Seq<char>)
    requires
        no_break(sep),
        forall|i: int| 0 <= i < parts.len() ==> no_break(#[trigger] parts[i]),
    ensures
        no_break(chars::joined(parts, sep)),
    decreases parts.len(),
{
    if parts.len() > 1 {
        let rest = parts.drop_last();
        assert forall|i: int| 0 <= i < rest.len() implies no_break(#[trigger] rest[i]) by {
            assert(rest[i] == parts[i]);
        }
        lemma_joined_no_break(rest, sep);
        assert(no_break(parts[parts.len() - 1]));
        lemma_no_break_concat(chars::joined(rest, sep), sep);
        lemma_no_break_concat(chars::joined(rest, sep) + sep, parts.last());
    } else if parts.len() == 1 {
        assert(no_break(parts[0]));
    }
}

// ---------------------------------------------------------------------------
// Permission prompt
// ---------------------------------------------------------------------------

/// The warning that goes with a tool whose calls can run anything.
pub open spec fn risk_warning(tool_name: Seq<char>) -> Option<Seq<char>> {
    if tool_name == "git"@ {
        Some(
            "Shell-equivalent risk: Git may execute aliases, hooks, helpers, and configured commands."@,
        )
    } else {
        None
    }
}

pub fn permission_risk_warning(tool_name: &str) -> (r: Option<&'static str>)
    ensures
        match r {
            Some(s) => risk_warning(tool_name@) == Some(s@),
            None => risk_warning(tool_name@) is None,
        },
{
    if chars::str_eq(tool_name, "git") {
        Some(
            "Shell-equivalent risk: Git may execute aliases, hooks, helpers, and configured commands.",
        )
    } else {
        None
    }
}

/// Max display columns for a single permission-preview field value.
pub const PERM_VALUE_MAX_COLS: usize = 96;

/// Hard cap on preview rows, so that a large edit cannot fill the chrome.
pub const PERM_PREVIEW_MAX_LINES: usize = 8;

/// `s` with each line break (`\r\n`, `\n` or `\r`) shown as one `↵`.
pub open spec fn one_line(s: Seq<char>) -> Seq<char>
    decreases s.len(),
{
    if s.len() == 0 {
        seq![]
    } else if s.len() >= 2 && s[0] == '\r' && s[1] == '\n' {
        seq!['↵'] + one_line(s.skip(2))
    } else if s[0] == '\r' || s[0] == '\n' {
        seq!['↵'] + one_line(s.skip(1))
    } else {
        seq![s[0]] + one_line(s.skip(1))
    }
}

/// A value on one line, cut with an ellipsis when it is wider than `max_cols`.
pub open spec fn perm_value(s: Seq<char>, max_cols: nat) -> Seq<char> {
    let one = one_line(s);
    let budget: int = if max_cols >= 2 {
        max_cols - 1
    } else {
        1
    };
    if text::width(one) <= max_cols {
        one
    } else {
        one.take(text::fit_len(one, budget) as int).push('…')
    }
}

fn collapse_breaks(s: &str) -> (r: String)
    ensures
        r@ == one_line(s@),
{
    let v = chars::to_chars(s);
    let mut out = String::new();
    let mut i: usize = 0;
    assert(v@.skip(0) =~= v@);
    while i < v.len()
        invariant
            v@ == s@,
            0 <= i <= v@.len(),
            out@ + one_line(v@.skip(i as int)) == one_line(s@),
        decreases v@.len() - i,
    {
        let c = v[i];
        let ghost before = out@;
        let ghost rest = v@.skip(i as int);
        let step: usize = if c == '\r' && v.len() - i >= 2 && v[i + 1] == '\n' {
            2
        } else {
            1
        };
        let shown = if c == '\r' || c == '\n' {
            '↵'
        } else {
            c
        };
        out.push(shown);
        proof {
            assert(rest.len() >= 2 ==> rest[1] == v@[i + 1]);
            assert(rest.skip(step as int) =~= v@.skip(i + step));
            let tail = one_line(v@.skip(i + step));
            assert(out@ + tail =~= before + (seq![shown] + tail));
        }
        i = i + step;
    }
    assert(out@ + one_line(v@.skip(i as int)) =~= out@);
    out
}

/// Collapse newlines and truncate so permission chrome stays readable.
pub fn truncate_perm_value(s: &str, max_cols: usize) -> (r: String)
    ensures
        r@ == perm_value(s@, max_cols as nat),
{
    let one = collapse_breaks(s);
    if text::display_width(one.as_str()) <= max_cols {
        return one;
    }
    // Leave room for the ellipsis glyph.
    let budget: usize = if max_cols >= 2 {
        max_cols - 1
    } else {
        1
    };
    let v = chars::to_chars(one.as_str());
    let n = text::fit_prefix(&v, budget);
    let mut out = chars::range_string(&v, 0, n);
    assert(out@ =~= one@.take(n as int));
    out.push('…');
    out
}

/// A preview value fits its columns.
pub proof fn law_perm_value_width(s: Seq<char>, max_cols: nat)
    requires
        max_cols >= 2,
    ensures
        text::width(perm_value(s, max_cols)) <= max_cols,
{
    let one = one_line(s);
    let cut = one.take(text::fit_len(one, max_cols - 1) as int);
    text::lemma_fit_len(one, max_cols - 1);
    assert(cut.push('…') =~= cut + seq!['…']);
    text::lemma_width_concat(cut, seq!['…']);
    text::lemma_width_one('…');
    text::lemma_ellipsis_columns();
}

/// Whether a text stays on its line.
pub open spec fn no_break(s: Seq<char>) -> bool {
    forall|i: int| 0 <= i < s.len() ==> #[trigger] s[i] != '\n'
}

pub proof fn lemma_one_line(s: Seq<char>)
    ensures
        no_break(one_line(s)),
    decreases s.len(),
{
    if s.len() > 0 {
        let k: int = if s.len() >= 2 && s[0] == '\r' && s[1] == '\n' {
            2
        } else {
            1
        };
        lemma_one_line(s.skip(k));
        let rest = one_line(s.skip(k));
        assert forall|i: int| 0 <= i < one_line(s).len() implies #[trigger] one_line(s)[i]
            != '\n' by {
            if i > 0 {
                assert(one_line(s)[i] == rest[i - 1]);
            }
        }
    }
}

/// The names that a list of string literals holds.
pub open spec fn names(v: Seq<&'static str>) -> Seq<Seq<char>> {
    Seq::new(v.len(), |i: int| v[i]@)
}

/// The fields that a permission preview shows, in order.
pub const PERM_KEYS: [&'static str; 11] = [
    "file_path",
    "path",
    "command",
    "query",
    "url",
    "pattern",
    "old_string",
    "new_string",
    "content",
    "replace_all",
    "args",
];

/// How a preview shows a field value, if it does.
pub open spec fn shown_value(v: FieldView) -> Option<Seq<char>> {
    match v {
        FieldView::Str(s) => Some(perm_value(s, PERM_VALUE_MAX_COLS as nat)),
        FieldView::Bool(b) => Some(
            if b {
                "true"@
            } else {
                "false"@
            },
        ),
        FieldView::Number(Some(n)) => Some(chars::decimal(n as nat)),
        FieldView::Number(None) => None,
        FieldView::Array(a) => Some(perm_value(joined_elements(a), PERM_VALUE_MAX_COLS as nat)),
        FieldView::Other => None,
    }
}

/// The preview rows of an object, one for each of the keys that it can show.
pub open spec fn preview_rows(obj: Seq<(Seq<char>, FieldView)>, keys: Seq<Seq<char>>) -> Seq<
    Seq<char>,
>
    decreases keys.len(),
{
    if keys.len() == 0 {
        seq![]
    } else {
        let rows = preview_rows(obj, keys.drop_last());
        match field_of(obj, keys.last()) {
            Some(v) => match shown_value(v) {
                Some(s) => rows.push(keys.last() + ": "@ + s),
                None => rows,
            },
            None => rows,
        }
    }
}

/// How many of the keys an object has.
pub open spec fn present(obj: Seq<(Seq<char>, FieldView)>, keys: Seq<Seq<char>>) -> nat
    decreases keys.len(),
{
    if keys.len() == 0 {
        0
    } else {
        present(obj, keys.drop_last()) + if field_of(obj, keys.last()) is Some {
            1nat
        } else {
            0
        }
    }
}

/// The rows of a permission preview for a trimmed tool input whose JSON fields
/// are given.
pub open spec fn preview(trimmed: Seq<char>, obj: Option<Seq<(Seq<char>, FieldView)>>) -> Seq<
    Seq<char>,
> {
    let rows = match obj {
        Some(fields) => preview_rows(fields, names(PERM_KEYS@)),
        None => seq![],
    };
    let kept = if rows.len() <= PERM_PREVIEW_MAX_LINES {
        rows
    } else {
        rows.take(PERM_PREVIEW_MAX_LINES as int)
    };
    if kept.len() > 0 {
        let all = present(obj->0, names(PERM_KEYS@));
        if all > kept.len() {
            kept.push("… (+"@ + chars::decimal((all - kept.len()) as nat) + " more field(s))"@)
        } else {
            kept
        }
    } else {
        let hint = arg_hint(trimmed, obj);
        if hint.len() == 0 {
            seq![]
        } else {
            seq![hint]
        }
    }
}

fn show_value(v: &Field) -> (r: Option<String>)
    ensures
        chars::opt(r) == shown_value(v@),
{
    match v {
        Field::Str(s) => Some(truncate_perm_value(s.as_str(), PERM_VALUE_MAX_COLS)),
        Field::Bool(b) => if *b {
            Some(String::from_str("true"))
        } else {
            Some(String::from_str("false"))
        },
        Field::Number(n) => match n {
            Some(n) => Some(chars::decimal_string(*n)),
            None => None,
        },
        Field::Array(a) => {
            let joined = join_elements(a);
            proof {
                assert(v@->Array_0 =~= elements(a@));
            }
            Some(truncate_perm_value(joined.as_str(), PERM_VALUE_MAX_COLS))
        },
        Field::Other => None,
    }
}

/// The rows of a permission preview, from the trimmed tool input and its JSON
/// fields.
pub fn permission_preview(trimmed: &str, obj: &Option<Vec<(String, Field)>>) -> (r: Vec<String>)
    ensures
        chars::strs(r@) == preview(trimmed@, opt_object(*obj)),
{
    let mut out: Vec<String> = Vec::new();
    let ghost keys = names(PERM_KEYS@);
    match obj {
        Some(fields) => {
            let ghost view = object(fields@);
            let mut i: usize = 0;
            let mut have: usize = 0;
            proof {
                assert(keys.take(0) =~= Seq::<Seq<char>>::empty());
                assert(chars::strs(out@) =~= preview_rows(view, keys.take(0)));
            }
            // Prefer a stable field order for common tools.
            while i < 11
                invariant
                    0 <= i <= 11,
                    keys == names(PERM_KEYS@),
                    view == object(fields@),
                    keys.len() == 11,
                    have == present(view, keys.take(i as int)),
                    have <= i,
                    out@.len() <= PERM_PREVIEW_MAX_LINES,
                    out@.len() == PERM_PREVIEW_MAX_LINES || preview_rows(
                        view,
                        keys.take(i as int),
                    ).len() == out@.len(),
                    preview_rows(view, keys.take(i as int)).len() >= out@.len(),
                    chars::strs(out@) == preview_rows(view, keys.take(i as int)).take(
                        out@.len() as int,
                    ),
                decreases 11 - i,
            {
                let key = PERM_KEYS[i];
                proof {
                    assert(keys.take(i + 1).drop_last() =~= keys.take(i as int));
                    assert(keys.take(i + 1).last() == key@);
                }
                let ghost before = preview_rows(view, keys.take(i as int));
                let ghost after = preview_rows(view, keys.take(i + 1));
                match find_field(fields, key) {
                    Some(v) => {
                        have = have + 1;
                        if out.len() < PERM_PREVIEW_MAX_LINES {
                            match show_value(v) {
                                Some(shown) => {
                                    let row = chars::cat3(key, ": ", shown.as_str());
                                    proof {
                                        chars::lemma_strs_push(out@, row);
                                        assert(before.take(out@.len() as int) =~= before);
                                        assert(after.take(after.len() as int) =~= after);
                                    }
                                    out.push(row);
                                },
                                None => {},
                            }
                        } else {
                            assert(after.take(out@.len() as int) =~= before.take(
                                out@.len() as int,
                            ));
                        }
                    },
                    None => {},
                }
                i = i + 1;
            }
            proof {
                assert(keys.take(11) =~= keys);
                let rows = preview_rows(view, keys);
                assert(rows.take(rows.len() as int) =~= rows);
            }
            if out.len() > 0 {
                // Note remaining keys where the line cap hid some or a value has no preview.
                if have > out.len() {
                    let note = chars::cat3(
                        "… (+",
                        chars::count_string(have - out.len()).as_str(),
                        " more field(s))",
                    );
                    proof {
                        chars::lemma_strs_push(out@, note);
                    }
                    out.push(note);
                }
                return out;
            }
        },
        None => {},
    }
    // Non-JSON or unrecognized shape: single compact line, never the full blob.
    let hint = tool_arg_hint(trimmed, obj);
    proof {
        assert(out@.len() == 0);
        assert(chars::strs(out@) =~= Seq::<Seq<char>>::empty());
        chars::lemma_strs_push(out@, hint);
    }
    if !hint.as_str().is_empty() {
        out.push(hint);
        assert(chars::strs(out@) =~= seq![hint@]);
    }
    out
}

/// Structured, truncated multi-line preview for the permission prompt.
pub fn format_permission_tool_input(input: &str) -> (r: Vec<String>)
    ensures
        chars::strs(r@) == (if chars::blank(input@) {
            seq![]
        } else {
            preview(chars::trim(input@), json_fields(chars::trim(input@)))
        }),
{
    let trimmed = chars::trimmed(input);
    proof {
        chars::lemma_trim_blank(input@);
    }
    if trimmed.as_str().is_empty() {
        let out: Vec<String> = Vec::new();
        assert(chars::strs(out@) =~= Seq::<Seq<char>>::empty());
        return out;
    }
    let obj = parse_object(trimmed.as_str());
    permission_preview(trimmed.as_str(), &obj)
}

/// A preview has at most one row more than the cap.
pub proof fn law_preview_is_short(trimmed: Seq<char>, obj: Option<Seq<(Seq<char>, FieldView)>>)
    ensures
        preview(trimmed, obj).len() <= PERM_PREVIEW_MAX_LINES + 1,
{
}

/// No row of a preview holds a line break.
pub proof fn law_preview_rows_stay_on_their_line(
    trimmed: Seq<char>,
    obj: Option<Seq<(Seq<char>, FieldView)>>,
)
    ensures
        forall|i: int| 0 <= i < preview(trimmed, obj).len() ==> no_break(
            #[trigger] preview(trimmed, obj)[i],
        ),
{
    let keys = names(PERM_KEYS@);
    lemma_perm_keys_no_break();
    let p = preview(trimmed, obj);
    let rows = match obj {
        Some(fields) => preview_rows(fields, keys),
        None => seq![],
    };
    if obj is Some {
        lemma_rows_no_break(obj->0, keys);
    }
    if rows.len() == 0 {
        lemma_hint_no_break(trimmed, obj);
    } else {
        assert forall|i: int| 0 <= i < p.len() implies no_break(#[trigger] p[i]) by {
            let shown = if rows.len() <= PERM_PREVIEW_MAX_LINES {
                rows.len() as int
            } else {
                PERM_PREVIEW_MAX_LINES as int
            };
            if i < shown {
                assert(p[i] == rows[i]);
            } else {
                let extra = (present(obj->0, keys) - shown) as nat;
                reveal_strlit("… (+");
                reveal_strlit(" more field(s))");
                lemma_decimal_no_break(extra);
                lemma_no_break_concat("… (+"@, chars::decimal(extra));
                lemma_no_break_concat("… (+"@ + chars::decimal(extra), " more field(s))"@);
                assert(no_break("… (+"@));
                assert(no_break(" more field(s))"@));
            }
        }
    }
}

proof fn lemma_no_break_concat(a: Seq<char>, b: Seq<char>)
    ensures
        no_break(a) && no_break(b) ==> no_break(a + b),
{
    if no_break(a) && no_break(b) {
        assert forall|i: int| 0 <= i < (a + b).len() implies #[trigger] (a + b)[i] != '\n' by {
            if i < a.len() {
                assert((a + b)[i] == a[i]);
            } else {
                assert((a + b)[i] == b[i - a.len()]);
            }
        }
    }
}

proof fn lemma_decimal_no_break(n: nat)
    ensures
        no_break(chars::decimal(n)),
{
    chars::lemma_decimal_digits(n);
}

proof fn lemma_perm_keys_no_break()
    ensures
        forall|i: int| 0 <= i < names(PERM_KEYS@).len() ==> no_break(
            #[trigger] names(PERM_KEYS@)[i],
        ),
{
    reveal_strlit("file_path");
    reveal_strlit("path");
    reveal_strlit("command");
    reveal_strlit("query");
    reveal_strlit("url");
    reveal_strlit("pattern");
    reveal_strlit("old_string");
    reveal_strlit("new_string");
    reveal_strlit("content");
    reveal_strlit("replace_all");
    reveal_strlit("args");
    assert forall|i: int| 0 <= i < names(PERM_KEYS@).len() implies no_break(
        #[trigger] names(PERM_KEYS@)[i],
    ) by {
        assert(names(PERM_KEYS@)[i] == PERM_KEYS@[i]@);
    }
}

proof fn lemma_perm_value_no_break(s: Seq<char>, max_cols: nat)
    ensures
        no_break(perm_value(s, max_cols)),
{
    lemma_one_line(s);
    let one = one_line(s);
    let budget: int = if max_cols >= 2 {
        max_cols - 1
    } else {
        1
    };
    text::lemma_fit_len(one, budget);
}

proof fn lemma_rows_no_break(obj: Seq<(Seq<char>, FieldView)>, keys: Seq<Seq<char>>)
    requires
        forall|i: int| 0 <= i < keys.len() ==> no_break(#[trigger] keys[i]),
    ensures
        forall|i: int| 0 <= i < preview_rows(obj, keys).len() ==> no_break(
            #[trigger] preview_rows(obj, keys)[i],
        ),
    decreases keys.len(),
{
    if keys.len() > 0 {
        let init = keys.drop_last();
        assert forall|i: int| 0 <= i < init.len() implies no_break(#[trigger] init[i]) by {
            assert(init[i] == keys[i]);
        }
        lemma_rows_no_break(obj, init);
        assert(no_break(keys[keys.len() - 1]));
        match field_of(obj, keys.last()) {
            Some(v) => {
                reveal_strlit(": ");
                reveal_strlit("true");
                reveal_strlit("false");
                match v {
                    FieldView::Str(s) => lemma_perm_value_no_break(s, PERM_VALUE_MAX_COLS as nat),
                    FieldView::Number(Some(n)) => lemma_decimal_no_break(n as nat),
                    FieldView::Array(a) => lemma_perm_value_no_break(
                        joined_elements(a),
                        PERM_VALUE_MAX_COLS as nat,
                    ),
                    _ => {},
                }
                match shown_value(v) {
                    Some(s) => {
                        assert(no_break(s));
                        assert(no_break(": "@));
                        lemma_no_break_concat(keys.last(), ": "@);
                        lemma_no_break_concat(keys.last() + ": "@, s);
                        let rows = preview_rows(obj, init);
                        let row = keys.last() + ": "@ + s;
                        assert(preview_rows(obj, keys) == rows.push(row));
                        assert forall|i: int| 0 <= i < rows.push(row).len() implies no_break(
                            #[trigger] rows.push(row)[i],
                        ) by {
                            if i < rows.len() {
                                assert(rows.push(row)[i] == rows[i]);
                            }
                        }
                    },
                    None => {},
                }
            },
            None => {},
        }
    }
}

proof fn lemma_cut_no_break(s: Seq<char>, n: nat)
    requires
        no_break(s),
    ensures
        no_break(text::summary_cut(s, n)),
{
}

proof fn lemma_hint_no_break(trimmed: Seq<char>, obj: Option<Seq<(Seq<char>, FieldView)>>)
    requires
        obj matches Some(fields) ==> preview_rows(fields, names(PERM_KEYS@)).len() == 0,
    ensures
        no_break(arg_hint(trimmed, obj)),
{
    let flat = chars::replaced(trimmed, '\n', ' ');
    assert(no_break(flat));
    match obj {
        Some(fields) => {
            let keys = names(HINT_KEYS@);
            lemma_hint_keys_no_break();
            lemma_first_text_no_break(fields, keys);
            if field_of(fields, "args"@) is Some {
                let all = names(PERM_KEYS@);
                assert(all.last() == "args"@);
                assert(shown_value(field_of(fields, "args"@)->0) is None);
            }
        },
        None => {},
    }
}

proof fn lemma_hint_keys_no_break()
    ensures
        forall|i: int| 0 <= i < names(HINT_KEYS@).len() ==> no_break(
            #[trigger] names(HINT_KEYS@)[i],
        ),
{
    reveal_strlit("file_path");
    reveal_strlit("path");
    reveal_strlit("command");
    reveal_strlit("query");
    reveal_strlit("url");
    reveal_strlit("pattern");
    reveal_strlit("old_string");
    reveal_strlit("args");
    assert forall|i: int| 0 <= i < names(HINT_KEYS@).len() implies no_break(
        #[trigger] names(HINT_KEYS@)[i],
    ) by {
        assert(names(HINT_KEYS@)[i] == HINT_KEYS@[i]@);
    }
}

proof fn lemma_first_text_no_break(obj: Seq<(Seq<char>, FieldView)>, keys: Seq<Seq<char>>)
    requires
        forall|i: int| 0 <= i < keys.len() ==> no_break(#[trigger] keys[i]),
    ensures
        first_text(obj, keys) matches Some(s) ==> no_break(s),
    decreases keys.len(),
{
    if keys.len() > 0 {
        let rest = keys.drop_first();
        assert forall|i: int| 0 <= i < rest.len() implies no_break(#[trigger] rest[i]) by {
            assert(rest[i] == keys[i + 1]);
        }
        lemma_first_text_no_break(obj, rest);
        assert(no_break(keys[0]));
        match field_of(obj, keys[0]) {
            Some(FieldView::Str(s)) => {
                reveal_strlit("=");
                let flat = chars::replaced(s, '\n', ' ');
                assert(no_break(flat));
                lemma_cut_no_break(flat, 64);
                assert(no_break("="@));
                lemma_no_break_concat(keys[0], "="@);
                lemma_no_break_concat(keys[0] + "="@, text::summary_cut(flat, 64));
            },
            _ => {},
        }
    }
}

// ---------------------------------------------------------------------------
// Tool calls
// ---------------------------------------------------------------------------

/// The fields that a one-line argument hint prefers, in order.
pub const HINT_KEYS: [&'static str; 8] = [
    "pattern",
    "file_path",
    "path",
    "command",
    "query",
    "url",
    "old_string",
    "args",
];

/// The hint for the first of the keys whose field is a string.
pub open spec fn first_text(obj: Seq<(Seq<char>, FieldView)>, keys: Seq<Seq<char>>) -> Option<
    Seq<char>,
>
    decreases keys.len(),
{
    if keys.len() == 0 {
        None
    } else {
        match field_of(obj, keys[0]) {
            Some(FieldView::Str(s)) => Some(
                keys[0] + "="@ + text::summary_cut(chars::replaced(s, '\n', ' '), 64),
            ),
            _ => first_text(obj, keys.drop_first()),
        }
    }
}

/// The one-line hint for a trimmed tool input whose JSON fields are given.
pub open spec fn arg_hint(trimmed: Seq<char>, obj: Option<Seq<(Seq<char>, FieldView)>>) -> Seq<
    char,
> {
    let plain = text::summary_cut(chars::replaced(trimmed, '\n', ' '), 72);
    match obj {
        Some(fields) => match first_text(fields, names(HINT_KEYS@)) {
            Some(hint) => hint,
            None => match field_of(fields, "args"@) {
                Some(FieldView::Array(a)) => "args="@ + text::summary_cut(joined_elements(a), 64),
                _ => plain,
            },
        },
        None => plain,
    }
}

/// One-line argument hint, from the trimmed tool input and its JSON fields. It
/// holds no line break, whatever the input.
pub fn tool_arg_hint(trimmed: &str, obj: &Option<Vec<(String, Field)>>) -> (r: String)
    ensures
        r@ == arg_hint(trimmed@, opt_object(*obj)),
        no_break(r@),
{
    match obj {
        Some(fields) => {
            let ghost view = object(fields@);
            let ghost keys = names(HINT_KEYS@);
            let mut i: usize = 0;
            assert(keys.skip(0) =~= keys);
            while i < 8
                invariant
                    0 <= i <= 8,
                    keys == names(HINT_KEYS@),
                    keys.len() == 8,
                    view == object(fields@),
                    opt_object(*obj) == Some(view),
                    first_text(view, keys) == first_text(view, keys.skip(i as int)),
                decreases 8 - i,
            {
                let key = HINT_KEYS[i];
                proof {
                    assert(keys.skip(i as int)[0] == key@);
                    assert(keys.skip(i as int).drop_first() =~= keys.skip(i + 1));
                }
                match find_field(fields, key) {
                    Some(f) => match f {
                        Field::Str(s) => {
                            let flat = chars::replace_char(s.as_str(), '\n', ' ');
                            let shown = text::truncate_summary(flat.as_str(), 64);
                            proof {
                                lemma_hint_keys_no_break();
                                lemma_first_text_no_break(view, keys);
                            }
                            return chars::cat3(key, "=", shown.as_str());
                        },
                        _ => {},
                    },
                    None => {},
                }
                i = i + 1;
            }
            match find_field(fields, "args") {
                Some(f) => match f {
                    Field::Array(a) => {
                        let joined = join_elements(a);
                        proof {
                            assert(f@->Array_0 =~= elements(a@));
                        }
                        let shown = text::truncate_summary(joined.as_str(), 64);
                        proof {
                            reveal_strlit("args=");
                            lemma_cut_no_break(joined@, 64);
                            lemma_no_break_concat("args="@, shown@);
                        }
                        return chars::cat2("args=", shown.as_str());
                    },
                    _ => {},
                },
                None => {},
            }
        },
        None => {},
    }
    let flat = chars::replace_char(trimmed, '\n', ' ');
    proof {
        lemma_cut_no_break(flat@, 72);
    }
    text::truncate_summary(flat.as_str(), 72)
}

/// One-line arg preview for tool_use rows (avoid dumping pretty JSON).
pub fn compact_tool_arg_hint(input: &str) -> (r: String)
    ensures
        r@ == (if chars::blank(input@) {
            seq![]
        } else {
            arg_hint(chars::trim(input@), json_fields(chars::trim(input@)))
        }),
        no_break(r@),
{
    let trimmed = chars::trimmed(input);
    proof {
        chars::lemma_trim_blank(input@);
    }
    if trimmed.as_str().is_empty() {
        return String::new();
    }
    let obj = parse_object(trimmed.as_str());
    tool_arg_hint(trimmed.as_str(), &obj)
}

// ---------------------------------------------------------------------------
// Tool results
// ---------------------------------------------------------------------------

/// Whether a line looks like part of a search hit rather than of JSON.
pub open spec fn colon_line(l: Seq<char>) -> bool {
    chars::count_of(l, ':') >= 1 && !(l.len() > 0 && l[0] == '{')
}

/// How many of the lines hold at least two colons.
pub open spec fn hit_lines(ls: Seq<Seq<char>>) -> nat
    decreases ls.len(),
{
    if ls.len() == 0 {
        0
    } else {
        hit_lines(ls.drop_last()) + if chars::count_of(ls.last(), ':') >= 2 {
            1nat
        } else {
            0
        }
    }
}

/// The first `n` lines, or all of them.
pub open spec fn head(ls: Seq<Seq<char>>, n: nat) -> Seq<Seq<char>> {
    if ls.len() <= n {
        ls
    } else {
        ls.take(n as int)
    }
}

/// Whether content reads like the output of a search: `path:line:text` rows.
pub open spec fn like_search(content: Seq<char>) -> bool {
    let ls = chars::lines(content);
    &&& exists|i: int| 0 <= i < head(ls, 5).len() && colon_line(#[trigger] head(ls, 5)[i])
    &&& ls.len() > 3
    &&& !chars::has(content, "(showing lines"@)
    &&& hit_lines(head(ls, 8)) >= 2
}

/// The kind of display for a tool result.
pub open spec fn display_kind(tool_name: Seq<char>, content: Seq<char>) -> Seq<char> {
    if tool_name != "tool"@ && tool_name.len() > 0 {
        tool_name
    } else if chars::has(content, "(showing lines"@) {
        "file_read"@
    } else if chars::has(content, "result(s)"@) || (chars::has(content, " more ("@) && chars::has(
        content,
        " total)"@,
    )) {
        "glob"@
    } else if chars::has(content, "(exit code"@) {
        "shell"@
    } else if like_search(content) {
        "grep"@
    } else {
        tool_name
    }
}

fn reads_like_search(content: &str) -> (r: bool)
    ensures
        r == like_search(content@),
{
    let ls = chars::split_lines(content);
    let ghost all = chars::lines(content@);
    let mut any: bool = false;
    let mut hits: usize = 0;
    let mut i: usize = 0;
    assert(head(all, 8).take(0) =~= Seq::<Seq<char>>::empty());
    while i < ls.len() && i < 8
        invariant
            0 <= i <= ls@.len(),
            i <= 8,
            all == chars::strs(ls@),
            hits <= i,
            hits == hit_lines(head(all, 8).take(i as int)),
            any == (exists|j: int|
                0 <= j < i && j < head(all, 5).len() && colon_line(#[trigger] head(all, 5)[j])),
        decreases 8 - i,
    {
        let n = chars::count_char(ls[i].as_str(), ':');
        proof {
            let h = head(all, 8);
            assert(h.take(i + 1).drop_last() =~= h.take(i as int));
            assert(h.take(i + 1).last() == ls@[i as int]@);
            assert(i < 5 ==> head(all, 5)[i as int] == ls@[i as int]@);
        }
        if n >= 2 {
            hits = hits + 1;
        }
        if i < 5 && n >= 1 && !chars::starts_with_char(ls[i].as_str(), '{') {
            assert(colon_line(head(all, 5)[i as int]));
            any = true;
        }
        i = i + 1;
    }
    assert(head(all, 8).take(i as int) =~= head(all, 8));
    any && ls.len() > 3 && !chars::contains(content, "(showing lines") && hits >= 2
}

/// Resolve display kind from stored name, or sniff content when the name was
/// lost (older resumes used a generic `"tool"` label).
pub fn infer_tool_display_kind<'a>(tool_name: &'a str, content: &str) -> (r: &'a str)
    ensures
        r@ == display_kind(tool_name@, content@),
{
    if !chars::str_eq(tool_name, "tool") && !tool_name.is_empty() {
        return tool_name;
    }
    if chars::contains(content, "(showing lines") {
        return "file_read";
    }
    if chars::contains(content, "result(s)") || (chars::contains(content, " more (")
        && chars::contains(content, " total)")) {
        return "glob";
    }
    if chars::contains(content, "(exit code") {
        return "shell";
    }
    if reads_like_search(content) {
        return "grep";
    }
    tool_name
}

/// The lines that hold more than white space.
pub open spec fn inked(ls: Seq<Seq<char>>) -> Seq<Seq<char>>
    decreases ls.len(),
{
    if ls.len() == 0 {
        seq![]
    } else if chars::blank(ls.last()) {
        inked(ls.drop_last())
    } else {
        inked(ls.drop_last()).push(ls.last())
    }
}

/// The last of the lines that holds `p`.
pub open spec fn last_with(ls: Seq<Seq<char>>, p: Seq<char>) -> Option<Seq<char>>
    decreases ls.len(),
{
    if ls.len() == 0 {
        None
    } else if chars::has(ls.last(), p) {
        Some(ls.last())
    } else {
        last_with(ls.drop_last(), p)
    }
}

/// Whether a line of file-search output sums up its matches.
pub open spec fn sums_up(l: Seq<char>) -> bool {
    let t = chars::trim(l);
    chars::has(t, "result(s)"@) || chars::has(t, " total)"@) || (t.len() > 0 && t[0] == '…')
}

/// The last of the lines that sums up the matches.
pub open spec fn last_summary(ls: Seq<Seq<char>>) -> Option<Seq<char>>
    decreases ls.len(),
{
    if ls.len() == 0 {
        None
    } else if sums_up(ls.last()) {
        Some(ls.last())
    } else {
        last_summary(ls.drop_last())
    }
}

/// A summary line reduced to its count: `M result(s)` or `… (M total)`.
pub open spec fn clean_count(s: Seq<char>) -> Seq<char> {
    let suffix = " result(s)"@;
    let rest = s.take(s.len() - suffix.len());
    let i = chars::last_occurrence(s, "("@);
    let j = chars::last_occurrence(s, " total)"@);
    let n = chars::trim(s.subrange(i + 1, j));
    if chars::occurs_at(s, suffix, s.len() - suffix.len()) && chars::all_digits(rest) {
        rest + " matches"@
    } else if 0 <= i < j && chars::all_digits(n) {
        n + " matches"@
    } else {
        s
    }
}

/// The transcript body for a tool result of the given kind.
pub open spec fn result_body(kind: Seq<char>, content: Seq<char>) -> Seq<char> {
    let c = chars::trim(content);
    let ls = chars::lines(c);
    let hits = inked(ls);
    if c.len() == 0 {
        seq![]
    } else if kind == "file_read"@ {
        match last_with(ls, "(showing lines"@) {
            Some(l) => l,
            None => "("@ + chars::decimal(hits.len()) + " lines read)"@,
        }
    } else if kind == "glob"@ {
        if chars::has(c, "No matches"@) {
            "No matches found."@
        } else {
            match last_summary(ls) {
                Some(l) => clean_count(chars::trim(l)),
                None => chars::decimal(hits.len()) + " matches"@,
            }
        }
    } else if kind == "grep"@ {
        if hits.len() == 0 {
            "No matches."@
        } else if hits.len() == 1 {
            chars::at_most(hits[0], 100)
        } else {
            chars::decimal(hits.len()) + " matches"@
        }
    } else if kind == "shell"@ {
        text::display_cut(c, 2, 3)
    } else if hits.len() <= 2 {
        c
    } else {
        chars::at_most(hits[0], 80) + "… ("@ + chars::decimal(hits.len()) + " lines)"@
    }
}

fn inked_lines(ls: &Vec<String>) -> (r: Vec<String>)
    ensures
        chars::strs(r@) == inked(chars::strs(ls@)),
{
    let ghost all = chars::strs(ls@);
    let mut out: Vec<String> = Vec::new();
    let mut i: usize = 0;
    assert(all.take(0) =~= Seq::<Seq<char>>::empty());
    assert(chars::strs(out@) =~= inked(all.take(0)));
    while i < ls.len()
        invariant
            0 <= i <= ls@.len(),
            all == chars::strs(ls@),
            chars::strs(out@) == inked(all.take(i as int)),
        decreases ls@.len() - i,
    {
        proof {
            assert(all.take(i + 1).drop_last() =~= all.take(i as int));
            assert(all.take(i + 1).last() == ls@[i as int]@);
        }
        if !chars::is_blank(ls[i].as_str()) {
            let item = ls[i].clone();
            proof {
                chars::lemma_strs_push(out@, item);
            }
            out.push(item);
        }
        i = i + 1;
    }
    assert(all.take(i as int) =~= all);
    out
}

fn find_last_with(ls: &Vec<String>, p: &str) -> (r: Option<String>)
    ensures
        chars::opt(r) == last_with(chars::strs(ls@), p@),
{
    let ghost all = chars::strs(ls@);
    let mut n: usize = ls.len();
    assert(all.take(n as int) =~= all);
    while n > 0
        invariant
            0 <= n <= ls@.len(),
            all == chars::strs(ls@),
            last_with(all, p@) == last_with(all.take(n as int), p@),
        decreases n,
    {
        assert(all.take(n as int).drop_last() =~= all.take(n - 1));
        assert(all.take(n as int).last() == ls@[n - 1]@);
        if chars::contains(ls[n - 1].as_str(), p) {
            return Some(ls[n - 1].clone());
        }
        n = n - 1;
    }
    None
}

fn find_last_summary(ls: &Vec<String>) -> (r: Option<String>)
    ensures
        chars::opt(r) == last_summary(chars::strs(ls@)),
{
    let ghost all = chars::strs(ls@);
    let mut n: usize = ls.len();
    assert(all.take(n as int) =~= all);
    while n > 0
        invariant
            0 <= n <= ls@.len(),
            all == chars::strs(ls@),
            last_summary(all) == last_summary(all.take(n as int)),
        decreases n,
    {
        assert(all.take(n as int).drop_last() =~= all.take(n - 1));
        assert(all.take(n as int).last() == ls@[n - 1]@);
        let t = chars::trimmed(ls[n - 1].as_str());
        if chars::contains(t.as_str(), "result(s)") || chars::contains(t.as_str(), " total)")
            || chars::starts_with_char(t.as_str(), '…') {
            return Some(ls[n - 1].clone());
        }
        n = n - 1;
    }
    None
}

fn only_digits(s: &str) -> (r: bool)
    ensures
        r == chars::all_digits(s@),
{
    let v = chars::to_chars(s);
    let mut i: usize = 0;
    while i < v.len()
        invariant
            v@ == s@,
            0 <= i <= v@.len(),
            forall|j: int| 0 <= j < i ==> chars::is_digit(#[trigger] v@[j]),
        decreases v@.len() - i,
    {
        if !('0' <= v[i] && v[i] <= '9') {
            assert(!chars::is_digit(s@[i as int]));
            return false;
        }
        i = i + 1;
    }
    true
}

fn count_from_summary(s: &str) -> (r: String)
    ensures
        r@ == clean_count(s@),
{
    let v = chars::to_chars(s);
    let suffix = chars::to_chars(" result(s)");
    if v.len() >= suffix.len() && chars::stands_at(&v, &suffix, v.len() - suffix.len()) {
        let rest = chars::range_string(&v, 0, v.len() - suffix.len());
        assert(rest@ =~= s@.take(s@.len() - " result(s)"@.len()));
        if only_digits(rest.as_str()) {
            return chars::cat2(rest.as_str(), " matches");
        }
    }
    let open = chars::to_chars("(");
    let close = chars::to_chars(" total)");
    match chars::rfind(&v, &open) {
        Some(i) => match chars::rfind(&v, &close) {
            Some(j) => {
                if j > i {
                    proof {
                        chars::lemma_last_at(v@, close@, v@.len() + 1);
                    }
                    let inner = chars::range_string(&v, i + 1, j);
                    let n = chars::trimmed(inner.as_str());
                    if only_digits(n.as_str()) {
                        return chars::cat2(n.as_str(), " matches");
                    }
                }
            },
            None => {},
        },
        None => {},
    }
    String::from_str(s)
}

/// Summary-first transcript body for a tool result. Full payload stays with the agent.
pub fn compact_tool_result_display(kind: &str, content: &str) -> (r: String)
    ensures
        r@ == result_body(kind@, content@),
{
    let c = chars::trimmed(content);
    if c.as_str().is_empty() {
        return String::new();
    }
    let ls = chars::split_lines(c.as_str());
    let hits = inked_lines(&ls);
    let n = chars::count_string(hits.len());
    assert(chars::strs(hits@).len() == hits@.len());
    if chars::str_eq(kind, "file_read") {
        match find_last_with(&ls, "(showing lines") {
            Some(l) => l,
            None => chars::cat3("(", n.as_str(), " lines read)"),
        }
    } else if chars::str_eq(kind, "glob") {
        if chars::contains(c.as_str(), "No matches") {
            return String::from_str("No matches found.");
        }
        match find_last_summary(&ls) {
            Some(l) => {
                let s = chars::trimmed(l.as_str());
                count_from_summary(s.as_str())
            },
            None => chars::cat2(n.as_str(), " matches"),
        }
    } else if chars::str_eq(kind, "grep") {
        if hits.len() == 0 {
            String::from_str("No matches.")
        } else if hits.len() == 1 {
            chars::take_chars(hits[0].as_str(), 100)
        } else {
            chars::cat2(n.as_str(), " matches")
        }
    } else if chars::str_eq(kind, "shell") {
        // Keep a little shell context so test summaries / exit codes remain visible.
        text::truncate_display(c.as_str(), 2, 3)
    } else if hits.len() <= 2 {
        c
    } else {
        // One-line summary for unknown tools.
        let first = chars::take_chars(hits[0].as_str(), 80);
        chars::cat4(first.as_str(), "… (", n.as_str(), " lines)")
    }
}

// ---------------------------------------------------------------------------
// The shape of a result
// ---------------------------------------------------------------------------

/// The lines that hold more than white space are among the lines, and do.
proof fn lemma_inked(ls: Seq<Seq<char>>, k: int)
    requires
        0 <= k < inked(ls).len(),
    ensures
        ls.contains(inked(ls)[k]),
        inked(ls)[k].len() > 0,
    decreases ls.len(),
{
    let init = ls.drop_last();
    if k < inked(init).len() {
        lemma_inked(init, k);
        let j = choose|j: int| 0 <= j < init.len() && init[j] == inked(init)[k];
        assert(ls[j] == inked(ls)[k]);
    } else {
        assert(ls[ls.len() - 1] == inked(ls)[k]);
    }
}

proof fn lemma_last_with(ls: Seq<Seq<char>>, p: Seq<char>)
    requires
        last_with(ls, p) is Some,
    ensures
        ls.contains(last_with(ls, p)->0),
        chars::has(last_with(ls, p)->0, p),
    decreases ls.len(),
{
    if chars::has(ls.last(), p) {
        assert(ls[ls.len() - 1] == ls.last());
    } else {
        let init = ls.drop_last();
        lemma_last_with(init, p);
        let j = choose|j: int| 0 <= j < init.len() && init[j] == last_with(ls, p)->0;
        assert(ls[j] == init[j]);
    }
}

proof fn lemma_last_summary(ls: Seq<Seq<char>>)
    requires
        last_summary(ls) is Some,
    ensures
        ls.contains(last_summary(ls)->0),
        sums_up(last_summary(ls)->0),
    decreases ls.len(),
{
    if sums_up(ls.last()) {
        assert(ls[ls.len() - 1] == ls.last());
    } else {
        let init = ls.drop_last();
        lemma_last_summary(init);
        let j = choose|j: int| 0 <= j < init.len() && init[j] == last_summary(ls)->0;
        assert(ls[j] == init[j]);
    }
}

/// A line of a text stays on its line.
proof fn lemma_line_no_break(c: Seq<char>, l: Seq<char>)
    requires
        chars::lines(c).contains(l),
    ensures
        no_break(l),
{
    let k = choose|k: int| 0 <= k < chars::lines(c).len() && chars::lines(c)[k] == l;
    chars::lemma_lines_are_whole(c, k);
}

proof fn lemma_trim_no_break(s: Seq<char>)
    requires
        no_break(s),
    ensures
        no_break(chars::trim(s)),
{
    let t = chars::trim_start(s);
    chars::lemma_trim_start(s);
    chars::lemma_trim_end(t);
    assert forall|i: int| 0 <= i < chars::trim(s).len() implies #[trigger] chars::trim(s)[i]
        != '\n' by {
        assert(chars::trim(s)[i] == t[i]);
        assert(t[i] == s[i + s.len() - t.len()]);
    }
}

/// A count stays on its line and is never empty.
proof fn lemma_clean_count_shape(s: Seq<char>)
    requires
        no_break(s),
        s.len() > 0,
    ensures
        no_break(clean_count(s)),
        clean_count(s).len() > 0,
{
    reveal_strlit(" matches");
    reveal_strlit(" result(s)");
    let suffix = " result(s)"@;
    let rest = s.take(s.len() - suffix.len());
    let i = chars::last_occurrence(s, "("@);
    let j = chars::last_occurrence(s, " total)"@);
    if chars::occurs_at(s, suffix, s.len() - suffix.len()) && chars::all_digits(rest) {
        lemma_no_break_concat(rest, " matches"@);
    } else if 0 <= i < j && chars::all_digits(chars::trim(s.subrange(i + 1, j))) {
        chars::lemma_last_at(s, " total)"@, s.len() + 1);
        let n = s.subrange(i + 1, j);
        assert forall|k: int| 0 <= k < n.len() implies #[trigger] n[k] != '\n' by {
            assert(n[k] == s[k + i + 1]);
        }
        lemma_trim_no_break(n);
        lemma_no_break_concat(chars::trim(n), " matches"@);
    }
}

proof fn lemma_counted(n: nat, before: Seq<char>, after: Seq<char>)
    requires
        no_break(before),
        no_break(after),
    ensures
        no_break(before + chars::decimal(n) + after),
        (before + chars::decimal(n) + after).len() > 0,
        no_break(chars::decimal(n) + after),
        (chars::decimal(n) + after).len() > 0,
{
    chars::lemma_decimal_digits(n);
    lemma_decimal_no_break(n);
    lemma_no_break_concat(before, chars::decimal(n));
    lemma_no_break_concat(before + chars::decimal(n), after);
    lemma_no_break_concat(chars::decimal(n), after);
}

proof fn lemma_read_shape(c: Seq<char>)
    requires
        c.len() > 0,
        c == chars::trim(c),
    ensures
        no_break(result_body("file_read"@, c)),
        result_body("file_read"@, c).len() > 0,
{
    let ls = chars::lines(c);
    let p = "(showing lines"@;
    reveal_strlit("(showing lines");
    reveal_strlit("(");
    reveal_strlit(" lines read)");
    if last_with(ls, p) is Some {
        let l = last_with(ls, p)->0;
        lemma_last_with(ls, p);
        lemma_line_no_break(c, l);
        let i = choose|i: int| chars::occurs_at(l, p, i);
        assert(l.len() >= p.len());
    } else {
        lemma_counted(inked(ls).len(), "("@, " lines read)"@);
    }
}

proof fn lemma_glob_shape(c: Seq<char>)
    requires
        c.len() > 0,
        c == chars::trim(c),
    ensures
        no_break(result_body("glob"@, c)),
        result_body("glob"@, c).len() > 0,
{
    let ls = chars::lines(c);
    reveal_strlit("glob");
    reveal_strlit("file_read");
    reveal_strlit("No matches found.");
    reveal_strlit(" matches");
    reveal_strlit("result(s)");
    reveal_strlit(" total)");
    assert("glob"@.len() != "file_read"@.len());
    if !chars::has(c, "No matches"@) {
        if last_summary(ls) is Some {
            let l = last_summary(ls)->0;
            lemma_last_summary(ls);
            lemma_line_no_break(c, l);
            lemma_trim_no_break(l);
            assert(chars::trim(l).len() > 0);
            lemma_clean_count_shape(chars::trim(l));
        } else {
            lemma_counted(inked(ls).len(), seq![], " matches"@);
        }
    }
}

proof fn lemma_grep_shape(c: Seq<char>)
    requires
        c.len() > 0,
        c == chars::trim(c),
    ensures
        no_break(result_body("grep"@, c)),
        result_body("grep"@, c).len() > 0,
{
    let ls = chars::lines(c);
    let hits = inked(ls);
    reveal_strlit("grep");
    reveal_strlit("glob");
    reveal_strlit("file_read");
    reveal_strlit("No matches.");
    reveal_strlit(" matches");
    assert("grep"@.len() != "file_read"@.len());
    assert("grep"@[1] != "glob"@[1]);
    if hits.len() == 1 {
        lemma_inked(ls, 0);
        lemma_line_no_break(c, hits[0]);
    } else {
        lemma_counted(hits.len(), seq![], " matches"@);
    }
}

proof fn lemma_shell_shape(c: Seq<char>)
    requires
        c.len() > 0,
        c == chars::trim(c),
    ensures
        chars::count_of(result_body("shell"@, c), '\n') <= 5,
        chars::ends(result_body("shell"@, c), chars::lines(c).last()),
        result_body("shell"@, c).len() > 0,
{
    reveal_strlit("shell");
    reveal_strlit("grep");
    reveal_strlit("glob");
    reveal_strlit("file_read");
    assert("shell"@.len() != "grep"@.len());
    assert("shell"@.len() != "glob"@.len());
    assert("shell"@.len() != "file_read"@.len());
    chars::lemma_trim_end(chars::trim_start(c));
    text::law_display_cut_is_short(c, 2, 3);
    chars::lemma_lines_of_trimmed(c);
}

/// Trimming twice is trimming once.
proof fn lemma_trim_twice(s: Seq<char>)
    ensures
        chars::trim(chars::trim(s)) == chars::trim(s),
{
    let t = chars::trim_start(s);
    let c = chars::trim(s);
    chars::lemma_trim_start(s);
    chars::lemma_trim_end(t);
    if c.len() > 0 {
        assert(c[0] == t[0]);
    }
    assert(chars::trim_start(c) == c);
    assert(chars::trim_end(c) == c);
}

/// What stands in the transcript for a tool's result: one line for files that
/// were read or searched for and for searches in them; at most six lines, the
/// last of them that of the output, for a command; and nothing only where the
/// tool said nothing.
pub proof fn law_result_shape(kind: Seq<char>, content: Seq<char>)
    ensures
        result_body(kind, content).len() == 0 <==> chars::blank(content),
        kind == "file_read"@ || kind == "glob"@ || kind == "grep"@ ==> no_break(
            result_body(kind, content),
        ),
        kind == "shell"@ ==> chars::count_of(result_body(kind, content), '\n') <= 5,
        kind == "shell"@ && !chars::blank(content) ==> chars::ends(
            result_body(kind, content),
            chars::lines(chars::trim(content)).last(),
        ),
{
    let c = chars::trim(content);
    lemma_trim_twice(content);
    chars::lemma_trim_blank(content);
    assert(result_body(kind, content) == result_body(kind, c));
    if c.len() > 0 {
        lemma_read_shape(c);
        lemma_glob_shape(c);
        lemma_grep_shape(c);
        lemma_shell_shape(c);
        reveal_strlit("… (");
    }
}

} // verus!
