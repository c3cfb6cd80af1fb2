//! Editing a text at a cursor that counts bytes.

use crate::chars;
use vstd::prelude::*;

verus! {

/// The text before the cursor.
pub open spec fn before(text: Seq<char>, cursor: int) -> Seq<char> {
    text.take(chars::chars_before(text, cursor))
}

/// The text from the cursor on.
pub open spec fn after(text: Seq<char>, cursor: int) -> Seq<char> {
    text.skip(chars::chars_before(text, cursor))
}

/// `text` with `add` put in at the cursor.
pub open spec fn inserted(text: Seq<char>, cursor: int, add: Seq<char>) -> Seq<char> {
    before(text, cursor) + add + after(text, cursor)
}

/// The cursor one character to the left.
pub open spec fn left_of(text: Seq<char>, cursor: int) -> int {
    if cursor > 0 {
        chars::byte_len(before(text, cursor).drop_last()) as int
    } else {
        cursor
    }
}

/// The cursor one character to the right.
pub open spec fn right_of(text: Seq<char>, cursor: int) -> int {
    if cursor < chars::byte_len(text) {
        cursor + chars::utf8_width(after(text, cursor)[0])
    } else {
        cursor
    }
}

/// `text` without the character before the cursor.
pub open spec fn backspaced(text: Seq<char>, cursor: int) -> Seq<char> {
    if cursor > 0 {
        before(text, cursor).drop_last() + after(text, cursor)
    } else {
        text
    }
}

/// `text` without the character at the cursor.
pub open spec fn deleted(text: Seq<char>, cursor: int) -> Seq<char> {
    if cursor < chars::byte_len(text) {
        before(text, cursor) + after(text, cursor).drop_first()
    } else {
        text
    }
}

/// What a cursor on a boundary says of the text around it.
pub proof fn lemma_cursor(text: Seq<char>, cursor: int)
    requires
        chars::on_boundary(text, cursor),
    ensures
        0 <= chars::chars_before(text, cursor) <= text.len(),
        chars::byte_len(before(text, cursor)) == cursor,
        chars::byte_len(before(text, cursor)) + chars::byte_len(after(text, cursor))
            == chars::byte_len(text),
        text == before(text, cursor) + after(text, cursor),
        0 <= cursor <= chars::byte_len(text),
        cursor > 0 <==> before(text, cursor).len() > 0,
        cursor < chars::byte_len(text) <==> after(text, cursor).len() > 0,
{
    chars::lemma_chars_before_bounds(text, cursor);
    let a = before(text, cursor);
    let b = after(text, cursor);
    assert(text =~= a + b);
    chars::lemma_byte_len_concat(a, b);
    chars::lemma_byte_len_at_least(a);
    chars::lemma_byte_len_at_least(b);
}

/// The end of a leading part is a boundary.
pub proof fn lemma_boundary_of(a: Seq<char>, b: Seq<char>)
    ensures
        chars::on_boundary(a + b, chars::byte_len(a) as int),
{
    assert((a + b).take(a.len() as int) =~= a);
    chars::lemma_chars_before_is(a + b, a.len() as int);
}

fn char_bytes(c: char) -> (n: usize)
    ensures
        n == chars::utf8_width(c),
{
    let cp = c as u32;
    if cp <= 0x7f {
        1
    } else if cp <= 0x7ff {
        2
    } else if cp <= 0xffff {
        3
    } else {
        4
    }
}

/// How many characters stand before byte offset `b`.
pub fn char_index(v: &Vec<char>, b: usize) -> (k: usize)
    ensures
        k == chars::chars_before(v@, b as int),
        k <= v@.len(),
{
    let mut i: usize = 0;
    let mut rem: usize = b;
    assert(v@.skip(0) =~= v@);
    while i < v.len() && rem > 0
        invariant
            0 <= i <= v@.len(),
            chars::chars_before(v@, b as int) == i + chars::chars_before(
                v@.skip(i as int),
                rem as int,
            ),
        decreases v@.len() - i,
    {
        let w = char_bytes(v[i]);
        proof {
            assert(v@.skip(i as int)[0] == v@[i as int]);
            assert(v@.skip(i as int).drop_first() =~= v@.skip(i + 1));
        }
        let ghost left = rem - w;
        if w >= rem {
            rem = 0;
        } else {
            rem = rem - w;
        }
        assert(chars::chars_before(v@.skip(i + 1), left) == chars::chars_before(
            v@.skip(i + 1),
            rem as int,
        ));
        i = i + 1;
    }
    i
}

/// The text before the cursor, and the text from it on.
pub fn split_at_cursor(text: &str, cursor: usize) -> (r: (String, String))
    ensures
        r.0@ == before(text@, cursor as int),
        r.1@ == after(text@, cursor as int),
{
    let v = chars::to_chars(text);
    let k = char_index(&v, cursor);
    let a = chars::range_string(&v, 0, k);
    let b = chars::range_string(&v, k, v.len());
    assert(a@ =~= before(text@, cursor as int));
    assert(b@ =~= after(text@, cursor as int));
    (a, b)
}

/// Puts `add` in at the cursor and moves the cursor behind it.
pub fn insert_text(text: &str, cursor: usize, add: &str) -> (r: (String, usize))
    requires
        chars::on_boundary(text@, cursor as int),
    ensures
        r.0@ == inserted(text@, cursor as int, add@),
        r.1 == cursor + chars::byte_len(add@),
        chars::on_boundary(r.0@, r.1 as int),
{
    let (a, b) = split_at_cursor(text, cursor);
    let out = chars::cat3(a.as_str(), add, b.as_str());
    proof {
        lemma_cursor(text@, cursor as int);
        chars::lemma_byte_len_concat(a@, add@);
        chars::lemma_byte_len_concat(a@ + add@, b@);
        lemma_boundary_of(a@ + add@, b@);
    }
    let total = chars::str_bytes(out.as_str());
    assert(total == cursor + chars::byte_len(add@) + chars::byte_len(b@));
    (out, cursor + chars::str_bytes(add))
}

/// Moves the cursor one character to the left.
pub fn move_left(text: &str, cursor: usize) -> (r: usize)
    requires
        chars::on_boundary(text@, cursor as int),
    ensures
        r == left_of(text@, cursor as int),
        chars::on_boundary(text@, r as int),
{
    if cursor == 0 {
        return 0;
    }
    let v = chars::to_chars(text);
    let k = char_index(&v, cursor);
    proof {
        lemma_cursor(text@, cursor as int);
        let a = before(text@, cursor as int);
        assert(a =~= a.drop_last().push(a.last()));
        chars::lemma_byte_len_push(a.drop_last(), a.last());
        assert(a.drop_last() =~= text@.take(k - 1));
        chars::lemma_chars_before_is(text@, k - 1);
    }
    cursor - char_bytes(v[k - 1])
}

/// Moves the cursor one character to the right.
pub fn move_right(text: &str, cursor: usize) -> (r: usize)
    requires
        chars::on_boundary(text@, cursor as int),
    ensures
        r == right_of(text@, cursor as int),
        chars::on_boundary(text@, r as int),
{
    let total = chars::str_bytes(text);
    if cursor >= total {
        return cursor;
    }
    let v = chars::to_chars(text);
    let k = char_index(&v, cursor);
    proof {
        lemma_cursor(text@, cursor as int);
        let a = before(text@, cursor as int);
        let b = after(text@, cursor as int);
        assert(text@.take(k + 1) =~= a.push(b[0]));
        chars::lemma_byte_len_push(a, b[0]);
        chars::lemma_chars_before_is(text@, k + 1);
        chars::lemma_byte_len_concat(text@.take(k + 1), text@.skip(k + 1));
        assert(text@ =~= text@.take(k + 1) + text@.skip(k + 1));
    }
    cursor + char_bytes(v[k])
}

/// Drops the character before the cursor.
pub fn backspace(text: &str, cursor: usize) -> (r: (String, usize))
    requires
        chars::on_boundary(text@, cursor as int),
    ensures
        r.0@ == backspaced(text@, cursor as int),
        r.1 == left_of(text@, cursor as int),
        chars::on_boundary(r.0@, r.1 as int),
{
    if cursor == 0 {
        return (String::from_str(text), 0);
    }
    let at = move_left(text, cursor);
    let v = chars::to_chars(text);
    let k = char_index(&v, cursor);
    proof {
        lemma_cursor(text@, cursor as int);
    }
    let a = chars::range_string(&v, 0, k - 1);
    let b = chars::range_string(&v, k, v.len());
    proof {
        assert(a@ =~= before(text@, cursor as int).drop_last());
        assert(b@ =~= after(text@, cursor as int));
        lemma_boundary_of(a@, b@);
    }
    (chars::cat2(a.as_str(), b.as_str()), at)
}

/// Drops the character at the cursor.
pub fn delete(text: &str, cursor: usize) -> (r: String)
    requires
        chars::on_boundary(text@, cursor as int),
    ensures
        r@ == deleted(text@, cursor as int),
        chars::on_boundary(r@, cursor as int),
{
    if cursor >= chars::str_bytes(text) {
        return String::from_str(text);
    }
    let v = chars::to_chars(text);
    let k = char_index(&v, cursor);
    proof {
        lemma_cursor(text@, cursor as int);
    }
    let a = chars::range_string(&v, 0, k);
    let b = chars::range_string(&v, k + 1, v.len());
    proof {
        assert(a@ =~= before(text@, cursor as int));
        assert(b@ =~= after(text@, cursor as int).drop_first());
        lemma_boundary_of(a@, b@);
    }
    chars::cat2(a.as_str(), b.as_str())
}

/// Dropping the character before the cursor takes back the insertion of one
/// character.
pub proof fn law_backspace_undoes_insert(text: Seq<char>, cursor: int, c: char)
    requires
        chars::on_boundary(text, cursor),
    ensures
        ({
            let typed = inserted(text, cursor, seq![c]);
            let at = cursor + chars::utf8_width(c);
            &&& chars::on_boundary(typed, at as int)
            &&& backspaced(typed, at as int) == text
            &&& left_of(typed, at as int) == cursor
        }),
{
    lemma_cursor(text, cursor);
    let a = before(text, cursor);
    let b = after(text, cursor);
    let typed = inserted(text, cursor, seq![c]);
    let head = a + seq![c];
    assert(head =~= a.push(c));
    chars::lemma_byte_len_push(a, c);
    lemma_boundary_of(head, b);
    let at = (cursor + chars::utf8_width(c)) as int;
    assert(typed.take(head.len() as int) =~= head);
    chars::lemma_chars_before_is(typed, head.len() as int);
    assert(before(typed, at) =~= head);
    assert(after(typed, at) =~= b);
    assert(head.drop_last() =~= a);
}

/// Moving right and then left comes back to the same place.
pub proof fn law_left_undoes_right(text: Seq<char>, cursor: int)
    requires
        chars::on_boundary(text, cursor),
        cursor < chars::byte_len(text),
    ensures
        chars::on_boundary(text, right_of(text, cursor)),
        left_of(text, right_of(text, cursor)) == cursor,
{
    lemma_cursor(text, cursor);
    let k = chars::chars_before(text, cursor);
    let a = before(text, cursor);
    let b = after(text, cursor);
    assert(text.take(k + 1) =~= a.push(b[0]));
    chars::lemma_byte_len_push(a, b[0]);
    chars::lemma_chars_before_is(text, k + 1);
    assert(a.push(b[0]).drop_last() =~= a);
}

} // verus!
