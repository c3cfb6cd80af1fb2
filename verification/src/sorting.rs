//! Sorting by insertion, and dropping neighbours that are equal.

use crate::chars;
use vstd::prelude::*;

verus! {

/// Putting `x` between the elements below it and those above it keeps a
/// sequence in order and adds just `x`.
pub proof fn lemma_insert_sorted<T>(s: Seq<T>, x: T, k: int, leq: spec_fn(T, T) -> bool)
    requires
        0 <= k <= s.len(),
        vstd::relations::sorted_by(s, leq),
        forall|i: int| 0 <= i < k ==> #[trigger] leq(s[i], x),
        forall|i: int| k <= i < s.len() ==> #[trigger] leq(x, s[i]),
    ensures
        vstd::relations::sorted_by(s.insert(k, x), leq),
        s.insert(k, x).to_multiset() == s.to_multiset().insert(x),
{
    vstd::seq_lib::to_multiset_insert(s, k, x);
    let t = s.insert(k, x);
    assert forall|i: int, j: int| 0 <= i < j < t.len() implies #[trigger] leq(t[i], t[j]) by {
        let a: int = if i < k {
            i
        } else {
            i - 1
        };
        let b: int = if j < k {
            j
        } else {
            j - 1
        };
        if i == k {
            assert(leq(x, s[j - 1]));
        } else if j == k {
            assert(leq(s[i], x));
        } else {
            assert(leq(s[a], s[b]));
        }
    }
}

/// What is in order and holds the elements of `s` is `s` sorted.
pub proof fn lemma_is_sorted<T>(r: Seq<T>, s: Seq<T>, leq: spec_fn(T, T) -> bool)
    requires
        vstd::relations::total_ordering(leq),
        vstd::relations::sorted_by(r, leq),
        r.to_multiset() == s.to_multiset(),
    ensures
        r == s.sort_by(leq),
{
    s.lemma_sort_by_ensures(leq);
    vstd::seq_lib::lemma_sorted_unique(r, s.sort_by(leq), leq);
}

/// The order of texts, as a relation.
pub open spec fn text_order() -> spec_fn(Seq<char>, Seq<char>) -> bool {
    |a: Seq<char>, b: Seq<char>| chars::text_le(a, b)
}

/// Texts in ascending order.
pub open spec fn texts_sorted(s: Seq<Seq<char>>) -> Seq<Seq<char>> {
    s.sort_by(text_order())
}

proof fn lemma_text_le_total(a: Seq<char>, b: Seq<char>)
    ensures
        chars::text_le(a, b) || chars::text_le(b, a),
    decreases a.len(),
{
    if a.len() > 0 && b.len() > 0 && a[0] == b[0] {
        lemma_text_le_total(a.drop_first(), b.drop_first());
    }
}

proof fn lemma_text_le_antisymmetric(a: Seq<char>, b: Seq<char>)
    requires
        chars::text_le(a, b),
        chars::text_le(b, a),
    ensures
        a == b,
    decreases a.len(),
{
    if a.len() > 0 && b.len() > 0 {
        lemma_text_le_antisymmetric(a.drop_first(), b.drop_first());
        assert(a =~= seq![a[0]] + a.drop_first());
        assert(b =~= seq![b[0]] + b.drop_first());
    } else {
        assert(a =~= b);
    }
}

proof fn lemma_text_le_transitive(a: Seq<char>, b: Seq<char>, c: Seq<char>)
    requires
        chars::text_le(a, b),
        chars::text_le(b, c),
    ensures
        chars::text_le(a, c),
    decreases a.len(),
{
    if a.len() > 0 && b.len() > 0 && c.len() > 0 && a[0] == b[0] && b[0] == c[0] {
        lemma_text_le_transitive(a.drop_first(), b.drop_first(), c.drop_first());
    }
}

/// The order of texts is total.
pub proof fn lemma_text_order()
    ensures
        vstd::relations::total_ordering(text_order()),
{
    let leq = text_order();
    assert forall|a: Seq<char>| #[trigger] leq(a, a) by {
        lemma_text_le_total(a, a);
    }
    assert forall|a: Seq<char>, b: Seq<char>| #[trigger] leq(a, b) && #[trigger] leq(b, a)
        implies a == b by {
        lemma_text_le_antisymmetric(a, b);
    }
    assert forall|a: Seq<char>, b: Seq<char>, c: Seq<char>| #[trigger]
        leq(a, b) && #[trigger] leq(b, c) implies leq(a, c) by {
        lemma_text_le_transitive(a, b, c);
    }
    assert forall|a: Seq<char>, b: Seq<char>| #[trigger] leq(a, b) || #[trigger] leq(b, a) by {
        lemma_text_le_total(a, b);
    }
}

fn text_at_most(a: &str, b: &str) -> (r: bool)
    ensures
        r == chars::text_le(a@, b@),
{
    let x = chars::to_chars(a);
    let y = chars::to_chars(b);
    let mut i: usize = 0;
    assert(x@.skip(0) =~= x@);
    assert(y@.skip(0) =~= y@);
    while i < x.len() && i < y.len()
        invariant
            x@ == a@,
            y@ == b@,
            0 <= i <= x@.len(),
            i <= y@.len(),
            chars::text_le(a@, b@) == chars::text_le(x@.skip(i as int), y@.skip(i as int)),
        decreases x@.len() - i,
    {
        assert(x@.skip(i as int).drop_first() =~= x@.skip(i + 1));
        assert(y@.skip(i as int).drop_first() =~= y@.skip(i + 1));
        if x[i] != y[i] {
            return x[i] < y[i];
        }
        i = i + 1;
    }
    i >= x.len()
}

proof fn lemma_strs_insert(v: Seq<String>, k: int, s: String)
    requires
        0 <= k <= v.len(),
    ensures
        chars::strs(v.insert(k, s)) == chars::strs(v).insert(k, s@),
{
    assert(chars::strs(v.insert(k, s)) =~= chars::strs(v).insert(k, s@));
}

/// A sorted copy of a list of strings.
pub fn sort_strings(v: &Vec<String>) -> (r: Vec<String>)
    ensures
        chars::strs(r@) == texts_sorted(chars::strs(v@)),
{
    let ghost all = chars::strs(v@);
    let ghost leq = text_order();
    let mut out: Vec<String> = Vec::new();
    let mut i: usize = 0;
    proof {
        lemma_text_order();
        assert(chars::strs(out@) =~= Seq::<Seq<char>>::empty());
        assert(all.take(0) =~= Seq::<Seq<char>>::empty());
    }
    while i < v.len()
        invariant
            all == chars::strs(v@),
            leq == text_order(),
            vstd::relations::total_ordering(leq),
            0 <= i <= v@.len(),
            vstd::relations::sorted_by(chars::strs(out@), leq),
            chars::strs(out@).to_multiset() == all.take(i as int).to_multiset(),
            out@.len() == i,
        decreases v@.len() - i,
    {
        let x = v[i].clone();
        let mut k: usize = out.len();
        while k > 0 && text_at_most(x.as_str(), out[k - 1].as_str())
            invariant
                leq == text_order(),
                0 <= k <= out@.len(),
                forall|j: int| k <= j < out@.len() ==> #[trigger] leq(x@, chars::strs(out@)[j]),
            decreases k,
        {
            assert(leq(x@, chars::strs(out@)[k - 1]));
            k = k - 1;
        }
        proof {
            let s = chars::strs(out@);
            assert forall|j: int| 0 <= j < k implies #[trigger] leq(s[j], x@) by {
                lemma_text_le_total(x@, s[k - 1]);
                if j < k - 1 {
                    assert(leq(s[j], s[k - 1]));
                    lemma_text_le_transitive(s[j], s[k - 1], x@);
                }
            }
            lemma_insert_sorted(s, x@, k as int, leq);
            lemma_strs_insert(out@, k as int, x);
            assert(all.take(i + 1) =~= all.take(i as int).push(x@));
            vstd::seq_lib::to_multiset_build(all.take(i as int), x@);
        }
        out.insert(k, x);
        i = i + 1;
    }
    proof {
        assert(all.take(i as int) =~= all);
        lemma_is_sorted(chars::strs(out@), all, leq);
    }
    out
}

/// Sorting keeps the texts and puts them in order.
pub proof fn law_texts_sorted(s: Seq<Seq<char>>)
    ensures
        texts_sorted(s).to_multiset() == s.to_multiset(),
        forall|i: int, j: int|
            0 <= i < j < texts_sorted(s).len() ==> chars::text_le(
                #[trigger] texts_sorted(s)[i],
                #[trigger] texts_sorted(s)[j],
            ),
{
    lemma_text_order();
    s.lemma_sort_by_ensures(text_order());
    let t = texts_sorted(s);
    assert forall|i: int, j: int| 0 <= i < j < t.len() implies chars::text_le(
        #[trigger] t[i],
        #[trigger] t[j],
    ) by {
        let leq = text_order();
        assert(leq(t[i], t[j]));
    }
}

/// A list without the elements that equal the one before them.
pub open spec fn deduped(s: Seq<Seq<char>>) -> Seq<Seq<char>>
    decreases s.len(),
{
    if s.len() == 0 {
        seq![]
    } else {
        let d = deduped(s.drop_last());
        if d.len() > 0 && d.last() == s.last() {
            d
        } else {
            d.push(s.last())
        }
    }
}

/// Drops each string that equals the one before it.
pub fn dedup_strings(v: Vec<String>) -> (r: Vec<String>)
    ensures
        chars::strs(r@) == deduped(chars::strs(v@)),
{
    let ghost all = chars::strs(v@);
    let mut out: Vec<String> = Vec::new();
    let mut i: usize = 0;
    assert(chars::strs(out@) =~= deduped(all.take(0)));
    while i < v.len()
        invariant
            all == chars::strs(v@),
            0 <= i <= v@.len(),
            chars::strs(out@) == deduped(all.take(i as int)),
        decreases v@.len() - i,
    {
        assert(all.take(i + 1).drop_last() =~= all.take(i as int));
        assert(all.take(i + 1).last() == v@[i as int]@);
        assert(chars::strs(out@).len() == out@.len());
        let n = out.len();
        if n == 0 || !chars::str_eq(out[n - 1].as_str(), v[i].as_str()) {
            let x = v[i].clone();
            proof {
                chars::lemma_strs_push(out@, x);
            }
            out.push(x);
        }
        i = i + 1;
    }
    assert(all.take(i as int) =~= all);
    out
}

/// A list whose neighbours all differ loses nothing.
pub proof fn lemma_deduped_distinct(s: Seq<Seq<char>>)
    requires
        forall|i: int| 0 < i < s.len() ==> s[i - 1] != #[trigger] s[i],
    ensures
        deduped(s) == s,
    decreases s.len(),
{
    if s.len() > 0 {
        let t = s.drop_last();
        assert forall|i: int| 0 < i < t.len() implies t[i - 1] != #[trigger] t[i] by {
            assert(s[i - 1] != s[i]);
        }
        lemma_deduped_distinct(t);
        if s.len() > 1 {
            assert(s[s.len() - 1] != s[s.len() - 2]);
            assert(t.last() == s[s.len() - 2]);
        }
        assert(t.push(s.last()) =~= s);
    }
}

} // verus!
