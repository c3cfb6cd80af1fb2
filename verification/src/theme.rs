//! The color themes that the UI can switch between.

use crate::chars;
use vstd::prelude::*;

verus! {

/// A theme, by the name that preferences use and the label that is shown.
#[derive(Debug, PartialEq, Eq)]
pub struct Theme {
    pub name: String,
    pub label: String,
}

/// The mathematical value of a [`Theme`].
pub struct ThemeView {
    pub name: Seq<char>,
    pub label: Seq<char>,
}

impl View for Theme {
    type V = ThemeView;

    open spec fn view(&self) -> ThemeView {
        ThemeView { name: self.name@, label: self.label@ }
    }
}

/// The values of a list of themes.
pub open spec fn themes(v: Seq<Theme>) -> Seq<ThemeView> {
    Seq::new(v.len(), |i: int| v[i]@)
}

/// The names of some themes.
pub open spec fn names(v: Seq<ThemeView>) -> Seq<Seq<char>> {
    Seq::new(v.len(), |i: int| v[i].name)
}

/// The place of the first theme with the given name, or -1.
pub open spec fn place(list: Seq<ThemeView>, name: Seq<char>) -> int
    decreases list.len(),
{
    if list.len() == 0 {
        -1
    } else if list[0].name == name {
        0
    } else {
        let rest = place(list.drop_first(), name);
        if rest < 0 {
            -1
        } else {
            rest + 1
        }
    }
}

pub proof fn lemma_place(list: Seq<ThemeView>, name: Seq<char>)
    ensures
        -1 <= place(list, name) < list.len(),
        place(list, name) >= 0 ==> list[place(list, name)].name == name,
        place(list, name) < 0 ==> forall|i: int|
            0 <= i < list.len() ==> (#[trigger] list[i]).name != name,
    decreases list.len(),
{
    if list.len() > 0 {
        lemma_place(list.drop_first(), name);
        if place(list, name) < 0 {
            assert forall|i: int| 0 <= i < list.len() implies (#[trigger] list[i]).name != name by {
                if i > 0 {
                    assert(list[i] == list.drop_first()[i - 1]);
                }
            }
        }
    }
}

/// The place of the first theme with the given name.
pub fn find_theme(list: &Vec<Theme>, name: &str) -> (r: Option<usize>)
    ensures
        match r {
            Some(i) => i < list@.len() && i == place(themes(list@), name@),
            None => place(themes(list@), name@) < 0,
        },
{
    let ghost all = themes(list@);
    let mut i: usize = 0;
    assert(all.skip(0) =~= all);
    while i < list.len()
        invariant
            all == themes(list@),
            0 <= i <= list@.len(),
            place(all, name@) == (if place(all.skip(i as int), name@) < 0 {
                -1
            } else {
                place(all.skip(i as int), name@) + i
            }),
        decreases list@.len() - i,
    {
        assert(all.skip(i as int)[0] == list@[i as int]@);
        assert(all.skip(i as int).drop_first() =~= all.skip(i + 1));
        if chars::str_eq(list[i].name.as_str(), name) {
            return Some(i);
        }
        i = i + 1;
    }
    None
}

/// A copy of a theme.
pub fn clone_theme(t: &Theme) -> (r: Theme)
    ensures
        r@ == t@,
{
    Theme { name: t.name.clone(), label: t.label.clone() }
}

/// A copy of a list of themes.
pub fn clone_themes(v: &Vec<Theme>) -> (r: Vec<Theme>)
    ensures
        themes(r@) == themes(v@),
{
    let mut out: Vec<Theme> = Vec::new();
    let mut i: usize = 0;
    assert(themes(out@) =~= themes(v@).take(0));
    while i < v.len()
        invariant
            0 <= i <= v@.len(),
            themes(out@) == themes(v@).take(i as int),
        decreases v@.len() - i,
    {
        let ghost so_far = out@;
        let t = clone_theme(&v[i]);
        out.push(t);
        proof {
            assert(themes(so_far.push(t)) =~= themes(so_far).push(t@));
            assert(themes(v@).take(i + 1) =~= themes(v@).take(i as int).push(t@));
        }
        i = i + 1;
    }
    assert(themes(v@).take(i as int) =~= themes(v@));
    out
}

/// The names of a list of themes.
pub fn theme_names(v: &Vec<Theme>) -> (r: Vec<String>)
    ensures
        chars::strs(r@) == names(themes(v@)),
{
    let ghost all = names(themes(v@));
    let mut out: Vec<String> = Vec::new();
    let mut i: usize = 0;
    assert(chars::strs(out@) =~= all.take(0));
    while i < v.len()
        invariant
            all == names(themes(v@)),
            0 <= i <= v@.len(),
            chars::strs(out@) == all.take(i as int),
        decreases v@.len() - i,
    {
        let n = v[i].name.clone();
        proof {
            chars::lemma_strs_push(out@, n);
            assert(all.take(i + 1) =~= all.take(i as int).push(n@));
        }
        out.push(n);
        i = i + 1;
    }
    assert(all.take(i as int) =~= all);
    out
}

} // verus!
