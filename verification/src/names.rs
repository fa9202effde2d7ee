//! Lists of names: lookups and membership over the character views of strings.

use vstd::prelude::*;
use crate::text::{chars_of, chars_eq};

verus! {

/// The character views of a list of strings.
pub open spec fn views(v: Seq<String>) -> Seq<Seq<char>> {
    v.map_values(|s: String| s@)
}

/// Whether `name` is among the views of `v`.
pub open spec fn lists(v: Seq<String>, name: Seq<char>) -> bool {
    views(v).contains(name)
}

/// The index of `name` in `v`, if it occurs there.
pub(crate) fn position_of(v: &Vec<String>, name: &str) -> (r: Option<usize>)
    ensures
        match r {
            Some(i) => i < v.len() && v@[i as int]@ == name@
                && forall|k: int| 0 <= k < i ==> (#[trigger] v@[k])@ != name@,
            None => forall|k: int| 0 <= k < v.len() ==> (#[trigger] v@[k])@ != name@,
        },
{
    let wanted = chars_of(name);
    let mut i: usize = 0;
    while i < v.len()
        invariant
            i <= v.len(),
            wanted@ == name@,
            forall|k: int| 0 <= k < i ==> (#[trigger] v@[k])@ != name@,
        decreases v.len() - i,
    {
        let candidate = chars_of(v[i].as_str());
        if chars_eq(&candidate, &wanted) {
            return Some(i);
        }
        i = i + 1;
    }
    None
}

/// Whether `name` is one of the strings of `v`.
pub(crate) fn contains_name(v: &Vec<String>, name: &str) -> (r: bool)
    ensures
        r == lists(v@, name@),
{
    let p = position_of(v, name);
    match p {
        Some(i) => {
            assert(views(v@)[i as int] == name@);
            true
        },
        None => {
            assert forall|k: int| 0 <= k < views(v@).len() implies views(v@)[k] != name@ by {
                assert(views(v@)[k] == v@[k]@);
            }
            false
        },
    }
}

/// Removing an element from a list without duplicates removes exactly that
/// element from its set of views and keeps it free of duplicates.
pub proof fn lemma_views_remove(v: Seq<String>, i: int)
    requires
        0 <= i < v.len(),
        views(v).no_duplicates(),
    ensures
        views(v.remove(i)) == views(v).remove(i),
        views(v.remove(i)).no_duplicates(),
        views(v.remove(i)).to_set() == views(v).to_set().remove(v[i]@),
{
    let w = views(v);
    assert(views(v.remove(i)) =~= w.remove(i));
    let r = w.remove(i);
    assert forall|x: Seq<char>| r.to_set().contains(x) == w.to_set().remove(v[i]@).contains(x) by {
        if r.contains(x) {
            let k = choose|k: int| 0 <= k < r.len() && r[k] == x;
            if k < i {
                assert(w[k] == x);
                assert(x != w[i]);
            } else {
                assert(w[k + 1] == x);
                assert(x != w[i]);
            }
        }
        if w.contains(x) && x != v[i]@ {
            let k = choose|k: int| 0 <= k < w.len() && w[k] == x;
            assert(k != i);
            if k < i {
                assert(r[k] == x);
            } else {
                assert(r[k - 1] == x);
            }
        }
    }
    assert(r.to_set() =~= w.to_set().remove(v[i]@));
}

/// Appending a new name to a list without duplicates adds it to the set of views.
pub proof fn lemma_views_push(v: Seq<String>, s: String)
    requires
        views(v).no_duplicates(),
        !views(v).contains(s@),
    ensures
        views(v.push(s)) == views(v).push(s@),
        views(v.push(s)).no_duplicates(),
        views(v.push(s)).to_set() == views(v).to_set().insert(s@),
{
    let w = views(v);
    assert(views(v.push(s)) =~= w.push(s@));
    let p = w.push(s@);
    assert forall|x: Seq<char>| p.to_set().contains(x) == w.to_set().insert(s@).contains(x) by {
        if p.contains(x) {
            let k = choose|k: int| 0 <= k < p.len() && p[k] == x;
            if k < w.len() {
                assert(w[k] == x);
            }
        }
        if w.contains(x) {
            let k = choose|k: int| 0 <= k < w.len() && w[k] == x;
            assert(p[k] == x);
        }
        if x == s@ {
            assert(p[w.len() as int] == x);
        }
    }
    assert(p.to_set() =~= w.to_set().insert(s@));
    assert forall|a: int, b: int| 0 <= a < p.len() && 0 <= b < p.len() && a != b implies p[a] != p[b] by {
        if a < w.len() && b == w.len() {
            assert(w[a] == p[a]);
        }
        if b < w.len() && a == w.len() {
            assert(w[b] == p[b]);
        }
    }
}

/// A list whose views are all different.
pub open spec fn distinct_names(v: Seq<String>) -> bool {
    views(v).no_duplicates()
}

/// The set of views of a list.
pub open spec fn name_set(v: Seq<String>) -> Set<Seq<char>> {
    views(v).to_set()
}

} // verus!
