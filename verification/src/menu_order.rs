//! Ordering of menu items by their full path, as `String`'s ordering gives it
//! (lexicographic by character, which is lexicographic by UTF-8 byte).

use vstd::prelude::*;
use vstd::multiset::Multiset;
use crate::text::chars_of;
use crate::names::views;
use crate::tray_core::{
    item_view, items_view, lemma_items_view, lemma_items_view_push, lemma_items_view_remove,
    MenuItemView, TrayMenuItem,
};

verus! {

broadcast use vstd::seq_lib::group_to_multiset_ensures;

/// Lexicographic order on character sequences.
pub open spec fn seq_le(a: Seq<char>, b: Seq<char>) -> bool
    decreases a.len(),
{
    if a.len() == 0 {
        true
    } else if b.len() == 0 {
        false
    } else if a[0] != b[0] {
        a[0] < b[0]
    } else {
        seq_le(a.drop_first(), b.drop_first())
    }
}

pub proof fn lemma_seq_le_total(a: Seq<char>, b: Seq<char>)
    ensures
        seq_le(a, b) || seq_le(b, a),
    decreases a.len(),
{
    if a.len() > 0 && b.len() > 0 && a[0] == b[0] {
        lemma_seq_le_total(a.drop_first(), b.drop_first());
    }
}

pub proof fn lemma_seq_le_refl(a: Seq<char>)
    ensures
        seq_le(a, a),
    decreases a.len(),
{
    if a.len() > 0 {
        lemma_seq_le_refl(a.drop_first());
    }
}

pub proof fn lemma_seq_le_trans(a: Seq<char>, b: Seq<char>, c: Seq<char>)
    requires
        seq_le(a, b),
        seq_le(b, c),
    ensures
        seq_le(a, c),
    decreases a.len(),
{
    if a.len() > 0 && b.len() > 0 && c.len() > 0 && a[0] == b[0] && b[0] == c[0] {
        lemma_seq_le_trans(a.drop_first(), b.drop_first(), c.drop_first());
    }
}

/// Items ordered by full path.
pub open spec fn sorted_by_path(v: Seq<MenuItemView>) -> bool {
    forall|i: int, j: int| 0 <= i < j < v.len() ==> seq_le(#[trigger] v[i].full_path, #[trigger] v[j].full_path)
}

/// Compares two character sequences lexicographically.
pub(crate) fn chars_le(a: &Vec<char>, b: &Vec<char>) -> (r: bool)
    ensures
        r == seq_le(a@, b@),
{
    let mut i: usize = 0;
    assert(a@.subrange(0, a@.len() as int) =~= a@);
    assert(b@.subrange(0, b@.len() as int) =~= b@);
    while i < a.len() && i < b.len() && a[i] == b[i]
        invariant
            i <= a.len(),
            i <= b.len(),
            forall|k: int| 0 <= k < i ==> a@[k] == b@[k],
            seq_le(a@, b@) == seq_le(a@.subrange(i as int, a@.len() as int), b@.subrange(i as int, b@.len() as int)),
        decreases a.len() - i,
    {
        proof {
            let sa = a@.subrange(i as int, a@.len() as int);
            let sb = b@.subrange(i as int, b@.len() as int);
            assert(sa.drop_first() =~= a@.subrange(i + 1, a@.len() as int));
            assert(sb.drop_first() =~= b@.subrange(i + 1, b@.len() as int));
        }
        i = i + 1;
    }
    if i == a.len() {
        true
    } else if i == b.len() {
        false
    } else {
        a[i] < b[i]
    }
}

/// Whether the first item's full path orders no later than the second's.
pub(crate) fn path_le(x: &TrayMenuItem, y: &TrayMenuItem) -> (r: bool)
    ensures
        r == seq_le(item_view(*x).full_path, item_view(*y).full_path),
{
    let a = chars_of(x.full_path.as_str());
    let b = chars_of(y.full_path.as_str());
    chars_le(&a, &b)
}

/// The index of an item whose full path orders first.
fn least_index(v: &Vec<TrayMenuItem>) -> (m: usize)
    requires
        v.len() > 0,
    ensures
        m < v.len(),
        forall|k: int| 0 <= k < v.len() ==>
            seq_le(item_view(v@[m as int]).full_path, #[trigger] item_view(v@[k]).full_path),
{
    let mut m: usize = 0;
    let mut i: usize = 1;
    proof {
        lemma_seq_le_refl(item_view(v@[0]).full_path);
    }
    while i < v.len()
        invariant
            m < i <= v.len(),
            forall|k: int| 0 <= k < i ==>
                seq_le(item_view(v@[m as int]).full_path, #[trigger] item_view(v@[k]).full_path),
        decreases v.len() - i,
    {
        if !path_le(&v[m], &v[i]) {
            proof {
                lemma_seq_le_total(item_view(v@[m as int]).full_path, item_view(v@[i as int]).full_path);
                assert forall|k: int| 0 <= k < i + 1 implies
                    seq_le(item_view(v@[i as int]).full_path, #[trigger] item_view(v@[k]).full_path) by {
                    if k < i {
                        lemma_seq_le_trans(item_view(v@[i as int]).full_path,
                            item_view(v@[m as int]).full_path, item_view(v@[k]).full_path);
                    } else {
                        lemma_seq_le_total(item_view(v@[i as int]).full_path, item_view(v@[i as int]).full_path);
                    }
                }
            }
            m = i;
        } else {
            proof {
                assert forall|k: int| 0 <= k < i + 1 implies
                    seq_le(item_view(v@[m as int]).full_path, #[trigger] item_view(v@[k]).full_path) by {}
            }
        }
        i = i + 1;
    }
    m
}

/// Sorts items by full path. The result holds the same items.
pub fn sort_by_full_path(items: Vec<TrayMenuItem>) -> (r: Vec<TrayMenuItem>)
    ensures
        sorted_by_path(items_view(r@)),
        items_view(r@).to_multiset() == items_view(items@).to_multiset(),
{
    let ghost orig = items_view(items@);
    let mut rest = items;
    let mut out: Vec<TrayMenuItem> = Vec::new();
    proof {
        lemma_items_view(out@);
        assert(items_view(out@) =~= Seq::<MenuItemView>::empty());
    }
    while rest.len() > 0
        invariant
            sorted_by_path(items_view(out@)),
            forall|a: int, b: int| 0 <= a < out@.len() && 0 <= b < rest@.len() ==>
                seq_le(#[trigger] item_view(out@[a]).full_path, #[trigger] item_view(rest@[b]).full_path),
            items_view(out@).to_multiset().add(items_view(rest@).to_multiset()) == orig.to_multiset(),
        decreases rest.len(),
    {
        let m = least_index(&rest);
        proof {
            lemma_items_view_remove(rest@, m as int);
            lemma_items_view(rest@);
            lemma_items_view_push(out@, rest@[m as int]);
        }
        let ghost before_out = out@;
        let ghost before_rest = rest@;
        let x = rest.remove(m);
        out.push(x);
        proof {
            lemma_items_view(out@);
            lemma_items_view(before_out);
            lemma_items_view(rest@);
            let vo = items_view(out@);
            assert forall|i: int, j: int| 0 <= i < j < vo.len() implies
                seq_le(#[trigger] vo[i].full_path, #[trigger] vo[j].full_path) by {
                if j == vo.len() - 1 {
                    assert(vo[j] == item_view(before_rest[m as int]));
                    assert(vo[i] == item_view(before_out[i]));
                } else {
                    assert(vo[i] == items_view(before_out)[i]);
                    assert(vo[j] == items_view(before_out)[j]);
                }
            }
            assert forall|a: int, b: int| 0 <= a < out@.len() && 0 <= b < rest@.len() implies
                seq_le(#[trigger] item_view(out@[a]).full_path, #[trigger] item_view(rest@[b]).full_path) by {
                let bb = if b < m { b } else { b + 1 };
                assert(rest@[b] == before_rest[bb]);
                if a == out@.len() - 1 {
                    assert(out@[a] == before_rest[m as int]);
                } else {
                    assert(out@[a] == before_out[a]);
                }
            }
            let mo = items_view(before_out).to_multiset();
            let mr = items_view(before_rest).to_multiset();
            let xv = item_view(before_rest[m as int]);
            assert(items_view(before_rest)[m as int] == xv);
            assert(items_view(rest@).to_multiset() == mr.remove(xv));
            assert(items_view(out@).to_multiset() == mo.insert(xv));
            assert(mr.count(xv) > 0);
            assert(mo.insert(xv).add(mr.remove(xv)) =~= mo.add(mr));
        }
    }
    proof {
        lemma_items_view(rest@);
        assert(items_view(rest@) =~= Seq::<MenuItemView>::empty());
        assert(items_view(rest@).to_multiset() =~= Multiset::<MenuItemView>::empty());
        assert(items_view(out@).to_multiset().add(Multiset::<MenuItemView>::empty()) =~= items_view(out@).to_multiset());
    }
    out
}

// == Strings ==

/// Strings in ascending order.
pub open spec fn sorted_strings(v: Seq<Seq<char>>) -> bool {
    forall|i: int, j: int| 0 <= i < j < v.len() ==> seq_le(#[trigger] v[i], #[trigger] v[j])
}

/// The index of a string that orders first.
fn least_string(v: &Vec<String>) -> (m: usize)
    requires
        v.len() > 0,
    ensures
        m < v.len(),
        forall|k: int| 0 <= k < v.len() ==> seq_le(v@[m as int]@, #[trigger] v@[k]@),
{
    let mut m: usize = 0;
    let mut best = chars_of(v[0].as_str());
    let mut i: usize = 1;
    proof {
        lemma_seq_le_refl(v@[0]@);
    }
    while i < v.len()
        invariant
            m < i <= v.len(),
            best@ == v@[m as int]@,
            forall|k: int| 0 <= k < i ==> seq_le(v@[m as int]@, #[trigger] v@[k]@),
        decreases v.len() - i,
    {
        let candidate = chars_of(v[i].as_str());
        if !chars_le(&best, &candidate) {
            proof {
                lemma_seq_le_total(v@[m as int]@, v@[i as int]@);
                assert forall|k: int| 0 <= k < i + 1 implies seq_le(v@[i as int]@, #[trigger] v@[k]@) by {
                    if k < i {
                        lemma_seq_le_trans(v@[i as int]@, v@[m as int]@, v@[k]@);
                    } else {
                        lemma_seq_le_refl(v@[i as int]@);
                    }
                }
            }
            m = i;
            best = candidate;
        }
        i = i + 1;
    }
    m
}

/// Sorts strings in ascending order, as `String`'s ordering gives it. The
/// result holds the same strings.
pub fn sort_strings(v: Vec<String>) -> (r: Vec<String>)
    ensures
        sorted_strings(views(r@)),
        views(r@).to_multiset() == views(v@).to_multiset(),
{
    let ghost orig = views(v@);
    let mut rest = v;
    let mut out: Vec<String> = Vec::new();
    assert(views(out@) =~= Seq::<Seq<char>>::empty());
    while rest.len() > 0
        invariant
            sorted_strings(views(out@)),
            forall|a: int, b: int| 0 <= a < out@.len() && 0 <= b < rest@.len() ==>
                seq_le(#[trigger] out@[a]@, #[trigger] rest@[b]@),
            views(out@).to_multiset().add(views(rest@).to_multiset()) == orig.to_multiset(),
        decreases rest.len(),
    {
        let m = least_string(&rest);
        let ghost before_out = out@;
        let ghost before_rest = rest@;
        let x = rest.remove(m);
        out.push(x);
        proof {
            assert(views(rest@) =~= views(before_rest).remove(m as int));
            assert(views(out@) =~= views(before_out).push(x@));
            let vo = views(out@);
            assert forall|i: int, j: int| 0 <= i < j < vo.len() implies seq_le(#[trigger] vo[i], #[trigger] vo[j]) by {
                assert(vo[i] == out@[i]@);
                assert(vo[j] == out@[j]@);
                if j == vo.len() - 1 {
                    assert(out@[j] == before_rest[m as int]);
                    assert(out@[i] == before_out[i]);
                } else {
                    assert(views(before_out)[i] == before_out[i]@);
                    assert(views(before_out)[j] == before_out[j]@);
                }
            }
            assert forall|a: int, b: int| 0 <= a < out@.len() && 0 <= b < rest@.len() implies
                seq_le(#[trigger] out@[a]@, #[trigger] rest@[b]@) by {
                let bb = if b < m { b } else { b + 1 };
                assert(rest@[b] == before_rest[bb]);
                if a == out@.len() - 1 {
                    assert(out@[a] == before_rest[m as int]);
                } else {
                    assert(out@[a] == before_out[a]);
                }
            }
            let mo = views(before_out).to_multiset();
            let mr = views(before_rest).to_multiset();
            let xv = before_rest[m as int]@;
            assert(views(before_rest)[m as int] == xv);
            assert(views(rest@).to_multiset() == mr.remove(xv));
            assert(views(out@).to_multiset() == mo.insert(xv));
            assert(mr.count(xv) > 0);
            assert(mo.insert(xv).add(mr.remove(xv)) =~= mo.add(mr));
        }
    }
    proof {
        assert(views(rest@) =~= Seq::<Seq<char>>::empty());
        assert(views(rest@).to_multiset() =~= Multiset::<Seq<char>>::empty());
        assert(views(out@).to_multiset().add(Multiset::<Seq<char>>::empty()) =~= views(out@).to_multiset());
    }
    out
}

} // verus!
