//! Stable sorting by a text key, as `sort_by` with `String`'s ordering of
//! the keys does it: the result is in ascending order of key, and items
//! with equal keys keep their order.

use vstd::prelude::*;
use crate::menu_order::{chars_le, lemma_seq_le_total, lemma_seq_le_trans, seq_le};

verus! {

/// How many items at the front of `s` have a key not greater than that of `x`.
pub open spec fn key_place<T>(s: Seq<T>, x: T, key: spec_fn(T) -> Seq<char>) -> nat
    decreases s.len(),
{
    if s.len() == 0 {
        0
    } else if seq_le(key(s[0]), key(x)) {
        1 + key_place(s.drop_first(), x, key)
    } else {
        0
    }
}

/// `x` inserted into `s` after the items at the front whose keys are not
/// greater than its own.
pub open spec fn insert_by_key<T>(s: Seq<T>, x: T, key: spec_fn(T) -> Seq<char>) -> Seq<T> {
    let p = key_place(s, x, key) as int;
    s.take(p).push(x) + s.skip(p)
}

/// The items in ascending order of key, ties keeping their order.
pub open spec fn stable_by_key<T>(s: Seq<T>, key: spec_fn(T) -> Seq<char>) -> Seq<T>
    decreases s.len(),
{
    if s.len() == 0 {
        Seq::empty()
    } else {
        insert_by_key(stable_by_key(s.drop_last(), key), s.last(), key)
    }
}

/// Whether the items are in ascending order of key.
pub open spec fn sorted_by_key<T>(s: Seq<T>, key: spec_fn(T) -> Seq<char>) -> bool {
    forall|i: int, j: int| 0 <= i < j < s.len() ==> seq_le(key(#[trigger] s[i]), key(#[trigger] s[j]))
}

proof fn lemma_key_place_prefix<T>(s: Seq<T>, x: T, key: spec_fn(T) -> Seq<char>, p: int)
    requires
        0 <= p <= s.len(),
        forall|i: int| 0 <= i < p ==> seq_le(key(#[trigger] s[i]), key(x)),
        p == s.len() || !seq_le(key(s[p]), key(x)),
    ensures
        key_place(s, x, key) == p,
    decreases p,
{
    if p > 0 {
        let t = s.drop_first();
        assert forall|i: int| 0 <= i < p - 1 implies seq_le(key(#[trigger] t[i]), key(x)) by {
            assert(t[i] == s[i + 1]);
        }
        if p < s.len() {
            assert(t[p - 1] == s[p]);
        }
        lemma_key_place_prefix(t, x, key, p - 1);
    }
}

proof fn lemma_key_place<T>(s: Seq<T>, x: T, key: spec_fn(T) -> Seq<char>)
    requires
        sorted_by_key(s, key),
    ensures
        key_place(s, x, key) <= s.len(),
        forall|i: int| 0 <= i < key_place(s, x, key) ==> seq_le(key(#[trigger] s[i]), key(x)),
        forall|i: int| key_place(s, x, key) <= i < s.len() ==> !seq_le(key(#[trigger] s[i]), key(x)),
    decreases s.len(),
{
    if s.len() > 0 {
        let t = s.drop_first();
        assert forall|i: int, j: int| 0 <= i < j < t.len() implies seq_le(key(#[trigger] t[i]), key(#[trigger] t[j])) by {
            assert(t[i] == s[i + 1] && t[j] == s[j + 1]);
        }
        lemma_key_place(t, x, key);
        if seq_le(key(s[0]), key(x)) {
            assert forall|i: int| 0 <= i < key_place(s, x, key) implies seq_le(key(#[trigger] s[i]), key(x)) by {
                if i > 0 {
                    assert(s[i] == t[i - 1]);
                }
            }
            assert forall|i: int| key_place(s, x, key) <= i < s.len() implies !seq_le(key(#[trigger] s[i]), key(x)) by {
                assert(s[i] == t[i - 1]);
            }
        } else {
            assert forall|i: int| 0 <= i < s.len() implies !seq_le(key(#[trigger] s[i]), key(x)) by {
                if i > 0 && seq_le(key(s[i]), key(x)) {
                    assert(seq_le(key(s[0]), key(s[i])));
                    lemma_seq_le_trans(key(s[0]), key(s[i]), key(x));
                }
            }
        }
    }
}

proof fn lemma_insert_by_key_sorted<T>(s: Seq<T>, x: T, key: spec_fn(T) -> Seq<char>)
    requires
        sorted_by_key(s, key),
    ensures
        sorted_by_key(insert_by_key(s, x, key), key),
        insert_by_key(s, x, key).len() == s.len() + 1,
{
    lemma_key_place(s, x, key);
    let p = key_place(s, x, key) as int;
    let r = insert_by_key(s, x, key);
    assert(r.len() == s.len() + 1);
    assert forall|i: int| 0 <= i < r.len() implies #[trigger] r[i] == (if i < p {
        s[i]
    } else if i == p {
        x
    } else {
        s[i - 1]
    }) by {}
    assert forall|i: int, j: int| 0 <= i < j < r.len() implies seq_le(key(#[trigger] r[i]), key(#[trigger] r[j])) by {
        if j == p {
            assert(seq_le(key(s[i]), key(x)));
        } else if i == p {
            assert(!seq_le(key(s[j - 1]), key(x)));
            lemma_seq_le_total(key(s[j - 1]), key(x));
        } else {
            let a = if i < p { i } else { i - 1 };
            let b = if j < p { j } else { j - 1 };
            assert(a < b);
            assert(r[i] == s[a] && r[j] == s[b]);
        }
    }
}

/// The stable order is in ascending order of key and keeps every item.
pub proof fn lemma_stable_by_key_sorted<T>(s: Seq<T>, key: spec_fn(T) -> Seq<char>)
    ensures
        sorted_by_key(stable_by_key(s, key), key),
        stable_by_key(s, key).len() == s.len(),
    decreases s.len(),
{
    if s.len() > 0 {
        lemma_stable_by_key_sorted(s.drop_last(), key);
        lemma_insert_by_key_sorted(stable_by_key(s.drop_last(), key), s.last(), key);
    }
}

/// Sorts `items` stably by key; `keys` holds the key of each item.
pub(crate) fn sort_by_key_stable<T>(items: Vec<T>, keys: Vec<Vec<char>>, Ghost(key): Ghost<spec_fn(T) -> Seq<char>>) -> (r: Vec<T>)
    requires
        keys@.len() == items@.len(),
        forall|i: int| 0 <= i < items@.len() ==> (#[trigger] keys@[i])@ == key(items@[i]),
    ensures
        r@ == stable_by_key(items@, key),
        sorted_by_key(r@, key),
{
    let ghost all = items@;
    assert(all.len() == items.len());
    let mut rest = items;
    let mut rest_keys = keys;
    let mut out: Vec<T> = Vec::new();
    let mut out_keys: Vec<Vec<char>> = Vec::new();
    let mut k: usize = 0;
    assert(all.take(0) =~= Seq::<T>::empty());
    assert(all.skip(0) =~= all);
    while rest.len() > 0
        invariant
            k <= all.len(),
            all.len() <= usize::MAX,
            rest@ == all.skip(k as int),
            rest_keys@.len() == rest@.len(),
            forall|i: int| 0 <= i < rest@.len() ==> (#[trigger] rest_keys@[i])@ == key(rest@[i]),
            out@ == stable_by_key(all.take(k as int), key),
            out_keys@.len() == out@.len(),
            forall|i: int| 0 <= i < out@.len() ==> (#[trigger] out_keys@[i])@ == key(out@[i]),
        decreases rest.len(),
    {
        let ghost before_rest = rest@;
        let ghost before_keys = rest_keys@;
        let x = rest.remove(0);
        let kx = rest_keys.remove(0);
        proof {
            assert(kx@ == key(x)) by {
                assert(before_keys[0]@ == key(before_rest[0]));
            }
            assert forall|i: int| 0 <= i < rest@.len() implies (#[trigger] rest_keys@[i])@ == key(rest@[i]) by {
                assert(rest_keys@[i] == before_keys[i + 1]);
                assert(rest@[i] == before_rest[i + 1]);
            }
            assert(x == all[k as int]);
            assert(all.take(k + 1).drop_last() =~= all.take(k as int));
            assert(all.take(k + 1).last() == x);
            assert(rest@ =~= all.skip(k + 1));
        }
        let mut p: usize = 0;
        while p < out.len() && chars_le(&out_keys[p], &kx)
            invariant
                p <= out@.len(),
                out_keys@.len() == out@.len(),
                forall|i: int| 0 <= i < out@.len() ==> (#[trigger] out_keys@[i])@ == key(out@[i]),
                kx@ == key(x),
                forall|i: int| 0 <= i < p ==> seq_le(key(#[trigger] out@[i]), key(x)),
            decreases out.len() - p,
        {
            assert(out_keys@[p as int]@ == key(out@[p as int]));
            p = p + 1;
        }
        proof {
            if p < out.len() {
                assert(out_keys@[p as int]@ == key(out@[p as int]));
            }
            lemma_key_place_prefix(out@, x, key, p as int);
        }
        let ghost before = out@;
        let ghost before_out_keys = out_keys@;
        out.insert(p, x);
        out_keys.insert(p, kx);
        proof {
            assert(out@ =~= before.take(p as int).push(x) + before.skip(p as int));
            assert forall|i: int| 0 <= i < out@.len() implies (#[trigger] out_keys@[i])@ == key(out@[i]) by {
                if i < p {
                    assert(out_keys@[i] == before_out_keys[i] && out@[i] == before[i]);
                } else if i > p {
                    assert(out_keys@[i] == before_out_keys[i - 1] && out@[i] == before[i - 1]);
                }
            }
        }
        k = k + 1;
    }
    assert(all.skip(k as int).len() == 0);
    assert(all.take(k as int) =~= all);
    proof {
        lemma_stable_by_key_sorted(all, key);
    }
    out
}

proof fn lemma_key_place_map<A, B>(
    s: Seq<A>,
    x: A,
    f: spec_fn(A) -> B,
    ka: spec_fn(A) -> Seq<char>,
    kb: spec_fn(B) -> Seq<char>,
)
    requires
        forall|a: A| #[trigger] ka(a) == kb(f(a)),
    ensures
        key_place(s.map_values(f), f(x), kb) == key_place(s, x, ka),
    decreases s.len(),
{
    if s.len() > 0 {
        assert(s.map_values(f).drop_first() =~= s.drop_first().map_values(f));
        assert(s.map_values(f)[0] == f(s[0]));
        assert(ka(s[0]) == kb(f(s[0])));
        assert(ka(x) == kb(f(x)));
        lemma_key_place_map(s.drop_first(), x, f, ka, kb);
    }
}

/// Sorting commutes with a map that keeps the keys.
pub proof fn lemma_stable_by_key_map<A, B>(
    s: Seq<A>,
    f: spec_fn(A) -> B,
    ka: spec_fn(A) -> Seq<char>,
    kb: spec_fn(B) -> Seq<char>,
)
    requires
        forall|a: A| #[trigger] ka(a) == kb(f(a)),
    ensures
        stable_by_key(s, ka).map_values(f) == stable_by_key(s.map_values(f), kb),
    decreases s.len(),
{
    if s.len() > 0 {
        lemma_stable_by_key_map(s.drop_last(), f, ka, kb);
        assert(s.map_values(f).drop_last() =~= s.drop_last().map_values(f));
        assert(s.map_values(f).last() == f(s.last()));
        let t = stable_by_key(s.drop_last(), ka);
        lemma_key_place_map(t, s.last(), f, ka, kb);
        let p = key_place(t, s.last(), ka) as int;
        lemma_stable_by_key_sorted(s.drop_last(), ka);
        lemma_key_place(t, s.last(), ka);
        assert((t.take(p).push(s.last()) + t.skip(p)).map_values(f) =~= t.map_values(f).take(p).push(f(s.last()))
            + t.map_values(f).skip(p));
    }
}

} // verus!
