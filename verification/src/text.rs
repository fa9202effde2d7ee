//! Character-level text helpers shared by the menu, launcher and report code.
//!
//! Text is handled as `Vec<char>` while it is built or inspected, and the
//! contracts speak of the `Seq<char>` view that `str` and `String` expose.

use vstd::prelude::*;
use crate::names::views;

verus! {

/// The characters of a string slice, in order.
pub(crate) fn chars_of(s: &str) -> (v: Vec<char>)
    ensures
        v@ == s@,
{
    broadcast use vstd::string::axiom_spec_iter;
    let mut v: Vec<char> = Vec::new();
    for c in it: s.chars()
        invariant
            v@ == it.seq().take(it.index() as int),
    {
        v.push(c);
        assert(v@ =~= it.seq().take(it.index() + 1));
    }
    assert(v@ =~= s@);
    v
}

/// A string holding exactly the given characters.
///
/// Trusted: calls `String::from_iter` over the characters of `v`; the claim is
/// that the resulting string consists of exactly those characters.
#[verifier::external_body]
pub(crate) fn string_of(v: &Vec<char>) -> (s: String)
    ensures
        s@ == v@,
{
    String::from_iter(v.iter())
}

/// Appends the characters of `s` to `v`.
pub(crate) fn push_str(v: &mut Vec<char>, s: &str)
    ensures
        final(v)@ == old(v)@ + s@,
{
    let mut extra = chars_of(s);
    v.append(&mut extra);
}

/// A string made of the characters of `s`.
pub(crate) fn owned(s: &str) -> (r: String)
    ensures
        r@ == s@,
{
    let v = chars_of(s);
    string_of(&v)
}

// == Decimal rendering ==

/// The ASCII digit for a value below ten.
pub open spec fn digit_char(d: nat) -> char {
    if d == 0 { '0' }
    else if d == 1 { '1' }
    else if d == 2 { '2' }
    else if d == 3 { '3' }
    else if d == 4 { '4' }
    else if d == 5 { '5' }
    else if d == 6 { '6' }
    else if d == 7 { '7' }
    else if d == 8 { '8' }
    else { '9' }
}

/// The decimal rendering of a natural number, most significant digit first,
/// without leading zeros (zero renders as `"0"`).
pub open spec fn decimal(n: nat) -> Seq<char>
    decreases n,
{
    if n < 10 {
        seq![digit_char(n)]
    } else {
        decimal(n / 10).push(digit_char(n % 10))
    }
}

fn digit_of(d: u128) -> (c: char)
    requires
        d < 10,
    ensures
        c == digit_char(d as nat),
{
    if d == 0 { '0' }
    else if d == 1 { '1' }
    else if d == 2 { '2' }
    else if d == 3 { '3' }
    else if d == 4 { '4' }
    else if d == 5 { '5' }
    else if d == 6 { '6' }
    else if d == 7 { '7' }
    else if d == 8 { '8' }
    else { '9' }
}

/// Appends the decimal rendering of `n` to `v`.
pub(crate) fn push_decimal(v: &mut Vec<char>, n: u128)
    ensures
        final(v)@ == old(v)@ + decimal(n as nat),
    decreases n,
{
    if n < 10 {
        v.push(digit_of(n));
        assert(decimal(n as nat) == seq![digit_char(n as nat)]);
    } else {
        push_decimal(v, n / 10);
        v.push(digit_of(n % 10));
    }
}

/// The decimal rendering of `n` as a string.
pub fn decimal_string(n: u128) -> (s: String)
    ensures
        s@ == decimal(n as nat),
{
    let mut v: Vec<char> = Vec::new();
    push_decimal(&mut v, n);
    assert(v@ == decimal(n as nat));
    string_of(&v)
}

/// Decimal rendering of a signed integer, with a leading minus sign when negative.
pub open spec fn signed_decimal(i: int) -> Seq<char> {
    if i < 0 { "-"@ + decimal((-i) as nat) } else { decimal(i as nat) }
}

/// Appends the decimal rendering of a signed integer to `v`.
pub(crate) fn push_signed(v: &mut Vec<char>, i: i32)
    ensures
        final(v)@ == old(v)@ + signed_decimal(i as int),
{
    if i < 0 {
        push_str(v, "-");
        let magnitude: u128 = (0i64 - (i as i64)) as u128;
        push_decimal(v, magnitude);
    } else {
        push_decimal(v, i as u128);
    }
}

// == Comparisons ==

/// Whether `n` occurs in `h` as a contiguous run of characters.
pub open spec fn has_infix(h: Seq<char>, n: Seq<char>) -> bool {
    exists|i: int| 0 <= i && i + n.len() <= h.len() && #[trigger] h.subrange(i, i + n.len()) == n
}

/// Whether `h` begins with `n`.
pub open spec fn has_prefix(h: Seq<char>, n: Seq<char>) -> bool {
    n.len() <= h.len() && h.subrange(0, n.len() as int) == n
}

/// Whether `h` ends with `n`.
pub open spec fn has_suffix(h: Seq<char>, n: Seq<char>) -> bool {
    n.len() <= h.len() && h.subrange(h.len() - n.len(), h.len() as int) == n
}

/// Whether `h`, from position `at`, continues with `n`.
pub open spec fn matches_at(h: Seq<char>, n: Seq<char>, at: int) -> bool {
    0 <= at && at + n.len() <= h.len() && h.subrange(at, at + n.len()) == n
}

/// Compares two character sequences.
pub(crate) fn chars_eq(a: &Vec<char>, b: &Vec<char>) -> (r: bool)
    ensures
        r == (a@ == b@),
{
    if a.len() != b.len() {
        return false;
    }
    let mut i: usize = 0;
    while i < a.len()
        invariant
            a.len() == b.len(),
            i <= a.len(),
            forall|k: int| 0 <= k < i ==> a@[k] == b@[k],
        decreases a.len() - i,
    {
        if a[i] != b[i] {
            return false;
        }
        i = i + 1;
    }
    assert(a@ =~= b@);
    true
}

/// Compares a string slice with a string.
pub(crate) fn str_eq(a: &str, b: &str) -> (r: bool)
    ensures
        r == (a@ == b@),
{
    let x = chars_of(a);
    let y = chars_of(b);
    chars_eq(&x, &y)
}

/// Whether `n` occurs in `h` starting at position `at`.
pub(crate) fn chars_match_at(h: &Vec<char>, n: &Vec<char>, at: usize) -> (r: bool)
    ensures
        r == matches_at(h@, n@, at as int),
{
    if at > h.len() || n.len() > h.len() - at {
        return false;
    }
    let mut k: usize = 0;
    while k < n.len()
        invariant
            at + n.len() <= h.len(),
            k <= n.len(),
            forall|j: int| 0 <= j < k ==> h@[at + j] == n@[j],
        decreases n.len() - k,
    {
        if h[at + k] != n[k] {
            assert(h@.subrange(at as int, at + n.len())[k as int] != n@[k as int]);
            return false;
        }
        k = k + 1;
    }
    assert(h@.subrange(at as int, at + n.len()) =~= n@);
    true
}

/// Whether `n` occurs anywhere in `h`.
pub(crate) fn chars_contain(h: &Vec<char>, n: &Vec<char>) -> (r: bool)
    ensures
        r == has_infix(h@, n@),
{
    if n.len() > h.len() {
        return false;
    }
    let last: usize = h.len() - n.len();
    let mut i: usize = 0;
    while i < last
        invariant
            n.len() <= h.len(),
            last == h.len() - n.len(),
            i <= last,
            forall|j: int| 0 <= j < i ==> !matches_at(h@, n@, j),
        decreases last - i,
    {
        if chars_match_at(h, n, i) {
            assert(h@.subrange(i as int, i + n@.len()) == n@);
            return true;
        }
        i = i + 1;
    }
    if chars_match_at(h, n, last) {
        assert(h@.subrange(last as int, last + n@.len()) == n@);
        return true;
    }
    assert forall|j: int| 0 <= j && j + n@.len() <= h@.len() implies #[trigger] h@.subrange(j, j + n@.len()) != n@ by {
        assert(!matches_at(h@, n@, j));
    }
    false
}

/// The first position at or after `from` where `n` occurs in `h`, if any.
pub open spec fn first_at(h: Seq<char>, n: Seq<char>, from: int) -> Option<int>
    decreases h.len() + 1 - from,
{
    if from < 0 || from + n.len() > h.len() {
        None
    } else if matches_at(h, n, from) {
        Some(from)
    } else {
        first_at(h, n, from + 1)
    }
}

/// What `first_at` finds is a match, and no earlier position from `from` on is one.
pub proof fn lemma_first_at(h: Seq<char>, n: Seq<char>, from: int)
    requires
        0 <= from,
    ensures
        match first_at(h, n, from) {
            Some(i) => from <= i && matches_at(h, n, i)
                && forall|j: int| from <= j < i ==> !matches_at(h, n, j),
            None => forall|j: int| from <= j ==> !matches_at(h, n, j),
        },
    decreases h.len() + 1 - from,
{
    if from + n.len() > h.len() {
    } else if matches_at(h, n, from) {
    } else {
        lemma_first_at(h, n, from + 1);
    }
}

/// The first position at or after `from` where `n` occurs in `h`.
pub(crate) fn find_chars(h: &Vec<char>, n: &Vec<char>, from: usize) -> (r: Option<usize>)
    ensures
        match r {
            Some(i) => first_at(h@, n@, from as int) == Some(i as int),
            None => first_at(h@, n@, from as int) is None,
        },
{
    if n.len() > h.len() || from > h.len() - n.len() {
        return None;
    }
    let last: usize = h.len() - n.len();
    let mut i: usize = from;
    while i < last
        invariant
            n.len() <= h.len(),
            last == h.len() - n.len(),
            from <= i <= last,
            first_at(h@, n@, from as int) == first_at(h@, n@, i as int),
        decreases last - i,
    {
        if chars_match_at(h, n, i) {
            return Some(i);
        }
        i = i + 1;
    }
    if chars_match_at(h, n, last) {
        Some(last)
    } else {
        assert(first_at(h@, n@, last + 1) is None);
        None
    }
}

/// Whether `h` begins with `n`.
pub(crate) fn chars_start_with(h: &Vec<char>, n: &Vec<char>) -> (r: bool)
    ensures
        r == has_prefix(h@, n@),
{
    chars_match_at(h, n, 0)
}

/// Whether a string slice begins with another one.
pub(crate) fn str_starts_with(h: &str, n: &str) -> (r: bool)
    ensures
        r == has_prefix(h@, n@),
{
    let x = chars_of(h);
    let y = chars_of(n);
    chars_start_with(&x, &y)
}

// == Replacement ==

/// `h` with every occurrence of `p` replaced by `w`, scanning from the left
/// and resuming after each replaced occurrence.
pub open spec fn replaced(h: Seq<char>, p: Seq<char>, w: Seq<char>) -> Seq<char>
    decreases h.len(),
{
    if h.len() == 0 || p.len() == 0 {
        h
    } else if has_prefix(h, p) {
        w + replaced(h.skip(p.len() as int), p, w)
    } else {
        seq![h[0]] + replaced(h.skip(1), p, w)
    }
}

/// Replaces every occurrence of a non-empty pattern, as `str::replace` does.
pub(crate) fn replace_all(h: &str, p: &str, w: &str) -> (r: String)
    requires
        p@.len() > 0,
    ensures
        r@ == replaced(h@, p@, w@),
{
    let hv = chars_of(h);
    let pv = chars_of(p);
    let wv = chars_of(w);
    let mut out: Vec<char> = Vec::new();
    let mut i: usize = 0;
    assert(hv@.skip(0) =~= hv@);
    while i < hv.len()
        invariant
            i <= hv.len(),
            hv@ == h@,
            pv@ == p@,
            wv@ == w@,
            pv@.len() > 0,
            out@ + replaced(hv@.skip(i as int), pv@, wv@) == replaced(h@, p@, w@),
        decreases hv.len() - i,
    {
        let ghost rest = hv@.skip(i as int);
        if chars_match_at(&hv, &pv, i) {
            assert(rest.subrange(0, pv@.len() as int) =~= hv@.subrange(i as int, i + pv@.len()));
            assert(rest.skip(pv@.len() as int) =~= hv@.skip(i + pv@.len()));
            let ghost before = out@;
            let mut extra = wv.clone();
            out.append(&mut extra);
            assert(out@ + replaced(hv@.skip(i + pv@.len()), pv@, wv@) =~= before + replaced(rest, pv@, wv@));
            i = i + pv.len();
        } else {
            proof {
                if pv@.len() <= rest.len() {
                    assert(rest.subrange(0, pv@.len() as int) =~= hv@.subrange(i as int, i + pv@.len()));
                }
            }
            assert(rest.skip(1) =~= hv@.skip(i + 1));
            assert(rest[0] == hv@[i as int]);
            let ghost before = out@;
            out.push(hv[i]);
            assert(out@ + replaced(hv@.skip(i + 1), pv@, wv@) =~= before + replaced(rest, pv@, wv@));
            i = i + 1;
        }
    }
    assert(out@ =~= replaced(h@, p@, w@));
    string_of(&out)
}

// == Splitting ==

/// The pieces of `s` between occurrences of `sep`, in order (one more than
/// the number of separators).
pub open spec fn split_pieces(s: Seq<char>, sep: char) -> Seq<Seq<char>>
    decreases s.len(),
{
    if s.len() == 0 {
        seq![Seq::<char>::empty()]
    } else {
        let before = split_pieces(s.drop_last(), sep);
        if s.last() == sep {
            before.push(Seq::<char>::empty())
        } else {
            before.update(before.len() - 1, before.last().push(s.last()))
        }
    }
}

pub proof fn lemma_split_pieces_len(s: Seq<char>, sep: char)
    ensures
        split_pieces(s, sep).len() >= 1,
    decreases s.len(),
{
    if s.len() > 0 {
        lemma_split_pieces_len(s.drop_last(), sep);
    }
}

/// The trimmed pieces that are not empty after trimming, in order.
pub open spec fn nonblank_trimmed(ps: Seq<Seq<char>>) -> Seq<Seq<char>>
    decreases ps.len(),
{
    if ps.len() == 0 {
        Seq::empty()
    } else {
        let r = nonblank_trimmed(ps.drop_last());
        let t = trim(ps.last());
        if t.len() > 0 { r.push(t) } else { r }
    }
}

/// The pieces of `s` between occurrences of `sep`, trimmed, without the
/// pieces that are empty after trimming.
pub(crate) fn split_trimmed_nonblank(s: &str, sep: char) -> (r: Vec<String>)
    ensures
        views(r@) == nonblank_trimmed(split_pieces(s@, sep)),
{
    let cs = chars_of(s);
    let mut out: Vec<String> = Vec::new();
    let mut cur: Vec<char> = Vec::new();
    let mut i: usize = 0;
    proof {
        assert(cs@.take(0) =~= Seq::<char>::empty());
    }
    while i < cs.len()
        invariant
            i <= cs.len(),
            cs@ == s@,
            split_pieces(cs@.take(i as int), sep).len() >= 1,
            views(out@) == nonblank_trimmed(split_pieces(cs@.take(i as int), sep).drop_last()),
            cur@ == split_pieces(cs@.take(i as int), sep).last(),
        decreases cs.len() - i,
    {
        let ghost p = split_pieces(cs@.take(i as int), sep);
        let c = cs[i];
        assert(cs@.take(i + 1).drop_last() =~= cs@.take(i as int));
        assert(cs@.take(i + 1).last() == c);
        if c == sep {
            let t = trim_chars(&cur);
            if t.len() > 0 {
                let ghost before = out@;
                out.push(string_of(&t));
                proof {
                    assert(views(out@) =~= views(before).push(t@));
                }
            }
            cur = Vec::new();
            proof {
                let q = split_pieces(cs@.take(i + 1), sep);
                assert(q == p.push(Seq::<char>::empty()));
                assert(q.drop_last() =~= p);
                assert(p == p.drop_last().push(p.last()));
            }
        } else {
            cur.push(c);
            proof {
                let q = split_pieces(cs@.take(i + 1), sep);
                assert(q == p.update(p.len() - 1, p.last().push(c)));
                assert(q.drop_last() =~= p.drop_last());
            }
        }
        proof {
            lemma_split_pieces_len(cs@.take(i + 1), sep);
        }
        i = i + 1;
    }
    let ghost p = split_pieces(cs@.take(i as int), sep);
    assert(cs@.take(i as int) =~= s@);
    assert(p == p.drop_last().push(p.last()));
    let t = trim_chars(&cur);
    if t.len() > 0 {
        let ghost before = out@;
        out.push(string_of(&t));
        proof {
            assert(views(out@) =~= views(before).push(t@));
        }
    }
    out
}

// == Joining ==

/// The parts with `sep` between consecutive ones.
pub open spec fn join_with(parts: Seq<Seq<char>>, sep: Seq<char>) -> Seq<char>
    decreases parts.len(),
{
    if parts.len() == 0 {
        Seq::empty()
    } else if parts.len() == 1 {
        parts[0]
    } else {
        join_with(parts.drop_last(), sep) + sep + parts.last()
    }
}

/// Joins the strings with `sep` between consecutive ones.
pub(crate) fn join_strings(parts: &Vec<String>, sep: &str) -> (r: String)
    ensures
        r@ == join_with(views(parts@), sep@),
{
    let mut out: Vec<char> = Vec::new();
    let mut i: usize = 0;
    assert(views(parts@).take(0) =~= Seq::<Seq<char>>::empty());
    while i < parts.len()
        invariant
            i <= parts@.len(),
            out@ == join_with(views(parts@).take(i as int), sep@),
        decreases parts.len() - i,
    {
        let ghost before = out@;
        if i > 0 {
            push_str(&mut out, sep);
        }
        push_str(&mut out, parts[i].as_str());
        proof {
            let t = views(parts@).take(i + 1);
            assert(t.drop_last() =~= views(parts@).take(i as int));
            assert(t.last() == parts@[i as int]@);
            if i == 0 {
                assert(out@ =~= t[0]);
            } else {
                assert(out@ =~= before + sep@ + t.last());
            }
        }
        i = i + 1;
    }
    assert(views(parts@).take(i as int) =~= views(parts@));
    string_of(&out)
}

// == Unicode case ==

/// Unicode lowercase mapping of a string, as `str::to_lowercase` gives it.
pub uninterp spec fn unicode_lower(s: Seq<char>) -> Seq<char>;

/// Whether every character is ASCII.
pub open spec fn all_ascii(s: Seq<char>) -> bool {
    forall|k: int| 0 <= k < s.len() ==> (#[trigger] s[k] as u32) < 128
}

/// The lowercase of a string: for an ASCII string, its ASCII lowercase
/// (the Unicode lowercase mapping of `A`..`Z` is `a`..`z`, and other ASCII
/// characters map to themselves); otherwise the Unicode mapping of the
/// string with its ASCII letters lowercased first, which the Unicode mapping
/// leaves unchanged.
pub open spec fn lowercase(s: Seq<char>) -> Seq<char> {
    if all_ascii(s) { ascii_lower(s) } else { unicode_lower(ascii_lower(s)) }
}

/// Lowercase copy of a string.
///
/// Trusted: calls `str::to_lowercase`; the claim is that the result is
/// `unicode_lower` of the argument, a function of its characters alone;
/// that an all-ASCII string is lowercased letter by letter from `A`..`Z` to
/// `a`..`z`; and that lowercasing the ASCII letters of any string first
/// changes nothing. The documentation defines lowercase by the Unicode
/// `Lowercase` property, whose mapping sends `A`..`Z` to `a`..`z`; its one
/// context rule (a final capital sigma) looks only at whether neighbouring
/// letters are cased, which an ASCII letter is in either case. What
/// non-ASCII text becomes is otherwise not stated.
#[verifier::external_body]
pub(crate) fn to_lowercase(s: &str) -> (r: String)
    ensures
        r@ == lowercase(s@),
        !all_ascii(s@) ==> r@ == unicode_lower(s@),
{
    s.to_lowercase()
}

// == ASCII case ==

/// ASCII lowercase of one character; other characters are unchanged.
pub open spec fn lower_char(c: char) -> char {
    if 'A' <= c && c <= 'Z' { ((c as u32) + 32) as char } else { c }
}

/// ASCII lowercase of every character.
pub open spec fn ascii_lower(s: Seq<char>) -> Seq<char> {
    s.map_values(|c: char| lower_char(c))
}

/// Whether two sequences are equal ignoring ASCII case.
pub open spec fn eq_ignore_ascii_case(a: Seq<char>, b: Seq<char>) -> bool {
    ascii_lower(a) == ascii_lower(b)
}

pub(crate) fn lower_of(c: char) -> (r: char)
    ensures
        r == lower_char(c),
{
    if 'A' <= c && c <= 'Z' {
        let b: u8 = c as u8;
        let l: u8 = b + 32;
        assert(l as char == ((c as u32) + 32) as char);
        l as char
    } else {
        c
    }
}

/// ASCII lowercase copy of a character sequence.
pub(crate) fn lower_chars(v: &Vec<char>) -> (r: Vec<char>)
    ensures
        r@ == ascii_lower(v@),
{
    let mut r: Vec<char> = Vec::new();
    let mut i: usize = 0;
    while i < v.len()
        invariant
            i <= v.len(),
            r@ == ascii_lower(v@.subrange(0, i as int)),
        decreases v.len() - i,
    {
        r.push(lower_of(v[i]));
        assert(v@.subrange(0, i + 1) == v@.subrange(0, i as int).push(v@[i as int]));
        i = i + 1;
    }
    assert(v@.subrange(0, v.len() as int) == v@);
    r
}

/// Compares two sequences ignoring ASCII case.
pub(crate) fn chars_eq_ignore_case(a: &Vec<char>, b: &Vec<char>) -> (r: bool)
    ensures
        r == eq_ignore_ascii_case(a@, b@),
{
    let x = lower_chars(a);
    let y = lower_chars(b);
    chars_eq(&x, &y)
}

// == Unicode whitespace ==

/// Whether a character has the Unicode `White_Space` property: tab, line
/// feed, vertical tab, form feed, carriage return, space, next line,
/// no-break space, ogham space mark, the spaces U+2000 to U+200A, line and
/// paragraph separator, narrow no-break space, medium mathematical space
/// and ideographic space.
pub open spec fn white_space(c: char) -> bool {
    let u = c as u32;
    (0x09 <= u && u <= 0x0D) || u == 0x20 || u == 0x85 || u == 0xA0 || u == 0x1680
        || (0x2000 <= u && u <= 0x200A) || u == 0x2028 || u == 0x2029 || u == 0x202F
        || u == 0x205F || u == 0x3000
}

/// Whether the character is whitespace.
///
/// Trusted: calls `char::is_whitespace`, which the documentation defines as
/// the Unicode `White_Space` property listed in `PropList.txt`; the claim is
/// that the result is `white_space(c)`, that list written out.
#[verifier::external_body]
pub(crate) fn is_whitespace(c: char) -> (b: bool)
    ensures
        b == white_space(c),
{
    c.is_whitespace()
}

/// Number of leading whitespace characters.
pub open spec fn lead_ws(s: Seq<char>) -> nat
    decreases s.len(),
{
    if s.len() > 0 && white_space(s[0]) {
        1 + lead_ws(s.drop_first())
    } else {
        0
    }
}

/// Number of trailing whitespace characters.
pub open spec fn trail_ws(s: Seq<char>) -> nat
    decreases s.len(),
{
    if s.len() > 0 && white_space(s.last()) {
        1 + trail_ws(s.drop_last())
    } else {
        0
    }
}

/// `s` without leading whitespace.
pub open spec fn trim_start(s: Seq<char>) -> Seq<char> {
    s.subrange(lead_ws(s) as int, s.len() as int)
}

/// `s` without trailing whitespace.
pub open spec fn trim_end(s: Seq<char>) -> Seq<char> {
    s.subrange(0, s.len() - trail_ws(s))
}

/// `s` without leading and trailing whitespace, as `str::trim` gives it.
pub open spec fn trim(s: Seq<char>) -> Seq<char> {
    trim_end(trim_start(s))
}

pub proof fn lemma_lead_ws_bound(s: Seq<char>)
    ensures
        lead_ws(s) <= s.len(),
        forall|k: int| 0 <= k < lead_ws(s) ==> white_space(#[trigger] s[k]),
        lead_ws(s) < s.len() ==> !white_space(s[lead_ws(s) as int]),
    decreases s.len(),
{
    if s.len() > 0 && white_space(s[0]) {
        lemma_lead_ws_bound(s.drop_first());
        assert forall|k: int| 0 <= k < lead_ws(s) implies white_space(#[trigger] s[k]) by {
            if k > 0 {
                assert(s[k] == s.drop_first()[k - 1]);
            }
        }
        if lead_ws(s) < s.len() {
            assert(s[lead_ws(s) as int] == s.drop_first()[lead_ws(s.drop_first()) as int]);
        }
    }
}

pub proof fn lemma_trail_ws_bound(s: Seq<char>)
    ensures
        trail_ws(s) <= s.len(),
        forall|k: int| s.len() - trail_ws(s) <= k < s.len() ==> white_space(#[trigger] s[k]),
        trail_ws(s) < s.len() ==> !white_space(s[s.len() - trail_ws(s) - 1]),
    decreases s.len(),
{
    if s.len() > 0 && white_space(s.last()) {
        lemma_trail_ws_bound(s.drop_last());
        assert forall|k: int| s.len() - trail_ws(s) <= k < s.len() implies white_space(#[trigger] s[k]) by {
            if k < s.len() - 1 {
                assert(s[k] == s.drop_last()[k]);
            }
        }
        if trail_ws(s) < s.len() {
            assert(s[s.len() - trail_ws(s) - 1] == s.drop_last()[s.drop_last().len() - trail_ws(s.drop_last()) - 1]);
        }
    }
}

/// The leading whitespace count is the first position holding a non-whitespace character.
proof fn lemma_lead_ws_exact(s: Seq<char>, i: int)
    requires
        0 <= i <= s.len(),
        forall|k: int| 0 <= k < i ==> white_space(#[trigger] s[k]),
        i == s.len() || !white_space(s[i]),
    ensures
        lead_ws(s) == i,
    decreases s.len(),
{
    if i > 0 {
        assert(white_space(s[0]));
        assert forall|k: int| 0 <= k < i - 1 implies white_space(#[trigger] s.drop_first()[k]) by {
            assert(s.drop_first()[k] == s[k + 1]);
        }
        if i < s.len() {
            assert(s.drop_first()[i - 1] == s[i]);
        }
        lemma_lead_ws_exact(s.drop_first(), i - 1);
    }
}

proof fn lemma_trail_ws_exact(s: Seq<char>, j: int)
    requires
        0 <= j <= s.len(),
        forall|k: int| j <= k < s.len() ==> white_space(#[trigger] s[k]),
        j == 0 || !white_space(s[j - 1]),
    ensures
        trail_ws(s) == s.len() - j,
    decreases s.len(),
{
    if j < s.len() {
        assert(white_space(s[s.len() - 1]));
        assert forall|k: int| j <= k < s.len() - 1 implies white_space(#[trigger] s.drop_last()[k]) by {
            assert(s.drop_last()[k] == s[k]);
        }
        if j > 0 {
            assert(s.drop_last()[j - 1] == s[j - 1]);
        }
        lemma_trail_ws_exact(s.drop_last(), j);
    }
}

/// The characters of `v` without leading and trailing whitespace.
pub(crate) fn trim_chars(v: &Vec<char>) -> (r: Vec<char>)
    ensures
        r@ == trim(v@),
{
    let mut i: usize = 0;
    while i < v.len() && is_whitespace(v[i])
        invariant
            i <= v.len(),
            forall|k: int| 0 <= k < i ==> white_space(#[trigger] v@[k]),
        decreases v.len() - i,
    {
        i = i + 1;
    }
    proof {
        lemma_lead_ws_exact(v@, i as int);
    }
    let ghost s1 = v@.subrange(i as int, v@.len() as int);
    let mut j: usize = v.len();
    while j > i && is_whitespace(v[j - 1])
        invariant
            i <= j <= v.len(),
            forall|k: int| j <= k < v.len() ==> white_space(#[trigger] v@[k]),
        decreases j,
    {
        j = j - 1;
    }
    proof {
        assert forall|k: int| j - i <= k < s1.len() implies white_space(#[trigger] s1[k]) by {
            assert(s1[k] == v@[k + i]);
        }
        if j > i {
            assert(s1[j - i - 1] == v@[j - 1]);
        }
        lemma_trail_ws_exact(s1, j - i);
    }
    let mut r: Vec<char> = Vec::new();
    let mut k: usize = i;
    while k < j
        invariant
            i <= k <= j <= v.len(),
            r@ == v@.subrange(i as int, k as int),
        decreases j - k,
    {
        r.push(v[k]);
        k = k + 1;
        assert(r@ =~= v@.subrange(i as int, k as int));
    }
    assert(r@ =~= trim(v@));
    r
}

/// A string slice without leading and trailing whitespace, as a new string.
pub(crate) fn trimmed(s: &str) -> (r: Vec<char>)
    ensures
        r@ == trim(s@),
{
    let v = chars_of(s);
    trim_chars(&v)
}



// == Splitting at whitespace ==

/// Left-to-right scan of `s` for whitespace-separated tokens: the tokens
/// completed so far and the token being read.
pub open spec fn ws_scan(s: Seq<char>) -> (Seq<Seq<char>>, Seq<char>)
    decreases s.len(),
{
    if s.len() == 0 {
        (Seq::empty(), Seq::empty())
    } else {
        let (done, cur) = ws_scan(s.drop_last());
        if white_space(s.last()) {
            if cur.len() > 0 { (done.push(cur), Seq::empty()) } else { (done, Seq::empty()) }
        } else {
            (done, cur.push(s.last()))
        }
    }
}

/// The maximal runs of non-whitespace characters of `s`, in order, as
/// `str::split_whitespace` yields them.
pub open spec fn ws_tokens(s: Seq<char>) -> Seq<Seq<char>> {
    let (done, cur) = ws_scan(s);
    if cur.len() > 0 { done.push(cur) } else { done }
}

proof fn lemma_ws_scan_concat(a: Seq<char>, b: Seq<char>)
    ensures
        ws_scan(a + seq![' '] + b) == (ws_tokens(a) + ws_scan(b).0, ws_scan(b).1),
    decreases b.len(),
{
    let ab = a + seq![' '] + b;
    if b.len() == 0 {
        assert(ab.drop_last() =~= a);
        assert(ab.last() == ' ');
    } else {
        lemma_ws_scan_concat(a, b.drop_last());
        assert(ab.drop_last() =~= a + seq![' '] + b.drop_last());
        assert(ab.last() == b.last());
        let (d, c) = ws_scan(b.drop_last());
        assert((ws_tokens(a) + d).push(c) =~= ws_tokens(a) + d.push(c));
    }
}

/// The tokens of two texts joined by a space are the tokens of the first
/// followed by those of the second.
pub proof fn lemma_ws_tokens_concat(a: Seq<char>, b: Seq<char>)
    ensures
        ws_tokens(a + seq![' '] + b) == ws_tokens(a) + ws_tokens(b),
{
    lemma_ws_scan_concat(a, b);
    let (d, c) = ws_scan(b);
    assert((ws_tokens(a) + d).push(c) =~= ws_tokens(a) + d.push(c));
}

/// ASCII uppercase of one character; other characters are unchanged.
pub open spec fn upper_char(c: char) -> char {
    if 'a' <= c && c <= 'z' { ((c as u32) - 32) as char } else { c }
}

/// ASCII uppercase of every character, as `str::to_ascii_uppercase` gives it.
pub open spec fn ascii_upper(s: Seq<char>) -> Seq<char> {
    s.map_values(|c: char| upper_char(c))
}

proof fn lemma_ws_scan_upper(s: Seq<char>)
    ensures
        ws_scan(ascii_upper(s)).0 == ws_scan(s).0.map_values(|t: Seq<char>| ascii_upper(t)),
        ws_scan(ascii_upper(s)).1 == ascii_upper(ws_scan(s).1),
    decreases s.len(),
{
    if s.len() > 0 {
        lemma_ws_scan_upper(s.drop_last());
        let u = ascii_upper(s);
        assert(u.drop_last() =~= ascii_upper(s.drop_last()));
        assert(u.last() == upper_char(s.last()));
        assert(white_space(upper_char(s.last())) == white_space(s.last()));
        let (d, c) = ws_scan(s.drop_last());
        assert(d.push(c).map_values(|t: Seq<char>| ascii_upper(t))
            =~= d.map_values(|t: Seq<char>| ascii_upper(t)).push(ascii_upper(c)));
        assert(ascii_upper(c.push(s.last())) =~= ascii_upper(c).push(upper_char(s.last())));
        assert(ascii_upper(Seq::<char>::empty()) =~= Seq::<char>::empty());
    } else {
        assert(ascii_upper(s) =~= Seq::<char>::empty());
        assert(ws_scan(s).0.map_values(|t: Seq<char>| ascii_upper(t)) =~= Seq::<Seq<char>>::empty());
        assert(ascii_upper(Seq::<char>::empty()) =~= Seq::<char>::empty());
    }
}

/// Changing ASCII letters to uppercase changes no token boundary: the
/// tokens of the uppercased text are the uppercased tokens.
pub proof fn lemma_ws_tokens_upper(s: Seq<char>)
    ensures
        ws_tokens(ascii_upper(s)) == ws_tokens(s).map_values(|t: Seq<char>| ascii_upper(t)),
{
    lemma_ws_scan_upper(s);
    let (d, c) = ws_scan(s);
    assert(d.push(c).map_values(|t: Seq<char>| ascii_upper(t))
        =~= d.map_values(|t: Seq<char>| ascii_upper(t)).push(ascii_upper(c)));
}

/// A text lowercases the same after its ASCII letters are uppercased.
pub proof fn lemma_lowercase_of_upper(s: Seq<char>)
    ensures
        lowercase(ascii_upper(s)) == lowercase(s),
{
    let u = ascii_upper(s);
    assert forall|k: int| 0 <= k < u.len() implies ((#[trigger] u[k] as u32) < 128) == ((s[k] as u32) < 128) by {
        assert(u[k] == upper_char(s[k]));
    }
    if all_ascii(s) {
        assert forall|k: int| 0 <= k < u.len() implies (#[trigger] u[k] as u32) < 128 by {
            assert((s[k] as u32) < 128);
        }
    }
    if all_ascii(u) {
        assert forall|k: int| 0 <= k < s.len() implies (#[trigger] s[k] as u32) < 128 by {
            assert((u[k] as u32) < 128);
        }
    }
    assert(ascii_lower(u) =~= ascii_lower(s));
}

/// The whitespace-separated tokens of a string.
pub(crate) fn split_whitespace(s: &str) -> (r: Vec<Vec<char>>)
    ensures
        r@.map_values(|t: Vec<char>| t@) == ws_tokens(s@),
{
    let v = chars_of(s);
    let mut done: Vec<Vec<char>> = Vec::new();
    let mut cur: Vec<char> = Vec::new();
    let mut i: usize = 0;
    proof {
        assert(v@.subrange(0, 0) =~= Seq::<char>::empty());
        assert(done@.map_values(|t: Vec<char>| t@) =~= Seq::<Seq<char>>::empty());
    }
    while i < v.len()
        invariant
            i <= v@.len(),
            v@ == s@,
            (done@.map_values(|t: Vec<char>| t@), cur@) == ws_scan(v@.subrange(0, i as int)),
        decreases v.len() - i,
    {
        let c = v[i];
        proof {
            let p = v@.subrange(0, i + 1);
            assert(p.drop_last() =~= v@.subrange(0, i as int));
            assert(p.last() == c);
        }
        if is_whitespace(c) {
            if cur.len() > 0 {
                let ghost before = done@;
                let token = cur;
                done.push(token);
                cur = Vec::new();
                proof {
                    assert(done@.map_values(|t: Vec<char>| t@) =~= before.map_values(|t: Vec<char>| t@).push(token@));
                    assert(cur@ =~= Seq::<char>::empty());
                }
            }
        } else {
            cur.push(c);
        }
        i = i + 1;
    }
    assert(v@.subrange(0, v@.len() as int) =~= v@);
    if cur.len() > 0 {
        let ghost before = done@;
        let token = cur;
        done.push(token);
        proof {
            assert(done@.map_values(|t: Vec<char>| t@) =~= before.map_values(|t: Vec<char>| t@).push(token@));
        }
    }
    done
}

// == Line breaks ==

/// `s` with every line break (`\r\n`, `\r` or `\n`) shown as `↵`.
pub open spec fn mark_line_breaks(s: Seq<char>) -> Seq<char>
    decreases s.len(),
{
    if s.len() == 0 {
        s
    } else if s.len() >= 2 && s[0] == '\r' && s[1] == '\n' {
        seq!['↵'] + mark_line_breaks(s.skip(2))
    } else if s[0] == '\r' || s[0] == '\n' {
        seq!['↵'] + mark_line_breaks(s.skip(1))
    } else {
        seq![s[0]] + mark_line_breaks(s.skip(1))
    }
}

/// The characters of `s` with line breaks shown as `↵`.
pub(crate) fn mark_breaks(s: &str) -> (r: Vec<char>)
    ensures
        r@ == mark_line_breaks(s@),
{
    let v = chars_of(s);
    let mut out: Vec<char> = Vec::new();
    let mut i: usize = 0;
    proof {
        assert(v@.skip(0) =~= v@);
        assert(out@ + mark_line_breaks(v@.skip(0)) =~= mark_line_breaks(v@));
    }
    while i < v.len()
        invariant
            i <= v@.len(),
            v@ == s@,
            out@ + mark_line_breaks(v@.skip(i as int)) == mark_line_breaks(v@),
        decreases v.len() - i,
    {
        let ghost rest = v@.skip(i as int);
        if i + 1 < v.len() && v[i] == '\r' && v[i + 1] == '\n' {
            proof {
                assert(rest.skip(2) =~= v@.skip(i + 2));
                assert(out@.push('↵') + mark_line_breaks(v@.skip(i + 2)) =~= out@ + mark_line_breaks(rest));
            }
            out.push('↵');
            i = i + 2;
        } else if v[i] == '\r' || v[i] == '\n' {
            proof {
                assert(rest.skip(1) =~= v@.skip(i + 1));
                assert(out@.push('↵') + mark_line_breaks(v@.skip(i + 1)) =~= out@ + mark_line_breaks(rest));
            }
            out.push('↵');
            i = i + 1;
        } else {
            proof {
                assert(rest.skip(1) =~= v@.skip(i + 1));
                assert(rest[0] == v@[i as int]);
                assert(out@.push(v@[i as int]) + mark_line_breaks(v@.skip(i + 1)) =~= out@ + mark_line_breaks(rest));
            }
            out.push(v[i]);
            i = i + 1;
        }
    }
    proof {
        assert(v@.skip(i as int) =~= Seq::<char>::empty());
        assert(out@ =~= mark_line_breaks(v@));
    }
    out
}

} // verus!
