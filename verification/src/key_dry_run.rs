//! Scripted key events for dry runs of the keybinding daemon: a
//! comma-separated list of `KEY:VALUE` events, each with an optional
//! `@milliseconds` timestamp.

use vstd::prelude::*;
use crate::bar_cli::{all_digits, digits_value, parse_u64, parsed_u64};
use crate::names::views;
use crate::text::{
    chars_of, nonblank_trimmed, push_str, split_pieces, split_trimmed_nonblank, string_of, trim, trim_chars,
};

verus! {

// == Integer parsing ==

pub const EMPTY_INTEGER: &'static str = "cannot parse integer from empty string";
pub const INVALID_DIGIT: &'static str = "invalid digit found in string";
pub const INTEGER_TOO_LARGE: &'static str = "number too large to fit in target type";
pub const INTEGER_TOO_SMALL: &'static str = "number too small to fit in target type";

/// The error met first when reading the digits `d` from position `k` on,
/// with `acc` the value read so far: a character that is not an ASCII digit
/// is an invalid digit; a digit that takes the value past `bound` is an
/// overflow (`over`); none when every digit is read within the bound.
pub open spec fn digit_scan_error(d: Seq<char>, k: nat, acc: nat, bound: nat, over: Seq<char>) -> Option<Seq<char>>
    decreases d.len() - k,
{
    if k >= d.len() {
        None
    } else if !crate::bar_cli::is_digit(d[k as int]) {
        Some(INVALID_DIGIT@)
    } else if acc * 10 + crate::bar_cli::digit_value(d[k as int]) > bound {
        Some(over)
    } else {
        digit_scan_error(d, k + 1, acc * 10 + crate::bar_cli::digit_value(d[k as int]), bound, over)
    }
}

/// The message that parsing `s` as a `u64` fails with, as the standard
/// library renders its `ParseIntError`; empty when the parse succeeds. An
/// empty text, a lone sign, and then the first bad character or the first
/// digit past `u64::MAX` (after one optional leading `+`) decide it.
pub open spec fn u64_parse_error(s: Seq<char>) -> Seq<char> {
    if s.len() == 0 {
        EMPTY_INTEGER@
    } else if s == seq!['+'] || s == seq!['-'] {
        INVALID_DIGIT@
    } else {
        let d = if s[0] == '+' { s.skip(1) } else { s };
        match digit_scan_error(d, 0, 0, u64::MAX as nat, INTEGER_TOO_LARGE@) {
            Some(m) => m,
            None => Seq::empty(),
        }
    }
}

/// The message that parsing `s` as an `i32` fails with, as the standard
/// library renders its `ParseIntError`; empty when the parse succeeds. As
/// for `u64`, except that a leading `-` is taken as a sign, and then the
/// bound is `2^31` and passing it is "too small".
pub open spec fn i32_parse_error(s: Seq<char>) -> Seq<char> {
    if s.len() == 0 {
        EMPTY_INTEGER@
    } else if s == seq!['+'] || s == seq!['-'] {
        INVALID_DIGIT@
    } else {
        let negative = s[0] == '-';
        let d = if s[0] == '+' || s[0] == '-' { s.skip(1) } else { s };
        match digit_scan_error(
            d,
            0,
            0,
            if negative { 0x8000_0000nat } else { 0x7fff_ffffnat },
            if negative { INTEGER_TOO_SMALL@ } else { INTEGER_TOO_LARGE@ },
        ) {
            Some(m) => m,
            None => Seq::empty(),
        }
    }
}

/// The message of the error of parsing `s` as a `u64`.
///
/// Trusted: calls `str::parse::<u64>` and renders the error with
/// `ToString`; the claim is that the text is `u64_parse_error(s)`: the
/// `ParseIntError` kinds empty, invalid digit and positive overflow, found
/// as the standard library's digit loop finds them, with their display
/// texts, and an empty string when the parse succeeds.
#[verifier::external_body]
fn u64_error_text(s: &str) -> (r: String)
    ensures
        r@ == u64_parse_error(s@),
{
    match s.parse::<u64>() {
        Ok(_) => String::new(),
        Err(error) => error.to_string(),
    }
}

/// The message of the error of parsing `s` as an `i32`.
///
/// Trusted: calls `str::parse::<i32>` and renders the error with
/// `ToString`; the claim is that the text is `i32_parse_error(s)`, as for
/// `u64_error_text`, with negative overflow for a negative number.
#[verifier::external_body]
fn i32_error_text(s: &str) -> (r: String)
    ensures
        r@ == i32_parse_error(s@),
{
    match s.parse::<i32>() {
        Ok(_) => String::new(),
        Err(error) => error.to_string(),
    }
}

/// What parsing `s` as an `i32` gives: an optional sign and at least one
/// ASCII digit, nothing else, with the value in the range of `i32`.
pub open spec fn parsed_i32(s: Seq<char>) -> Option<i32> {
    let signed = s.len() > 0 && (s[0] == '-' || s[0] == '+');
    let negative = s.len() > 0 && s[0] == '-';
    let d = if signed { s.skip(1) } else { s };
    if d.len() > 0 && all_digits(d) && digits_value(d) <= (if negative { 0x8000_0000nat } else { 0x7fff_ffffnat }) {
        Some((if negative { -(digits_value(d) as int) } else { digits_value(d) as int }) as i32)
    } else {
        None
    }
}

/// Parses a decimal `i32`, as `str::parse` does.
pub fn parse_i32(s: &str) -> (r: Option<i32>)
    ensures
        r == parsed_i32(s@),
{
    let cs = chars_of(s);
    if cs.len() == 0 {
        return None;
    }
    let signed = cs[0] == '-' || cs[0] == '+';
    let negative = cs[0] == '-';
    let mut rest: Vec<char> = Vec::new();
    let mut i: usize = if signed { 1 } else { 0 };
    let start = i;
    while i < cs.len()
        invariant
            start <= i <= cs.len(),
            rest@ == cs@.subrange(start as int, i as int),
        decreases cs.len() - i,
    {
        rest.push(cs[i]);
        i = i + 1;
    }
    let ghost d = if signed { s@.skip(1) } else { s@ };
    assert(rest@ =~= d);
    if rest.len() == 0 || rest[0] == '+' {
        assert(rest@.len() > 0 ==> !crate::bar_cli::is_digit(rest@[0]));
        return None;
    }
    let text = string_of(&rest);
    assert(crate::bar_cli::unsigned_digits(text@) == text@);
    match parse_u64(text.as_str()) {
        None => None,
        Some(v) => {
            if negative {
                if v <= 0x8000_0000 {
                    let m: i64 = v as i64;
                    Some((0i64 - m) as i32)
                } else {
                    None
                }
            } else {
                if v <= 0x7fff_ffff {
                    Some(v as i32)
                } else {
                    None
                }
            }
        },
    }
}

// == Characters ==

/// The position of the last `c` in `s`.
pub open spec fn last_pos(s: Seq<char>, c: char) -> Option<int>
    decreases s.len(),
{
    if s.len() == 0 {
        None
    } else if s.last() == c {
        Some(s.len() - 1)
    } else {
        last_pos(s.drop_last(), c)
    }
}

/// The position of the first `c` in `s`.
pub open spec fn first_pos(s: Seq<char>, c: char) -> Option<int>
    decreases s.len(),
{
    if s.len() == 0 {
        None
    } else if s[0] == c {
        Some(0)
    } else {
        match first_pos(s.drop_first(), c) {
            Some(p) => Some(p + 1),
            None => None,
        }
    }
}

proof fn lemma_last_pos(s: Seq<char>, c: char, j: int)
    requires
        0 <= j <= s.len(),
        forall|k: int| j <= k < s.len() ==> s[k] != c,
    ensures
        last_pos(s, c) == last_pos(s.take(j), c),
    decreases s.len() - j,
{
    if j < s.len() {
        assert(s.drop_last().take(j) =~= s.take(j));
        lemma_last_pos(s.drop_last(), c, j);
    } else {
        assert(s.take(j) =~= s);
    }
}

fn find_last(v: &Vec<char>, c: char) -> (r: Option<usize>)
    ensures
        match r {
            Some(p) => last_pos(v@, c) == Some(p as int) && p < v@.len(),
            None => last_pos(v@, c) is None,
        },
{
    let mut j: usize = v.len();
    while j > 0
        invariant
            j <= v.len(),
            forall|k: int| j <= k < v.len() ==> v@[k] != c,
        decreases j,
    {
        if v[j - 1] == c {
            proof {
                lemma_last_pos(v@, c, j as int);
                assert(v@.take(j as int).last() == c);
            }
            return Some(j - 1);
        }
        j = j - 1;
    }
    proof {
        lemma_last_pos(v@, c, 0);
    }
    None
}

proof fn lemma_first_pos(s: Seq<char>, c: char, j: int)
    requires
        0 <= j <= s.len(),
        forall|k: int| 0 <= k < j ==> s[k] != c,
    ensures
        j < s.len() && s[j] == c ==> first_pos(s, c) == Some(j),
        j == s.len() ==> first_pos(s, c) is None,
    decreases j,
{
    if j > 0 {
        assert forall|k: int| 0 <= k < j - 1 implies s.drop_first()[k] != c by {
            assert(s.drop_first()[k] == s[k + 1]);
        }
        lemma_first_pos(s.drop_first(), c, j - 1);
    } else if s.len() > 0 {
    }
}

pub(crate) fn find_first(v: &Vec<char>, c: char) -> (r: Option<usize>)
    ensures
        match r {
            Some(p) => first_pos(v@, c) == Some(p as int) && p < v@.len(),
            None => first_pos(v@, c) is None,
        },
{
    let mut j: usize = 0;
    while j < v.len()
        invariant
            j <= v.len(),
            forall|k: int| 0 <= k < j ==> v@[k] != c,
        decreases v.len() - j,
    {
        if v[j] == c {
            proof {
                lemma_first_pos(v@, c, j as int);
            }
            return Some(j);
        }
        j = j + 1;
    }
    proof {
        lemma_first_pos(v@, c, j as int);
    }
    None
}

pub(crate) fn slice(v: &Vec<char>, from: usize, to: usize) -> (r: Vec<char>)
    requires
        from <= to <= v.len(),
    ensures
        r@ == v@.subrange(from as int, to as int),
{
    let mut r: Vec<char> = Vec::new();
    let mut k: usize = from;
    while k < to
        invariant
            from <= k <= to <= v.len(),
            r@ == v@.subrange(from as int, k as int),
        decreases to - k,
    {
        r.push(v[k]);
        k = k + 1;
        assert(r@ =~= v@.subrange(from as int, k as int));
    }
    r
}

// == Events ==

/// One scripted key event: the key name, its value (1 press, 0 release, 2
/// repeat) and when it happens, in milliseconds from the start.
#[derive(Debug, Clone, PartialEq, Eq)]
pub struct KeyDryRunEvent {
    pub key: String,
    pub value: i32,
    pub at_ms: u64,
}

/// Abstract value of an event.
pub open spec fn event_view(e: KeyDryRunEvent) -> (Seq<char>, i32, u64) {
    (e.key@, e.value, e.at_ms)
}

/// The event of the `KEY:VALUE` part `core` of `token`, at `at`: the key is
/// the text before the first `:` and the value the trimmed text after it;
/// `next` is handed on as the next implicit timestamp.
pub open spec fn core_event(core: Seq<char>, token: Seq<char>, at: u64, next: u64) -> Result<
    ((Seq<char>, i32, u64), u64),
    Seq<char>,
> {
    match first_pos(core, ':') {
        None => Err("event '"@ + token + "' must be KEY:VALUE"@),
        Some(q) => {
            let raw = core.skip(q + 1);
            match parsed_i32(trim(raw)) {
                None => Err("invalid value '"@ + raw + "' in '"@ + token + "': "@ + i32_parse_error(trim(raw))),
                Some(v) => Ok(((trim(core.take(q)), v, at), next)),
            }
        },
    }
}

/// The event of one token, with the implicit timestamp `fallback`: an
/// explicit timestamp follows the last `@`; a token without one takes
/// `fallback`, and the next implicit timestamp is 10 ms later (saturating).
pub open spec fn token_event(token: Seq<char>, fallback: u64) -> Result<((Seq<char>, i32, u64), u64), Seq<char>> {
    match last_pos(token, '@') {
        Some(p) => {
            let right = token.skip(p + 1);
            match parsed_u64(right) {
                None => Err("invalid timestamp '"@ + right + "': "@ + u64_parse_error(right)),
                Some(at) => core_event(trim(token.take(p)), token, at, fallback),
            }
        },
        None => core_event(
            token,
            token,
            fallback,
            if fallback <= u64::MAX - 10 { (fallback + 10) as u64 } else { u64::MAX },
        ),
    }
}

/// The events of the tokens, in order, or the error of the first token
/// that has one.
pub open spec fn token_events(tokens: Seq<Seq<char>>, fallback: u64) -> Result<
    Seq<(Seq<char>, i32, u64)>,
    Seq<char>,
>
    decreases tokens.len(),
{
    if tokens.len() == 0 {
        Ok(Seq::empty())
    } else {
        match token_event(tokens[0], fallback) {
            Err(e) => Err(e),
            Ok((event, next)) => match token_events(tokens.drop_first(), next) {
                Err(e) => Err(e),
                Ok(rest) => Ok(seq![event] + rest),
            },
        }
    }
}

/// The events of a script: its comma-separated tokens (trimmed, empty ones
/// left out) read from implicit timestamp 0; a script without events is an
/// error.
pub open spec fn dry_run_events(input: Seq<char>) -> Result<Seq<(Seq<char>, i32, u64)>, Seq<char>> {
    match token_events(nonblank_trimmed(split_pieces(input, ',')), 0) {
        Err(e) => Err(e),
        Ok(events) => if events.len() == 0 {
            Err("no events provided"@)
        } else {
            Ok(events)
        },
    }
}

/// `acc` followed by the events of `r`, or the error of `r`.
pub open spec fn after(acc: Seq<(Seq<char>, i32, u64)>, r: Result<Seq<(Seq<char>, i32, u64)>, Seq<char>>) -> Result<
    Seq<(Seq<char>, i32, u64)>,
    Seq<char>,
> {
    match r {
        Err(e) => Err(e),
        Ok(rest) => Ok(acc + rest),
    }
}

fn parse_core(core: &Vec<char>, token: &Vec<char>, at: u64, next: u64) -> (r: Result<(KeyDryRunEvent, u64), String>)
    ensures
        match r {
            Ok((e, n)) => core_event(core@, token@, at, next) == Ok::<
                ((Seq<char>, i32, u64), u64),
                Seq<char>,
            >((event_view(e), n)),
            Err(m) => core_event(core@, token@, at, next) == Err::<((Seq<char>, i32, u64), u64), Seq<char>>(m@),
        },
{
    let q = match find_first(core, ':') {
        Some(q) => q,
        None => {
            let mut v: Vec<char> = Vec::new();
            push_str(&mut v, "event '");
            let mut x = token.clone();
            v.append(&mut x);
            push_str(&mut v, "' must be KEY:VALUE");
            return Err(string_of(&v));
        },
    };
    assert(q < core.len());
    let raw = slice(core, q + 1, core.len());
    assert(raw@ =~= core@.skip(q + 1));
    let value_text = trim_chars(&raw);
    let value_string = string_of(&value_text);
    match parse_i32(value_string.as_str()) {
        Some(v) => {
            let key_part = slice(core, 0, q);
            assert(key_part@ =~= core@.take(q as int));
            let key = trim_chars(&key_part);
            Ok((KeyDryRunEvent { key: string_of(&key), value: v, at_ms: at }, next))
        },
        None => {
            let why = i32_error_text(value_string.as_str());
            let mut v: Vec<char> = Vec::new();
            push_str(&mut v, "invalid value '");
            let mut x = raw.clone();
            v.append(&mut x);
            push_str(&mut v, "' in '");
            let mut y = token.clone();
            v.append(&mut y);
            push_str(&mut v, "': ");
            push_str(&mut v, why.as_str());
            Err(string_of(&v))
        },
    }
}

fn parse_token(token: &Vec<char>, fallback: u64) -> (r: Result<(KeyDryRunEvent, u64), String>)
    ensures
        match r {
            Ok((e, n)) => token_event(token@, fallback) == Ok::<((Seq<char>, i32, u64), u64), Seq<char>>(
                (event_view(e), n),
            ),
            Err(m) => token_event(token@, fallback) == Err::<((Seq<char>, i32, u64), u64), Seq<char>>(m@),
        },
{
    match find_last(token, '@') {
        Some(p) => {
            assert(p < token.len());
            let right = slice(token, p + 1, token.len());
            assert(right@ =~= token@.skip(p + 1));
            let right_text = string_of(&right);
            match parse_u64(right_text.as_str()) {
                None => {
                    let why = u64_error_text(right_text.as_str());
                    let mut v: Vec<char> = Vec::new();
                    push_str(&mut v, "invalid timestamp '");
                    let mut x = right.clone();
                    v.append(&mut x);
                    push_str(&mut v, "': ");
                    push_str(&mut v, why.as_str());
                    Err(string_of(&v))
                },
                Some(at) => {
                    let left = slice(token, 0, p);
                    assert(left@ =~= token@.take(p as int));
                    let core = trim_chars(&left);
                    parse_core(&core, token, at, fallback)
                },
            }
        },
        None => {
            let next = fallback.saturating_add(10);
            parse_core(token, token, fallback, next)
        },
    }
}

/// Parses a dry-run key script.
pub fn parse_key_dry_run_events(input: &str) -> (r: Result<Vec<KeyDryRunEvent>, String>)
    ensures
        match r {
            Ok(events) => dry_run_events(input@) == Ok::<Seq<(Seq<char>, i32, u64)>, Seq<char>>(
                events@.map_values(|e: KeyDryRunEvent| event_view(e)),
            ),
            Err(m) => dry_run_events(input@) == Err::<Seq<(Seq<char>, i32, u64)>, Seq<char>>(m@),
        },
{
    let tokens = split_trimmed_nonblank(input, ',');
    let ghost all = views(tokens@);
    let mut events: Vec<KeyDryRunEvent> = Vec::new();
    let mut fallback: u64 = 0;
    let mut i: usize = 0;
    assert(all.skip(0) =~= all);
    assert(events@.map_values(|e: KeyDryRunEvent| event_view(e)) =~= Seq::<(Seq<char>, i32, u64)>::empty());
    assert(Seq::<(Seq<char>, i32, u64)>::empty() + Seq::<(Seq<char>, i32, u64)>::empty() =~= Seq::<
        (Seq<char>, i32, u64),
    >::empty());
    while i < tokens.len()
        invariant
            i <= tokens@.len(),
            all == views(tokens@),
            all == nonblank_trimmed(split_pieces(input@, ',')),
            token_events(all, 0) == after(
                events@.map_values(|e: KeyDryRunEvent| event_view(e)),
                token_events(all.skip(i as int), fallback),
            ),
            events@.len() == i,
        decreases tokens.len() - i,
    {
        let token = chars_of(tokens[i].as_str());
        let ghost acc = events@.map_values(|e: KeyDryRunEvent| event_view(e));
        proof {
            assert(all.skip(i as int)[0] == token@);
            assert(all.skip(i as int).drop_first() =~= all.skip(i + 1));
        }
        match parse_token(&token, fallback) {
            Err(m) => {
                return Err(m);
            },
            Ok((event, next)) => {
                proof {
                    let rest = token_events(all.skip(i + 1), next);
                    match rest {
                        Ok(more) => {
                            assert(acc + (seq![event_view(event)] + more) =~= acc.push(event_view(event)) + more);
                        },
                        Err(_) => {},
                    }
                }
                events.push(event);
                assert(events@.map_values(|e: KeyDryRunEvent| event_view(e)) =~= acc.push(event_view(event)));
                fallback = next;
            },
        }
        i = i + 1;
    }
    assert(all.skip(i as int).len() == 0);
    let ghost acc = events@.map_values(|e: KeyDryRunEvent| event_view(e));
    assert(acc + Seq::<(Seq<char>, i32, u64)>::empty() =~= acc);
    if events.len() == 0 {
        return Err(crate::text::owned("no events provided"));
    }
    Ok(events)
}

} // verus!
