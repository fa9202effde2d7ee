//! Arguments of the headless bar runtime: a hand-written parser over the
//! argument list, with decimal parsing of its numeric options.

use vstd::prelude::*;
use std::path::PathBuf;
use crate::names::views;
use crate::text::{chars_of, push_str, str_eq, string_of};

verus! {

// == Unsigned decimal parsing ==

/// Whether `c` is an ASCII digit.
pub open spec fn is_digit(c: char) -> bool {
    '0' <= c && c <= '9'
}

/// The value of a digit character.
pub open spec fn digit_value(c: char) -> nat {
    (c as nat - '0' as nat) as nat
}

/// Whether every character of `s` is an ASCII digit.
pub open spec fn all_digits(s: Seq<char>) -> bool {
    forall|i: int| 0 <= i < s.len() ==> is_digit(#[trigger] s[i])
}

/// The number that a run of digits denotes.
pub open spec fn digits_value(s: Seq<char>) -> nat
    decreases s.len(),
{
    if s.len() == 0 {
        0
    } else {
        digits_value(s.drop_last()) * 10 + digit_value(s.last())
    }
}

/// The digits of a numeric argument: the text after one optional leading `+`.
pub open spec fn unsigned_digits(s: Seq<char>) -> Seq<char> {
    if s.len() > 0 && s[0] == '+' { s.skip(1) } else { s }
}

/// What parsing `s` as a `u64` gives: the value, when `s` is an optional `+`
/// followed by at least one ASCII digit and nothing else, and the value fits.
pub open spec fn parsed_u64(s: Seq<char>) -> Option<u64> {
    let d = unsigned_digits(s);
    if d.len() > 0 && all_digits(d) && digits_value(d) <= u64::MAX {
        Some(digits_value(d) as u64)
    } else {
        None
    }
}

proof fn lemma_digits_value_grows(s: Seq<char>, i: int, j: int)
    requires
        0 <= i <= j <= s.len(),
        all_digits(s),
    ensures
        digits_value(s.take(i)) <= digits_value(s.take(j)),
    decreases j - i,
{
    if i < j {
        lemma_digits_value_grows(s, i, j - 1);
        assert(s.take(j).drop_last() == s.take(j - 1));
    }
}

fn digit_of_char(c: char) -> (d: u64)
    requires
        is_digit(c),
    ensures
        d == digit_value(c),
{
    (c as u32 - '0' as u32) as u64
}

/// Parses a decimal `u64`, as `str::parse` does.
pub fn parse_u64(s: &str) -> (r: Option<u64>)
    ensures
        r == parsed_u64(s@),
{
    let cs = chars_of(s);
    let start: usize = if cs.len() > 0 && cs[0] == '+' { 1 } else { 0 };
    let ghost d = unsigned_digits(s@);
    assert(d == cs@.skip(start as int));
    if start >= cs.len() {
        return None;
    }
    let mut value: u64 = 0;
    let mut i: usize = start;
    while i < cs.len()
        invariant
            start <= i <= cs.len(),
            cs@ == s@,
            d == cs@.skip(start as int),
            d == unsigned_digits(s@),
            d.len() > 0,
            all_digits(d.take(i - start)),
            value == digits_value(d.take(i - start)),
        decreases cs.len() - i,
    {
        let c = cs[i];
        if !('0' <= c && c <= '9') {
            assert(d[i - start] == c);
            assert(!is_digit(d[(i - start) as int]));
            assert(!all_digits(d));
            return None;
        }
        let digit = digit_of_char(c);
        let ghost k = i - start;
        assert(d.take(k + 1).drop_last() == d.take(k));
        assert(d.take(k + 1).last() == c);
        if value > (u64::MAX - digit) / 10 {
            proof {
                assert(digits_value(d.take(k + 1)) > u64::MAX) by (nonlinear_arith)
                    requires
                        digits_value(d.take(k + 1)) == value * 10 + digit,
                        value > (u64::MAX - digit) / 10,
                        digit <= 9;
                if all_digits(d) {
                    lemma_digits_value_grows(d, k + 1, d.len() as int);
                    assert(d.take(d.len() as int) =~= d);
                    assert(digits_value(d) > u64::MAX);
                }
            }
            return None;
        }
        value = value * 10 + digit;
        assert(all_digits(d.take(k + 1))) by {
            assert forall|j: int| 0 <= j < k + 1 implies is_digit(#[trigger] d.take(k + 1)[j]) by {
                if j < k {
                    assert(d.take(k + 1)[j] == d.take(k)[j]);
                }
            }
        }
        i = i + 1;
    }
    assert(d.take(d.len() as int) == d);
    Some(value)
}

// == Arguments ==

/// The path that a command-line argument names.
pub uninterp spec fn path_buf_of(text: Seq<char>) -> PathBuf;

/// Trusted: calls `PathBuf::from` on the string; the claim is that the result
/// is `path_buf_of` of its characters.
#[verifier::external_body]
fn path_from(s: String) -> (p: PathBuf)
    ensures
        p == path_buf_of(s@),
{
    PathBuf::from(s)
}

/// Parsed arguments of the headless bar runtime.
#[derive(Debug, PartialEq, Eq)]
pub struct BarCli {
    pub config: Option<PathBuf>,
    pub print_default_config: bool,
    pub check_config: bool,
    pub watch: bool,
    pub ticks: Option<u64>,
    pub tick_interval_ms: u64,
    pub runtime_contract: bool,
    pub help: bool,
}

/// What the arguments ask for, with the configuration path as text.
pub struct BarArgs {
    pub config: Option<Seq<char>>,
    pub print_default_config: bool,
    pub check_config: bool,
    pub watch: bool,
    pub ticks: Option<u64>,
    pub tick_interval_ms: u64,
    pub runtime_contract: bool,
    pub help: bool,
}

/// The arguments before any is read: no flag set and a one-second tick.
pub open spec fn default_args() -> BarArgs {
    BarArgs {
        config: None,
        print_default_config: false,
        check_config: false,
        watch: false,
        ticks: None,
        tick_interval_ms: 1000,
        runtime_contract: false,
        help: false,
    }
}

/// Whether a parsed command line holds what `m` describes.
pub open spec fn holds_args(c: BarCli, m: BarArgs) -> bool {
    &&& match m.config {
        Some(p) => c.config == Some(path_buf_of(p)),
        None => c.config is None,
    }
    &&& c.print_default_config == m.print_default_config
    &&& c.check_config == m.check_config
    &&& c.watch == m.watch
    &&& c.ticks == m.ticks
    &&& c.tick_interval_ms == m.tick_interval_ms
    &&& c.runtime_contract == m.runtime_contract
    &&& c.help == m.help
}

/// Reads `args` from left to right into `acc`: each flag sets its field, each
/// option takes the next argument as its value; a missing or malformed value,
/// or an unknown argument, is an error with its message.
pub open spec fn parse_from(args: Seq<Seq<char>>, acc: BarArgs) -> Result<BarArgs, Seq<char>>
    decreases args.len(),
{
    if args.len() == 0 {
        Ok(acc)
    } else {
        let a = args[0];
        let rest = args.skip(1);
        if a == "-h"@ || a == "--help"@ {
            parse_from(rest, BarArgs { help: true, ..acc })
        } else if a == "--print-default-config"@ || a == "generate-config"@ {
            parse_from(rest, BarArgs { print_default_config: true, ..acc })
        } else if a == "--check-config"@ {
            parse_from(rest, BarArgs { check_config: true, ..acc })
        } else if a == "--watch"@ {
            parse_from(rest, BarArgs { watch: true, ..acc })
        } else if a == "--runtime-contract"@ {
            parse_from(rest, BarArgs { runtime_contract: true, ..acc })
        } else if a == "--ticks"@ {
            if rest.len() == 0 {
                Err(a + " requires a numeric argument"@)
            } else {
                match parsed_u64(rest[0]) {
                    Some(n) => parse_from(rest.skip(1), BarArgs { ticks: Some(n), ..acc }),
                    None => Err(a + " requires a positive integer"@),
                }
            }
        } else if a == "--tick-interval-ms"@ {
            if rest.len() == 0 {
                Err(a + " requires a numeric argument"@)
            } else {
                match parsed_u64(rest[0]) {
                    Some(n) => parse_from(rest.skip(1), BarArgs { tick_interval_ms: n, ..acc }),
                    None => Err(a + " requires a non-negative integer"@),
                }
            }
        } else if a == "-c"@ || a == "--config"@ {
            if rest.len() == 0 {
                Err(a + " requires a path argument"@)
            } else {
                parse_from(rest.skip(1), BarArgs { config: Some(rest[0]), ..acc })
            }
        } else {
            Err("unknown argument '"@ + a + "'"@)
        }
    }
}

impl Default for BarCli {
    fn default() -> (c: Self)
        ensures
            holds_args(c, default_args()),
    {
        BarCli {
            config: None,
            print_default_config: false,
            check_config: false,
            watch: false,
            ticks: None,
            tick_interval_ms: 1000,
            runtime_contract: false,
            help: false,
        }
    }
}

fn message_after(arg: &str, tail: &str) -> (m: String)
    ensures
        m@ == arg@ + tail@,
{
    let mut v = chars_of(arg);
    push_str(&mut v, tail);
    string_of(&v)
}

/// Parses the arguments that follow the program name.
pub fn parse_args(args: Vec<String>) -> (r: Result<BarCli, String>)
    ensures
        match parse_from(views(args@), default_args()) {
            Ok(m) => r is Ok && holds_args(r->Ok_0, m),
            Err(e) => r is Err && r->Err_0@ == e,
        },
{
    let ghost all = views(args@);
    let mut cli = BarCli::default();
    let ghost mut m = default_args();
    let mut i: usize = 0;
    assert(all.skip(0) =~= all);
    while i < args.len()
        invariant
            i <= args.len(),
            all == views(args@),
            holds_args(cli, m),
            parse_from(all.skip(i as int), m) == parse_from(all, default_args()),
        decreases args.len() - i,
    {
        let ghost here = all.skip(i as int);
        assert(here[0] == args@[i as int]@);
        assert(here.skip(1) =~= all.skip(i + 1));
        let arg = args[i].as_str();
        if str_eq(arg, "-h") || str_eq(arg, "--help") {
            cli.help = true;
            proof { m = BarArgs { help: true, ..m }; }
            i = i + 1;
        } else if str_eq(arg, "--print-default-config") || str_eq(arg, "generate-config") {
            cli.print_default_config = true;
            proof { m = BarArgs { print_default_config: true, ..m }; }
            i = i + 1;
        } else if str_eq(arg, "--check-config") {
            cli.check_config = true;
            proof { m = BarArgs { check_config: true, ..m }; }
            i = i + 1;
        } else if str_eq(arg, "--watch") {
            cli.watch = true;
            proof { m = BarArgs { watch: true, ..m }; }
            i = i + 1;
        } else if str_eq(arg, "--runtime-contract") {
            cli.runtime_contract = true;
            proof { m = BarArgs { runtime_contract: true, ..m }; }
            i = i + 1;
        } else if str_eq(arg, "--ticks") || str_eq(arg, "--tick-interval-ms") {
            let ticks = str_eq(arg, "--ticks");
            if i + 1 >= args.len() {
                return Err(message_after(arg, " requires a numeric argument"));
            }
            assert(here.skip(1)[0] == args@[i + 1]@);
            assert(here.skip(1).skip(1) =~= all.skip(i + 2));
            match parse_u64(args[i + 1].as_str()) {
                Some(n) => {
                    if ticks {
                        cli.ticks = Some(n);
                        proof { m = BarArgs { ticks: Some(n), ..m }; }
                    } else {
                        cli.tick_interval_ms = n;
                        proof { m = BarArgs { tick_interval_ms: n, ..m }; }
                    }
                },
                None => {
                    if ticks {
                        return Err(message_after(arg, " requires a positive integer"));
                    } else {
                        return Err(message_after(arg, " requires a non-negative integer"));
                    }
                },
            }
            i = i + 2;
        } else if str_eq(arg, "-c") || str_eq(arg, "--config") {
            if i + 1 >= args.len() {
                return Err(message_after(arg, " requires a path argument"));
            }
            assert(here.skip(1)[0] == args@[i + 1]@);
            assert(here.skip(1).skip(1) =~= all.skip(i + 2));
            let path = args[i + 1].clone();
            proof { m = BarArgs { config: Some(path@), ..m }; }
            cli.config = Some(path_from(path));
            i = i + 2;
        } else {
            let mut v = chars_of("unknown argument '");
            push_str(&mut v, arg);
            push_str(&mut v, "'");
            return Err(string_of(&v));
        }
    }
    assert(all.skip(i as int) =~= Seq::<Seq<char>>::empty());
    Ok(cli)
}

} // verus!
