//! Settings and outcome of a bounded menu action: which menu and action run,
//! how long they may take and how much of their output is kept.

use vstd::prelude::*;
use std::time::Duration;
use crate::text::{owned, push_signed, push_str, signed_decimal, string_of};

verus! {

/// Copying a duration.
///
/// Trusted: `Duration` is a `Copy` type, so its `clone` returns the same value.
pub assume_specification[ <core::time::Duration as Clone>::clone ](d: &core::time::Duration) -> (r: core::time::Duration)
    ensures
        r == *d,
;

/// Comparing two durations.
///
/// Trusted: calls `Duration`'s `eq`; nothing is claimed of the result.
pub assume_specification[ <core::time::Duration as PartialEq>::eq ](a: &core::time::Duration, b: &core::time::Duration) -> bool;

/// Output kept per stream when no other limit is set.
pub const DEFAULT_OUTPUT_LIMIT_BYTES: usize = 65536;

/// The duration of a whole number of seconds.
pub uninterp spec fn seconds(secs: u64) -> Duration;

/// A duration of `secs` seconds.
///
/// Trusted: calls `Duration::from_secs`; the claim is that the result is
/// `seconds(secs)`.
#[verifier::external_body]
fn duration_from_secs(secs: u64) -> (d: Duration)
    ensures
        d == seconds(secs),
{
    Duration::from_secs(secs)
}

/// Runner of one menu action, bounded in time and in retained output.
#[derive(Debug, Clone, PartialEq, Eq)]
pub struct ActionRunner {
    pub menu: String,
    pub action: String,
    timeout: Duration,
    output_limit_bytes: usize,
}

impl ActionRunner {
    /// The menu the action belongs to.
    pub closed spec fn menu_name(&self) -> String {
        self.menu
    }

    /// The action's name.
    pub closed spec fn action_name(&self) -> String {
        self.action
    }

    /// The time the action may take.
    pub closed spec fn timeout_spec(&self) -> Duration {
        self.timeout
    }

    /// The number of output bytes kept per stream.
    pub closed spec fn output_limit(&self) -> usize {
        self.output_limit_bytes
    }

    /// A runner with the default thirty-second timeout.
    pub fn new(menu: String, action: String) -> (r: Self)
        ensures
            r.menu_name() == menu,
            r.action_name() == action,
            r.timeout_spec() == seconds(30),
            r.output_limit() == DEFAULT_OUTPUT_LIMIT_BYTES,
    {
        Self::with_timeout(menu, action, duration_from_secs(30))
    }

    pub fn with_timeout(menu: String, action: String, timeout: Duration) -> (r: Self)
        ensures
            r.menu_name() == menu,
            r.action_name() == action,
            r.timeout_spec() == timeout,
            r.output_limit() == DEFAULT_OUTPUT_LIMIT_BYTES,
    {
        ActionRunner { menu, action, timeout, output_limit_bytes: DEFAULT_OUTPUT_LIMIT_BYTES }
    }

    /// The same runner keeping at most `output_limit_bytes` bytes, and at least one.
    pub fn with_output_limit(self, output_limit_bytes: usize) -> (r: Self)
        ensures
            r.menu_name() == self.menu_name(),
            r.action_name() == self.action_name(),
            r.timeout_spec() == self.timeout_spec(),
            r.output_limit() == if output_limit_bytes > 1 { output_limit_bytes } else { 1 },
    {
        let mut runner = self;
        runner.output_limit_bytes = if output_limit_bytes > 1 { output_limit_bytes } else { 1 };
        runner
    }

    /// The time the action may take.
    pub fn timeout(&self) -> (d: Duration)
        ensures
            d == self.timeout_spec(),
    {
        self.timeout
    }

    /// The number of output bytes kept per stream.
    pub fn output_limit_bytes(&self) -> (n: usize)
        ensures
            n == self.output_limit(),
    {
        self.output_limit_bytes
    }
}

/// What a finished action reports.
#[derive(Debug, PartialEq, Eq)]
pub struct ActionOutcome<T> {
    pub menu: String,
    pub action: String,
    pub duration_ms: u128,
    pub exit_code: Option<i32>,
    pub error_class: Option<String>,
    pub stdout: String,
    pub stderr: String,
    pub stdout_truncated: bool,
    pub stderr_truncated: bool,
    pub stdout_bytes: u64,
    pub stderr_bytes: u64,
    pub result: Result<T, String>,
}

impl<T: Clone> Clone for ActionOutcome<T> {
    fn clone(&self) -> (r: Self) {
        ActionOutcome {
            menu: self.menu.clone(),
            action: self.action.clone(),
            duration_ms: self.duration_ms,
            exit_code: self.exit_code,
            error_class: match &self.error_class {
                Some(c) => Some(c.clone()),
                None => None,
            },
            stdout: self.stdout.clone(),
            stderr: self.stderr.clone(),
            stdout_truncated: self.stdout_truncated,
            stderr_truncated: self.stderr_truncated,
            stdout_bytes: self.stdout_bytes,
            stderr_bytes: self.stderr_bytes,
            result: match &self.result {
                Ok(v) => Ok(v.clone()),
                Err(e) => Err(e.clone()),
            },
        }
    }
}

// == Bounded capture of an output stream ==

/// The text of a byte sequence read as UTF-8, with each invalid sequence
/// replaced by U+FFFD.
pub uninterp spec fn utf8_lossy(bytes: Seq<u8>) -> Seq<char>;

/// The text of a byte sequence: ASCII bytes are their own characters, one
/// each; any other sequence is read as UTF-8 with replacements.
pub open spec fn decoded_text(bytes: Seq<u8>) -> Seq<char> {
    if forall|k: int| 0 <= k < bytes.len() ==> #[trigger] bytes[k] < 128 {
        bytes.map_values(|b: u8| b as char)
    } else {
        utf8_lossy(bytes)
    }
}

/// Trusted: calls `String::from_utf8_lossy` and takes the owned result; the
/// claim is that its characters are `utf8_lossy(bytes)`, and that bytes that
/// are all ASCII, being valid UTF-8, decode to one character each.
#[verifier::external_body]
fn lossy_text(bytes: &Vec<u8>) -> (s: String)
    ensures
        s@ == decoded_text(bytes@),
        s@ == utf8_lossy(bytes@),
{
    String::from_utf8_lossy(bytes.as_slice()).into_owned()
}

/// What was kept of one output stream.
#[derive(Debug, Default, PartialEq, Eq)]
pub struct BoundedOutput {
    pub text: String,
    pub truncated: bool,
    pub total_bytes: u64,
}

/// The part of a stream that a capture keeps: its first `limit` bytes.
pub open spec fn kept_prefix(seen: Seq<u8>, limit: nat) -> Seq<u8> {
    if seen.len() <= limit { seen } else { seen.take(limit as int) }
}

/// The byte count as a saturating `u64` counter reports it.
pub open spec fn saturated_count(n: nat) -> u64 {
    if n <= u64::MAX { n as u64 } else { u64::MAX }
}

/// The bytes of one output stream, read chunk by chunk: the first bytes up to
/// a limit are kept, and all of them are counted.
pub struct OutputCapture {
    retained: Vec<u8>,
    total_bytes: u64,
    limit: usize,
    seen: Ghost<Seq<u8>>,
}

impl OutputCapture {
    /// Every byte read so far, in order.
    pub closed spec fn seen_bytes(&self) -> Seq<u8> {
        self.seen@
    }

    /// The bytes kept so far.
    pub closed spec fn kept(&self) -> Seq<u8> {
        self.retained@
    }

    /// The counter of bytes read.
    pub closed spec fn counted(&self) -> u64 {
        self.total_bytes
    }

    /// How many bytes are kept at most.
    pub closed spec fn keep_limit(&self) -> nat {
        self.limit as nat
    }

    /// The capture keeps exactly the first `limit` bytes read and counts them all.
    #[verifier::type_invariant]
    closed spec fn wf(&self) -> bool {
        &&& self.retained@ == kept_prefix(self.seen@, self.limit as nat)
        &&& self.total_bytes == saturated_count(self.seen@.len())
    }

    /// An empty capture that keeps at most `limit` bytes.
    pub fn new(limit: usize) -> (c: Self)
        ensures
            c.seen_bytes() == Seq::<u8>::empty(),
            c.kept() == Seq::<u8>::empty(),
            c.counted() == 0,
            c.keep_limit() == limit,
    {
        OutputCapture { retained: Vec::new(), total_bytes: 0, limit, seen: Ghost(Seq::empty()) }
    }

    /// Takes in the next chunk read from the stream.
    pub fn push_chunk(&mut self, chunk: &[u8])
        ensures
            final(self).seen_bytes() == old(self).seen_bytes() + chunk@,
            final(self).keep_limit() == old(self).keep_limit(),
            final(self).kept() == kept_prefix(final(self).seen_bytes(), final(self).keep_limit()),
            final(self).counted() == saturated_count(final(self).seen_bytes().len()),
    {
        let mut taken = OutputCapture { retained: Vec::new(), total_bytes: 0, limit: self.limit, seen: Ghost(Seq::empty()) };
        std::mem::swap(self, &mut taken);
        proof {
            use_type_invariant(&taken);
        }
        let OutputCapture { mut retained, total_bytes, limit, seen } = taken;
        let read = chunk.len();
        let total: u64 = if read as u128 + total_bytes as u128 > u64::MAX as u128 {
            u64::MAX
        } else {
            total_bytes + read as u64
        };
        let remaining: usize = if limit > retained.len() { limit - retained.len() } else { 0 };
        let take: usize = if read < remaining { read } else { remaining };
        let ghost old_seen = seen@;
        let ghost old_kept = retained@;
        let mut i: usize = 0;
        while i < take
            invariant
                i <= take,
                take <= chunk@.len(),
                retained@ == old_kept + chunk@.take(i as int),
            decreases take - i,
        {
            retained.push(chunk[i]);
            assert(chunk@.take(i as int + 1) == chunk@.take(i as int).push(chunk@[i as int]));
            i = i + 1;
        }
        proof {
            let all = old_seen + chunk@;
            let lim = limit as nat;
            if old_seen.len() >= lim {
                assert(take == 0);
                assert(retained@ == old_kept);
                assert(kept_prefix(all, lim) =~= old_kept);
            } else {
                assert(old_kept == old_seen);
                if all.len() <= lim {
                    assert(retained@ =~= all);
                } else {
                    assert(retained@ =~= all.take(lim as int));
                }
            }
        }
        *self = OutputCapture { retained, total_bytes: total, limit, seen: Ghost(old_seen + chunk@) };
    }

    /// What the capture kept, as text, with whether bytes were dropped and how
    /// many were read.
    pub fn finish(self) -> (out: BoundedOutput)
        ensures
            out.text@ == decoded_text(self.kept()),
            out.truncated == (self.counted() > self.kept().len()),
            out.total_bytes == self.counted(),
    {
        proof {
            use_type_invariant(&self);
        }
        let text = lossy_text(&self.retained);
        BoundedOutput {
            text,
            truncated: self.total_bytes as u128 > self.retained.len() as u128,
            total_bytes: self.total_bytes,
        }
    }
}

/// What a capture keeps of a stream is its first bytes, as many as the limit
/// allows: all of them when the stream is no longer than the limit.
pub proof fn capture_keeps_first_bytes(seen: Seq<u8>, limit: nat)
    ensures
        kept_prefix(seen, limit).len() == if seen.len() <= limit { seen.len() } else { limit },
        kept_prefix(seen, limit) == seen.take(kept_prefix(seen, limit).len() as int),
{
    if seen.len() <= limit {
        assert(seen.take(seen.len() as int) =~= seen);
    }
}

// == Outcomes ==

/// `Debug` text of a duration.
pub uninterp spec fn duration_debug(d: Duration) -> Seq<char>;

/// Trusted: formats the duration with `Debug`; the claim is that the text is
/// `duration_debug(d)`.
#[verifier::external_body]
fn duration_text(d: &Duration) -> (s: String)
    ensures
        s@ == duration_debug(*d),
{
    format!("{:?}", d)
}

/// `Debug` text of an optional exit code: `Some(n)` or `None`.
pub open spec fn exit_code_debug(code: Option<i32>) -> Seq<char> {
    match code {
        Some(c) => "Some("@ + signed_decimal(c as int) + ")"@,
        None => "None"@,
    }
}

/// The message of an action that ran out of time.
pub open spec fn timeout_message(action: Seq<char>, menu: Seq<char>, timeout: Duration) -> Seq<char> {
    "action `"@ + action + "` for menu `"@ + menu + "` timed out after "@ + duration_debug(timeout)
}

/// The message of a command that could not be started.
pub open spec fn spawn_failure_message(program: Seq<char>, menu: Seq<char>, action: Seq<char>, source: Seq<char>) -> Seq<char> {
    "failed to spawn action `"@ + program + "` for menu `"@ + menu + "` action `"@ + action + "`: "@ + source
}

/// The message of a command whose end could not be awaited.
pub open spec fn wait_failure_message(action: Seq<char>, menu: Seq<char>, source: Seq<char>) -> Seq<char> {
    "failed to wait for action `"@ + action + "` in menu `"@ + menu + "`: "@ + source
}

/// The message of a command that exited unsuccessfully.
pub open spec fn exit_failure_message(action: Seq<char>, menu: Seq<char>, code: Option<i32>) -> Seq<char> {
    "action `"@ + action + "` for menu `"@ + menu + "` exited with status "@ + exit_code_debug(code)
}

/// How a started command came to an end.
#[derive(Debug, Clone, PartialEq, Eq)]
pub enum CommandEnd {
    /// It exited, with its code (if any) and whether the exit counts as success.
    Exited { code: Option<i32>, success: bool },
    /// Waiting for it failed, for the given reason.
    WaitFailed(String),
    /// It ran past the timeout and was stopped.
    TimedOut,
}

/// Whether an optional string holds exactly the given text.
pub open spec fn holds_text(o: Option<String>, t: Seq<char>) -> bool {
    o is Some && o->0@ == t
}

/// Whether a result is an error with exactly the given text.
pub open spec fn fails_with<T>(r: Result<T, String>, t: Seq<char>) -> bool {
    r is Err && r->Err_0@ == t
}

impl ActionRunner {
    fn timeout_text(&self) -> (s: String)
        ensures
            s@ == timeout_message(self.action_name()@, self.menu_name()@, self.timeout_spec()),
    {
        let mut v: Vec<char> = Vec::new();
        push_str(&mut v, "action `");
        push_str(&mut v, self.action.as_str());
        push_str(&mut v, "` for menu `");
        push_str(&mut v, self.menu.as_str());
        push_str(&mut v, "` timed out after ");
        let d = duration_text(&self.timeout);
        push_str(&mut v, d.as_str());
        string_of(&v)
    }

    /// The outcome of generic work, given what it finished with, or `None`
    /// when it ran past the timeout.
    pub fn work_outcome<T>(&self, finished: Option<Result<T, String>>, duration_ms: u128) -> (o: ActionOutcome<T>)
        ensures
            o.menu == self.menu_name(),
            o.action == self.action_name(),
            o.duration_ms == duration_ms,
            o.exit_code is None,
            o.stdout@ == Seq::<char>::empty(),
            o.stderr@ == Seq::<char>::empty(),
            !o.stdout_truncated,
            !o.stderr_truncated,
            o.stdout_bytes == 0,
            o.stderr_bytes == 0,
            match finished {
                None => holds_text(o.error_class, "timeout"@)
                    && fails_with(o.result, timeout_message(self.action_name()@, self.menu_name()@, self.timeout_spec())),
                Some(Ok(v)) => o.error_class is None && o.result == Ok::<T, String>(v),
                Some(Err(e)) => holds_text(o.error_class, "error"@) && o.result == Err::<T, String>(e),
            },
    {
        let (result, error_class) = match finished {
            None => (Err(self.timeout_text()), Some(owned("timeout"))),
            Some(Ok(v)) => (Ok(v), None),
            Some(Err(e)) => (Err(e), Some(owned("error"))),
        };
        ActionOutcome {
            menu: self.menu.clone(),
            action: self.action.clone(),
            duration_ms,
            exit_code: None,
            error_class,
            stdout: String::new(),
            stderr: String::new(),
            stdout_truncated: false,
            stderr_truncated: false,
            stdout_bytes: 0,
            stderr_bytes: 0,
            result,
        }
    }

    /// The outcome of a command that could not be started: `program` is the
    /// command's path as displayed and `source` the reason.
    pub fn spawn_failure_outcome(&self, program: &str, source: &str, duration_ms: u128) -> (o: ActionOutcome<()>)
        ensures
            o.menu == self.menu_name(),
            o.action == self.action_name(),
            o.duration_ms == duration_ms,
            o.exit_code is None,
            holds_text(o.error_class, "spawn"@),
            o.stdout@ == Seq::<char>::empty(),
            o.stderr@ == Seq::<char>::empty(),
            !o.stdout_truncated,
            !o.stderr_truncated,
            o.stdout_bytes == 0,
            o.stderr_bytes == 0,
            fails_with(o.result, spawn_failure_message(program@, self.menu_name()@, self.action_name()@, source@)),
    {
        let mut v: Vec<char> = Vec::new();
        push_str(&mut v, "failed to spawn action `");
        push_str(&mut v, program);
        push_str(&mut v, "` for menu `");
        push_str(&mut v, self.menu.as_str());
        push_str(&mut v, "` action `");
        push_str(&mut v, self.action.as_str());
        push_str(&mut v, "`: ");
        push_str(&mut v, source);
        ActionOutcome {
            menu: self.menu.clone(),
            action: self.action.clone(),
            duration_ms,
            exit_code: None,
            error_class: Some(owned("spawn")),
            stdout: String::new(),
            stderr: String::new(),
            stdout_truncated: false,
            stderr_truncated: false,
            stdout_bytes: 0,
            stderr_bytes: 0,
            result: Err(string_of(&v)),
        }
    }

    /// The outcome of a started command, from how it ended and what was kept
    /// of its two output streams.
    pub fn command_outcome(&self, end: CommandEnd, stdout: BoundedOutput, stderr: BoundedOutput, duration_ms: u128) -> (o: ActionOutcome<()>)
        ensures
            o.menu == self.menu_name(),
            o.action == self.action_name(),
            o.duration_ms == duration_ms,
            o.stdout == stdout.text,
            o.stderr == stderr.text,
            o.stdout_truncated == stdout.truncated,
            o.stderr_truncated == stderr.truncated,
            o.stdout_bytes == stdout.total_bytes,
            o.stderr_bytes == stderr.total_bytes,
            match end {
                CommandEnd::TimedOut => o.exit_code is None
                    && holds_text(o.error_class, "timeout"@)
                    && fails_with(o.result, timeout_message(self.action_name()@, self.menu_name()@, self.timeout_spec())),
                CommandEnd::WaitFailed(source) => o.exit_code is None
                    && holds_text(o.error_class, "wait"@)
                    && fails_with(o.result, wait_failure_message(self.action_name()@, self.menu_name()@, source@)),
                CommandEnd::Exited { code, success } => o.exit_code == code
                    && (success ==> o.error_class is None && o.result is Ok)
                    && (!success ==> holds_text(o.error_class, "non_zero_exit"@)
                        && fails_with(o.result, exit_failure_message(self.action_name()@, self.menu_name()@, code))),
            },
    {
        let (exit_code, error_class, result) = match end {
            CommandEnd::TimedOut => {
                let message = self.timeout_text();
                (None, Some(owned("timeout")), Err(message))
            },
            CommandEnd::WaitFailed(source) => {
                let mut v: Vec<char> = Vec::new();
                push_str(&mut v, "failed to wait for action `");
                push_str(&mut v, self.action.as_str());
                push_str(&mut v, "` in menu `");
                push_str(&mut v, self.menu.as_str());
                push_str(&mut v, "`: ");
                push_str(&mut v, source.as_str());
                (None, Some(owned("wait")), Err(string_of(&v)))
            },
            CommandEnd::Exited { code, success } => {
                if success {
                    (code, None, Ok(()))
                } else {
                    let mut v: Vec<char> = Vec::new();
                    push_str(&mut v, "action `");
                    push_str(&mut v, self.action.as_str());
                    push_str(&mut v, "` for menu `");
                    push_str(&mut v, self.menu.as_str());
                    push_str(&mut v, "` exited with status ");
                    let ghost head = v@;
                    match code {
                        Some(c) => {
                            push_str(&mut v, "Some(");
                            push_signed(&mut v, c);
                            push_str(&mut v, ")");
                        },
                        None => push_str(&mut v, "None"),
                    }
                    assert(v@ =~= head + exit_code_debug(code));
                    (code, Some(owned("non_zero_exit")), Err(string_of(&v)))
                }
            },
        };
        ActionOutcome {
            menu: self.menu.clone(),
            action: self.action.clone(),
            duration_ms,
            exit_code,
            error_class,
            stdout: stdout.text,
            stderr: stderr.text,
            stdout_truncated: stdout.truncated,
            stderr_truncated: stderr.truncated,
            stdout_bytes: stdout.total_bytes,
            stderr_bytes: stderr.total_bytes,
            result,
        }
    }
}

} // verus!
