//! Decisions of the hotkey daemon's supervisor: what each event of its loop
//! leads to, how a reload attempt changes the supervisor's state and what
//! it answers.

use vstd::prelude::*;
use crate::hotkeys::{BackendArg, ControlRequest};
use crate::text::{decimal, owned, push_decimal, push_str, string_of};

verus! {

/// What the supervisor knows of the running configuration.
#[derive(Debug, Clone, PartialEq, Eq)]
pub struct SupervisorState {
    pub backend: BackendArg,
    /// Counts the configurations loaded so far, from 1.
    pub generation: u64,
    pub binding_count: usize,
    pub managed_menu_count: usize,
    pub started_at_unix_ms: u128,
    pub loaded_at_unix_ms: u128,
    pub config_sources: Vec<String>,
    pub last_reload_error: Option<String>,
    pub shadow: bool,
    pub grab: bool,
}

impl SupervisorState {
    /// The state once the first configuration runs: generation 1, loaded
    /// when started, with no reload error.
    pub fn new(
        backend: BackendArg,
        binding_count: usize,
        managed_menu_count: usize,
        started_at_unix_ms: u128,
        config_sources: Vec<String>,
        shadow: bool,
        grab: bool,
    ) -> (s: Self)
        ensures
            s.backend == backend,
            s.generation == 1,
            s.binding_count == binding_count,
            s.managed_menu_count == managed_menu_count,
            s.started_at_unix_ms == started_at_unix_ms,
            s.loaded_at_unix_ms == started_at_unix_ms,
            s.config_sources == config_sources,
            s.last_reload_error is None,
            s.shadow == shadow,
            s.grab == grab,
    {
        SupervisorState {
            backend,
            generation: 1,
            binding_count,
            managed_menu_count,
            started_at_unix_ms,
            loaded_at_unix_ms: started_at_unix_ms,
            config_sources,
            last_reload_error: None,
            shadow,
            grab,
        }
    }
}

/// The name of a backend in the daemon's status.
pub fn backend_name(backend: BackendArg) -> (r: &'static str)
    ensures
        r@ == match backend {
            BackendArg::X11 => "x11"@,
            BackendArg::Evdev => "evdev"@,
        },
{
    match backend {
        BackendArg::X11 => "x11",
        BackendArg::Evdev => "evdev",
    }
}

/// How an attempt to reload the configuration went.
#[derive(Debug, Clone, PartialEq, Eq)]
pub enum ReloadAttempt {
    /// The configuration could not be loaded.
    LoadFailed(String),
    /// The configuration was refused by validation.
    Invalid(String),
    /// The new input worker did not get ready; the previous configuration
    /// was started again, which failed with `restore_error` when present.
    ReadinessFailed { error: String, restore_error: Option<String> },
    /// The new input worker is ready with the new configuration.
    Ready { binding_count: usize, managed_menu_count: usize, now_unix_ms: u128 },
}

/// An answer to a control request.
#[derive(Debug, Clone, PartialEq, Eq)]
pub struct ControlReply {
    pub ok: bool,
    pub message: String,
}

/// Why a reload that did not get ready was rolled back.
pub open spec fn rollback_message(error: Seq<char>, restore_error: Option<Seq<char>>) -> Seq<char> {
    match restore_error {
        None => "candidate worker failed readiness: "@ + error + "; previous generation restored"@,
        Some(r) => "candidate worker failed readiness: "@ + error
            + "; previous generation also failed to restore: "@ + r,
    }
}

/// The text of an optional string.
pub open spec fn opt_text(o: Option<String>) -> Option<Seq<char>> {
    match o {
        Some(s) => Some(s@),
        None => None,
    }
}

/// The error that a failed reload attempt leaves, if it failed.
pub open spec fn reload_error(a: ReloadAttempt) -> Option<Seq<char>> {
    match a {
        ReloadAttempt::LoadFailed(e) => Some(e@),
        ReloadAttempt::Invalid(e) => Some(e@),
        ReloadAttempt::ReadinessFailed { error, restore_error } => Some(
            rollback_message(error@, opt_text(restore_error)),
        ),
        ReloadAttempt::Ready { .. } => None,
    }
}

/// The answer to a reload attempt.
pub open spec fn reload_reply(s: SupervisorState, a: ReloadAttempt) -> (bool, Seq<char>) {
    match a {
        ReloadAttempt::LoadFailed(e) => (false, "reload rejected: "@ + e@),
        ReloadAttempt::Invalid(e) => (false, "reload rejected: "@ + e@),
        ReloadAttempt::ReadinessFailed { error, restore_error } => (
            false,
            "reload rolled back: "@ + rollback_message(error@, opt_text(restore_error)),
        ),
        ReloadAttempt::Ready { binding_count, .. } => (
            true,
            "reloaded generation "@ + decimal((s.generation + 1) as nat) + " with "@ + decimal(binding_count as nat)
                + " bindings"@,
        ),
    }
}

/// The state after a reload attempt: a failure records its error and keeps
/// everything else; success moves to the next generation with the new
/// counts, loaded now, and clears the error.
pub open spec fn reloaded_state(s: SupervisorState, a: ReloadAttempt) -> SupervisorState {
    match a {
        ReloadAttempt::Ready { binding_count, managed_menu_count, now_unix_ms } => SupervisorState {
            generation: (s.generation + 1) as u64,
            binding_count: binding_count,
            managed_menu_count: managed_menu_count,
            loaded_at_unix_ms: now_unix_ms,
            last_reload_error: None,
            ..s
        },
        _ => s,
    }
}

fn rollback_text(error: &String, restore_error: &Option<String>) -> (r: String)
    ensures
        r@ == rollback_message(error@, opt_text(*restore_error)),
{
    let mut v: Vec<char> = Vec::new();
    push_str(&mut v, "candidate worker failed readiness: ");
    push_str(&mut v, error.as_str());
    match restore_error {
        None => push_str(&mut v, "; previous generation restored"),
        Some(r) => {
            push_str(&mut v, "; previous generation also failed to restore: ");
            push_str(&mut v, r.as_str());
        },
    }
    string_of(&v)
}

fn prefixed(prefix: &str, text: &str) -> (r: String)
    ensures
        r@ == prefix@ + text@,
{
    let mut v: Vec<char> = Vec::new();
    push_str(&mut v, prefix);
    push_str(&mut v, text);
    string_of(&v)
}

/// Applies a reload attempt to the supervisor's state and answers it.
pub fn apply_reload(state: &mut SupervisorState, attempt: ReloadAttempt) -> (r: ControlReply)
    requires
        old(state).generation < u64::MAX,
    ensures
        final(state).last_reload_error.is_some() == reload_error(attempt).is_some(),
        reload_error(attempt) matches Some(e) ==> final(state).last_reload_error matches Some(t) && t@ == e
            && final(state).generation == old(state).generation
            && final(state).binding_count == old(state).binding_count
            && final(state).managed_menu_count == old(state).managed_menu_count
            && final(state).loaded_at_unix_ms == old(state).loaded_at_unix_ms,
        reload_error(attempt) is None ==> *final(state) == reloaded_state(*old(state), attempt),
        final(state).backend == old(state).backend,
        final(state).started_at_unix_ms == old(state).started_at_unix_ms,
        final(state).config_sources == old(state).config_sources,
        final(state).shadow == old(state).shadow,
        final(state).grab == old(state).grab,
        (r.ok, r.message@) == reload_reply(*old(state), attempt),
{
    match attempt {
        ReloadAttempt::LoadFailed(error) | ReloadAttempt::Invalid(error) => {
            let message = prefixed("reload rejected: ", error.as_str());
            state.last_reload_error = Some(error);
            ControlReply { ok: false, message }
        },
        ReloadAttempt::ReadinessFailed { error, restore_error } => {
            let why = rollback_text(&error, &restore_error);
            let message = prefixed("reload rolled back: ", why.as_str());
            state.last_reload_error = Some(why);
            ControlReply { ok: false, message }
        },
        ReloadAttempt::Ready { binding_count, managed_menu_count, now_unix_ms } => {
            state.generation = state.generation + 1;
            state.binding_count = binding_count;
            state.managed_menu_count = managed_menu_count;
            state.loaded_at_unix_ms = now_unix_ms;
            state.last_reload_error = None;
            let mut v: Vec<char> = Vec::new();
            push_str(&mut v, "reloaded generation ");
            push_decimal(&mut v, state.generation as u128);
            push_str(&mut v, " with ");
            push_decimal(&mut v, binding_count as u128);
            push_str(&mut v, " bindings");
            ControlReply { ok: true, message: string_of(&v) }
        },
    }
}

/// A reload attempt that succeeds moves exactly one generation forward; one
/// that fails leaves the generation where it was.
pub proof fn reload_generation_law(s: SupervisorState, a: ReloadAttempt)
    requires
        s.generation < u64::MAX,
    ensures
        reload_error(a) is None ==> reloaded_state(s, a).generation == s.generation + 1,
        reload_error(a) is Some ==> reloaded_state(s, a).generation == s.generation,
{
}

// == The supervisor's loop ==

/// How the input worker ended.
#[derive(Debug, Clone, PartialEq, Eq)]
pub enum WorkerEnd {
    /// It returned without an error.
    Finished,
    /// It returned this error.
    Failed(String),
    /// Its task was cancelled.
    Cancelled,
    /// Joining its task failed with this error.
    JoinFailed(String),
}

/// Something that the supervisor's loop waits for.
#[derive(Debug, Clone, PartialEq, Eq)]
pub enum SupervisorEvent {
    WorkerEnded(WorkerEnd),
    /// A client connected to the control socket.
    ControlConnection,
    /// SIGHUP.
    Hangup,
    /// SIGTERM.
    Terminate,
    /// SIGINT.
    Interrupt,
    /// The watch interval passed; `changed` tells whether the configuration
    /// files look different from when they were last read.
    WatchTick { changed: bool },
}

/// What the supervisor does about an event.
#[derive(Debug, Clone, PartialEq, Eq)]
pub enum SupervisorAction {
    /// Stop with this error.
    Fail(String),
    /// Read and answer the control request.
    ServeControl,
    /// Reload the configuration, then take a new look at the files.
    Reload,
    /// Stop the worker and end.
    Shutdown,
    /// Take the new look at the files as the current one, and reload.
    ReloadChanged,
    Continue,
}

/// The message of the worker's end; the supervisor never expects it to end.
pub open spec fn worker_end_message(e: WorkerEnd) -> Seq<char> {
    match e {
        WorkerEnd::Finished => "input worker ended unexpectedly"@,
        WorkerEnd::Failed(m) => "input worker failed: "@ + m@,
        WorkerEnd::Cancelled => "input worker was cancelled unexpectedly"@,
        WorkerEnd::JoinFailed(m) => "input worker join failed: "@ + m@,
    }
}

/// Abstract value of an action.
pub enum SupervisorPlan {
    Fail(Seq<char>),
    ServeControl,
    Reload,
    Shutdown,
    ReloadChanged,
    Continue,
}

/// The abstract value of an action.
pub open spec fn action_plan(a: SupervisorAction) -> SupervisorPlan {
    match a {
        SupervisorAction::Fail(m) => SupervisorPlan::Fail(m@),
        SupervisorAction::ServeControl => SupervisorPlan::ServeControl,
        SupervisorAction::Reload => SupervisorPlan::Reload,
        SupervisorAction::Shutdown => SupervisorPlan::Shutdown,
        SupervisorAction::ReloadChanged => SupervisorPlan::ReloadChanged,
        SupervisorAction::Continue => SupervisorPlan::Continue,
    }
}

/// What the supervisor does about an event: the worker ending is an error;
/// a connection is served; SIGHUP reloads; SIGTERM and SIGINT shut down; a
/// watch tick (when watching) reloads if the files changed.
pub open spec fn supervisor_step(event: SupervisorEvent, watch: bool) -> SupervisorPlan {
    match event {
        SupervisorEvent::WorkerEnded(e) => SupervisorPlan::Fail(worker_end_message(e)),
        SupervisorEvent::ControlConnection => SupervisorPlan::ServeControl,
        SupervisorEvent::Hangup => SupervisorPlan::Reload,
        SupervisorEvent::Terminate => SupervisorPlan::Shutdown,
        SupervisorEvent::Interrupt => SupervisorPlan::Shutdown,
        SupervisorEvent::WatchTick { changed } => if watch && changed {
            SupervisorPlan::ReloadChanged
        } else {
            SupervisorPlan::Continue
        },
    }
}

/// What the supervisor does about an event.
pub fn supervise(event: SupervisorEvent, watch: bool) -> (r: SupervisorAction)
    ensures
        action_plan(r) == supervisor_step(event, watch),
{
    match event {
        SupervisorEvent::WorkerEnded(end) => {
            let message = match end {
                WorkerEnd::Finished => owned("input worker ended unexpectedly"),
                WorkerEnd::Failed(m) => prefixed("input worker failed: ", m.as_str()),
                WorkerEnd::Cancelled => owned("input worker was cancelled unexpectedly"),
                WorkerEnd::JoinFailed(m) => prefixed("input worker join failed: ", m.as_str()),
            };
            SupervisorAction::Fail(message)
        },
        SupervisorEvent::ControlConnection => SupervisorAction::ServeControl,
        SupervisorEvent::Hangup => SupervisorAction::Reload,
        SupervisorEvent::Terminate => SupervisorAction::Shutdown,
        SupervisorEvent::Interrupt => SupervisorAction::Shutdown,
        SupervisorEvent::WatchTick { changed } => if watch && changed {
            SupervisorAction::ReloadChanged
        } else {
            SupervisorAction::Continue
        },
    }
}

/// How waiting for the input worker to get ready ended.
#[derive(Debug, PartialEq, Eq)]
pub enum ReadyWait {
    /// The worker reported this result.
    Reported(Result<(), String>),
    /// The worker went away without reporting.
    Closed,
    /// Five seconds passed without a report.
    TimedOut,
}

/// Whether the worker got ready, and why not.
pub open spec fn readiness(w: ReadyWait) -> Result<(), Seq<char>> {
    match w {
        ReadyWait::Reported(Ok(())) => Ok(()),
        ReadyWait::Reported(Err(e)) => Err(e@),
        ReadyWait::Closed => Err("input worker exited before reporting readiness"@),
        ReadyWait::TimedOut => Err("timed out waiting for input worker readiness"@),
    }
}

/// Whether the worker got ready, and why not.
pub fn worker_readiness(wait: ReadyWait) -> (r: Result<(), String>)
    ensures
        match r {
            Ok(()) => readiness(wait) == Ok::<(), Seq<char>>(()),
            Err(e) => readiness(wait) == Err::<(), Seq<char>>(e@),
        },
{
    match wait {
        ReadyWait::Reported(result) => result,
        ReadyWait::Closed => Err(owned("input worker exited before reporting readiness")),
        ReadyWait::TimedOut => Err(owned("timed out waiting for input worker readiness")),
    }
}

/// Milliseconds between checks of the configuration files: as asked, but
/// at least 100.
pub fn watch_interval_ms(asked: u64) -> (r: u64)
    ensures
        r == if asked < 100 { 100 } else { asked },
{
    if asked < 100 {
        100
    } else {
        asked
    }
}

// == Control requests ==

/// How the supervisor handles a control request.
#[derive(Debug, Clone, PartialEq, Eq)]
pub enum ControlHandling {
    /// Answer with this reply, then stop when `shutdown` holds.
    Reply { reply: ControlReply, shutdown: bool },
    /// Reload the configuration and answer with the reload's reply.
    Reload,
}

/// How a control request is handled: ping, status and shutdown are
/// answered at once (shutdown then stops the supervisor); a menu request is
/// answered with the outcome of the menu action (`menu_outcome`, its
/// printed outcome or error); a reload request reloads.
pub open spec fn control_handling(request: ControlRequest, menu_outcome: Result<String, String>) -> Option<
    (bool, Seq<char>, bool),
> {
    match request {
        ControlRequest::Ping => Some((true, "pong"@, false)),
        ControlRequest::Status => Some((true, "status"@, false)),
        ControlRequest::Shutdown => Some((true, "shutdown requested"@, true)),
        ControlRequest::Menu { .. } => match menu_outcome {
            Ok(o) => Some((true, o@, false)),
            Err(e) => Some((false, e@, false)),
        },
        ControlRequest::Reload => None,
    }
}

/// How a control request is handled.
pub fn handle_control_request(request: &ControlRequest, menu_outcome: Result<String, String>) -> (r: ControlHandling)
    ensures
        match r {
            ControlHandling::Reply { reply, shutdown } => control_handling(*request, menu_outcome) == Some(
                (reply.ok, reply.message@, shutdown),
            ),
            ControlHandling::Reload => control_handling(*request, menu_outcome) is None,
        },
{
    match request {
        ControlRequest::Ping => ControlHandling::Reply {
            reply: ControlReply { ok: true, message: owned("pong") },
            shutdown: false,
        },
        ControlRequest::Status => ControlHandling::Reply {
            reply: ControlReply { ok: true, message: owned("status") },
            shutdown: false,
        },
        ControlRequest::Shutdown => ControlHandling::Reply {
            reply: ControlReply { ok: true, message: owned("shutdown requested") },
            shutdown: true,
        },
        ControlRequest::Menu { .. } => match menu_outcome {
            Ok(o) => ControlHandling::Reply { reply: ControlReply { ok: true, message: o }, shutdown: false },
            Err(e) => ControlHandling::Reply { reply: ControlReply { ok: false, message: e }, shutdown: false },
        },
        ControlRequest::Reload => ControlHandling::Reload,
    }
}

} // verus!
