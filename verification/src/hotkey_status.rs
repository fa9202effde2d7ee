//! The status the hotkey daemon reports over its control socket, and the
//! lines a client prints for it.

use vstd::prelude::*;
use crate::hotkeys::{BackendArg, ControlRequest};
use crate::names::views;
use crate::supervisor::{backend_name, SupervisorState};
use crate::text::{decimal, join_strings, join_with, push_decimal, push_str, string_of};

verus! {

/// A managed menu process as the menu manager knows it.
#[derive(Debug, Clone, PartialEq, Eq)]
pub struct ManagedMenuStatus {
    pub name: String,
    pub pid: Option<u32>,
    pub running: bool,
}

/// What the daemon reports of itself.
#[derive(Debug, Clone, PartialEq, Eq)]
pub struct HotkeyRuntimeStatus {
    pub pid: u32,
    pub backend: String,
    pub generation: u64,
    pub binding_count: usize,
    pub managed_menu_count: usize,
    pub shadow: bool,
    pub grab: bool,
    pub started_at_unix_ms: u128,
    pub loaded_at_unix_ms: u128,
    pub config_sources: Vec<String>,
    pub last_reload_error: Option<String>,
    pub menus: Vec<ManagedMenuStatus>,
}

/// The lowercase name of a backend.
pub open spec fn backend_label(b: BackendArg) -> Seq<char> {
    match b {
        BackendArg::X11 => "x11"@,
        BackendArg::Evdev => "evdev"@,
    }
}

/// The status of the running daemon: the supervisor's state, the process
/// id and the managed menus.
pub fn runtime_status(state: &SupervisorState, pid: u32, menus: Vec<ManagedMenuStatus>) -> (r: HotkeyRuntimeStatus)
    ensures
        r.pid == pid,
        r.backend@ == backend_label(state.backend),
        r.generation == state.generation,
        r.binding_count == state.binding_count,
        r.managed_menu_count == state.managed_menu_count,
        r.shadow == state.shadow,
        r.grab == state.grab,
        r.started_at_unix_ms == state.started_at_unix_ms,
        r.loaded_at_unix_ms == state.loaded_at_unix_ms,
        r.config_sources@ == state.config_sources@,
        r.last_reload_error == state.last_reload_error,
        r.menus == menus,
{
    let mut backend: Vec<char> = Vec::new();
    push_str(&mut backend, backend_name(state.backend));
    HotkeyRuntimeStatus {
        pid,
        backend: string_of(&backend),
        generation: state.generation,
        binding_count: state.binding_count,
        managed_menu_count: state.managed_menu_count,
        shadow: state.shadow,
        grab: state.grab,
        started_at_unix_ms: state.started_at_unix_ms,
        loaded_at_unix_ms: state.loaded_at_unix_ms,
        config_sources: crate::tray_tree::clone_strings(&state.config_sources),
        last_reload_error: state.last_reload_error.clone(),
        menus,
    }
}

// == Printed lines ==

/// How a flag prints.
pub open spec fn flag_text(b: bool) -> Seq<char> {
    if b { "true"@ } else { "false"@ }
}

/// The line of a managed menu: running with its process id, or hidden.
pub open spec fn menu_line(m: ManagedMenuStatus) -> Seq<char> {
    match m.pid {
        Some(pid) if m.running => "menu "@ + m.name@ + ": running pid="@ + decimal(pid as nat),
        _ => "menu "@ + m.name@ + ": hidden"@,
    }
}

/// The lines of the managed menus, in order.
pub open spec fn menu_lines(menus: Seq<ManagedMenuStatus>) -> Seq<Seq<char>> {
    menus.map_values(|m: ManagedMenuStatus| menu_line(m))
}

/// The first line of the status.
pub open spec fn status_head(s: HotkeyRuntimeStatus) -> Seq<char> {
    "hotkeyd: running pid="@ + decimal(s.pid as nat) + " backend="@ + s.backend@ + " generation="@
        + decimal(s.generation as nat) + " bindings="@ + decimal(s.binding_count as nat) + " managed_menus="@
        + decimal(s.managed_menu_count as nat) + " shadow="@ + flag_text(s.shadow) + " grab="@ + flag_text(s.grab)
}

/// What a client prints for the daemon's status: the head line; the
/// configuration sources, when there are any; the last reload error, when
/// there is one; then one line per managed menu.
pub open spec fn human_status(s: HotkeyRuntimeStatus) -> Seq<Seq<char>> {
    seq![status_head(s)] + source_lines(s.config_sources@) + error_lines(s.last_reload_error) + menu_lines(s.menus@)
}

/// The sources line, when there are configuration sources.
pub open spec fn source_lines(sources: Seq<String>) -> Seq<Seq<char>> {
    if sources.len() > 0 {
        seq!["sources: "@ + join_with(views(sources), ", "@)]
    } else {
        Seq::empty()
    }
}

/// The reload error line, when there is an error.
pub open spec fn error_lines(e: Option<String>) -> Seq<Seq<char>> {
    match e {
        Some(e) => seq!["last reload error: "@ + e@],
        None => Seq::empty(),
    }
}

/// What a client prints when no daemon answers: whether a process record
/// names one, then one line per managed menu.
pub open spec fn fallback_status(pid: Option<u32>, menus: Seq<ManagedMenuStatus>) -> Seq<Seq<char>> {
    seq![match pid {
        Some(p) => "hotkeyd: process record present pid="@ + decimal(p as nat) + "; control socket unavailable"@,
        None => "hotkeyd: stopped"@,
    }] + menu_lines(menus)
}

fn push_flag(v: &mut Vec<char>, b: bool)
    ensures
        final(v)@ == old(v)@ + flag_text(b),
{
    if b {
        push_str(v, "true");
    } else {
        push_str(v, "false");
    }
}

fn menu_status_line(m: &ManagedMenuStatus) -> (r: String)
    ensures
        r@ == menu_line(*m),
{
    let mut v: Vec<char> = Vec::new();
    push_str(&mut v, "menu ");
    push_str(&mut v, m.name.as_str());
    match m.pid {
        Some(pid) => {
            if m.running {
                push_str(&mut v, ": running pid=");
                push_decimal(&mut v, pid as u128);
                return string_of(&v);
            }
        },
        None => {},
    }
    push_str(&mut v, ": hidden");
    string_of(&v)
}

fn push_menu_lines(out: &mut Vec<String>, menus: &Vec<ManagedMenuStatus>)
    ensures
        views(final(out)@) == views(old(out)@) + menu_lines(menus@),
{
    let ghost start = views(out@);
    let mut i: usize = 0;
    while i < menus.len()
        invariant
            i <= menus@.len(),
            views(out@) == start + menu_lines(menus@.subrange(0, i as int)),
        decreases menus@.len() - i,
    {
        let ghost before = views(out@);
        out.push(menu_status_line(&menus[i]));
        assert(menu_lines(menus@.subrange(0, i + 1)) =~= menu_lines(menus@.subrange(0, i as int)).push(menu_line(menus@[i as int])));
        assert(views(out@) =~= before.push(menu_line(menus@[i as int])));
        i = i + 1;
    }
    assert(menus@.subrange(0, menus@.len() as int) =~= menus@);
}

/// The lines a client prints for the daemon's status.
pub fn human_status_lines(s: &HotkeyRuntimeStatus) -> (r: Vec<String>)
    ensures
        views(r@) == human_status(*s),
{
    let mut head: Vec<char> = Vec::new();
    push_str(&mut head, "hotkeyd: running pid=");
    push_decimal(&mut head, s.pid as u128);
    push_str(&mut head, " backend=");
    push_str(&mut head, s.backend.as_str());
    push_str(&mut head, " generation=");
    push_decimal(&mut head, s.generation as u128);
    push_str(&mut head, " bindings=");
    push_decimal(&mut head, s.binding_count as u128);
    push_str(&mut head, " managed_menus=");
    push_decimal(&mut head, s.managed_menu_count as u128);
    push_str(&mut head, " shadow=");
    push_flag(&mut head, s.shadow);
    push_str(&mut head, " grab=");
    push_flag(&mut head, s.grab);
    let mut out: Vec<String> = Vec::new();
    out.push(string_of(&head));
    let ghost after_head = views(out@);
    if s.config_sources.len() > 0 {
        let mut line: Vec<char> = Vec::new();
        push_str(&mut line, "sources: ");
        let joined = join_strings(&s.config_sources, ", ");
        push_str(&mut line, joined.as_str());
        out.push(string_of(&line));
    }
    let ghost after_sources = views(out@);
    match &s.last_reload_error {
        Some(e) => {
            let mut line: Vec<char> = Vec::new();
            push_str(&mut line, "last reload error: ");
            push_str(&mut line, e.as_str());
            out.push(string_of(&line));
        },
        None => {},
    }
    let ghost after_error = views(out@);
    push_menu_lines(&mut out, &s.menus);
    proof {
        let h = seq![status_head(*s)];
        assert(after_head =~= h);
        assert(after_sources =~= h + source_lines(s.config_sources@));
        assert(after_error =~= h + source_lines(s.config_sources@) + error_lines(s.last_reload_error));
    }
    out
}

/// The lines a client prints when no daemon answers.
pub fn fallback_status_lines(pid: Option<u32>, menus: &Vec<ManagedMenuStatus>) -> (r: Vec<String>)
    ensures
        views(r@) == fallback_status(pid, menus@),
{
    let mut head: Vec<char> = Vec::new();
    match pid {
        Some(p) => {
            push_str(&mut head, "hotkeyd: process record present pid=");
            push_decimal(&mut head, p as u128);
            push_str(&mut head, "; control socket unavailable");
        },
        None => push_str(&mut head, "hotkeyd: stopped"),
    }
    let mut out: Vec<String> = Vec::new();
    out.push(string_of(&head));
    let ghost first = views(out@);
    push_menu_lines(&mut out, menus);
    assert(first =~= seq![match pid {
        Some(p) => "hotkeyd: process record present pid="@ + decimal(p as nat) + "; control socket unavailable"@,
        None => "hotkeyd: stopped"@,
    }]);
    out
}

// == The control protocol ==

/// A response of the daemon to a control request.
#[derive(Debug, Clone, PartialEq, Eq)]
pub struct ControlResponse {
    pub ok: bool,
    pub message: String,
    pub status: Option<HotkeyRuntimeStatus>,
}

/// What a client prints for a response: the message, then the status when
/// the response carries one.
pub open spec fn response_lines(r: ControlResponse) -> Seq<Seq<char>> {
    seq![r.message@] + match r.status {
        Some(s) => human_status(s),
        None => Seq::empty(),
    }
}

/// The lines a client prints for a response.
pub fn control_response_lines(r: &ControlResponse) -> (out: Vec<String>)
    ensures
        views(out@) == response_lines(*r),
{
    let mut out: Vec<String> = Vec::new();
    out.push(r.message.clone());
    match &r.status {
        Some(s) => {
            let mut rest = human_status_lines(s);
            let ghost head = views(out@);
            let ghost tail = views(rest@);
            out.append(&mut rest);
            assert(views(out@) =~= head + tail);
        },
        None => {},
    }
    assert(views(out@) =~= response_lines(*r));
    out
}

/// How reading one request line from a client went.
#[derive(Debug, Clone, PartialEq, Eq)]
pub enum RequestRead {
    /// No line came within the time allowed.
    TimedOut,
    /// Reading failed with this error.
    Failed(String),
    /// This many bytes were read, making up this line.
    Read { bytes: usize, line: String },
}

pub const MAX_CONTROL_REQUEST_BYTES: usize = 65536;

/// The request text a read gives, or why it gives none: a timeout, a read
/// error, an empty read and a line over 64 KiB are refused; otherwise the
/// line without surrounding whitespace is the request.
pub open spec fn request_text(read: RequestRead) -> Result<Seq<char>, Seq<char>> {
    match read {
        RequestRead::TimedOut => Err("timed out reading control request"@),
        RequestRead::Failed(e) => Err("failed to read control request: "@ + e@),
        RequestRead::Read { bytes, line } => if bytes == 0 {
            Err("empty control request"@)
        } else if bytes > MAX_CONTROL_REQUEST_BYTES {
            Err("control request exceeds 64 KiB"@)
        } else {
            Ok(crate::text::trim(line@))
        },
    }
}

/// The request text a read gives, or why it gives none.
pub fn control_request_text(read: RequestRead) -> (r: Result<String, String>)
    ensures
        match r {
            Ok(t) => request_text(read) == Ok::<Seq<char>, Seq<char>>(t@),
            Err(e) => request_text(read) == Err::<Seq<char>, Seq<char>>(e@),
        },
{
    match read {
        RequestRead::TimedOut => Err(crate::text::owned("timed out reading control request")),
        RequestRead::Failed(e) => {
            let mut v: Vec<char> = Vec::new();
            push_str(&mut v, "failed to read control request: ");
            push_str(&mut v, e.as_str());
            Err(string_of(&v))
        },
        RequestRead::Read { bytes, line } => {
            if bytes == 0 {
                Err(crate::text::owned("empty control request"))
            } else if bytes > MAX_CONTROL_REQUEST_BYTES {
                Err(crate::text::owned("control request exceeds 64 KiB"))
            } else {
                let t = crate::text::trimmed(line.as_str());
                Ok(string_of(&t))
            }
        },
    }
}

/// What a client does once the daemon was asked.
#[derive(Debug, Clone, PartialEq, Eq)]
pub enum ClientOutcome {
    /// Print the response; exit with failure when it is not ok.
    PrintResponse { fail: bool },
    /// The daemon did not answer a status request: print the fallback
    /// status from the process records.
    PrintFallbackStatus,
    /// The daemon did not answer a menu request: run the menu action here.
    RunMenuLocally(String),
    /// The daemon did not answer: fail with this error.
    Fail(String),
}

/// What a client does given the daemon's answer (whether the response is
/// ok) or the error of asking: a response is printed, and fails the client
/// when not ok; without a response, a status request falls back to the
/// process records, a menu request runs the action in the client, and any
/// other request fails with the error.
pub fn client_outcome(request: ControlRequest, answer: Result<bool, String>) -> (r: ClientOutcome)
    ensures
        match answer {
            Ok(ok) => r == (ClientOutcome::PrintResponse { fail: !ok }),
            Err(e) => match request {
                ControlRequest::Status => r == ClientOutcome::PrintFallbackStatus,
                ControlRequest::Menu { action } => r == ClientOutcome::RunMenuLocally(action),
                _ => r == ClientOutcome::Fail(e),
            },
        },
{
    match answer {
        Ok(ok) => ClientOutcome::PrintResponse { fail: !ok },
        Err(e) => match request {
            ControlRequest::Status => ClientOutcome::PrintFallbackStatus,
            ControlRequest::Menu { action } => ClientOutcome::RunMenuLocally(action),
            _ => ClientOutcome::Fail(e),
        },
    }
}

} // verus!
