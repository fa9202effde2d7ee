use unilii::hotkeys::{BackendArg, ControlRequest};
use unilii::supervisor::{
    apply_reload, backend_name, handle_control_request, supervise, watch_interval_ms, worker_readiness,
    ControlHandling, ControlReply, ReadyWait, ReloadAttempt, SupervisorAction, SupervisorEvent, SupervisorState,
    WorkerEnd,
};

fn state() -> SupervisorState {
    SupervisorState::new(BackendArg::Evdev, 3, 1, 1000, vec!["hotkeys.toml".to_string()], false, true)
}

#[test]
fn new_state_starts_at_generation_one() {
    let s = state();
    assert_eq!(s.generation, 1);
    assert_eq!(s.loaded_at_unix_ms, 1000);
    assert!(s.last_reload_error.is_none());
    assert_eq!(backend_name(s.backend), "evdev");
    assert_eq!(backend_name(BackendArg::X11), "x11");
}

#[test]
fn successful_reload_moves_to_the_next_generation() {
    let mut s = state();
    s.last_reload_error = Some("old".to_string());
    let reply = apply_reload(&mut s, ReloadAttempt::Ready { binding_count: 5, managed_menu_count: 2, now_unix_ms: 2000 });
    assert_eq!(reply, ControlReply { ok: true, message: "reloaded generation 2 with 5 bindings".to_string() });
    assert_eq!(s.generation, 2);
    assert_eq!(s.binding_count, 5);
    assert_eq!(s.managed_menu_count, 2);
    assert_eq!(s.loaded_at_unix_ms, 2000);
    assert!(s.last_reload_error.is_none());
}

#[test]
fn failed_reloads_keep_the_generation_and_record_why() {
    let mut s = state();
    let reply = apply_reload(&mut s, ReloadAttempt::Invalid("no bindings loaded".to_string()));
    assert_eq!(reply, ControlReply { ok: false, message: "reload rejected: no bindings loaded".to_string() });
    assert_eq!(s.generation, 1);
    assert_eq!(s.last_reload_error.as_deref(), Some("no bindings loaded"));
    let reply = apply_reload(
        &mut s,
        ReloadAttempt::ReadinessFailed { error: "timeout".to_string(), restore_error: None },
    );
    assert_eq!(
        reply.message,
        "reload rolled back: candidate worker failed readiness: timeout; previous generation restored"
    );
    let _ = apply_reload(
        &mut s,
        ReloadAttempt::ReadinessFailed { error: "a".to_string(), restore_error: Some("b".to_string()) },
    );
    assert_eq!(
        s.last_reload_error.as_deref(),
        Some("candidate worker failed readiness: a; previous generation also failed to restore: b")
    );
    assert_eq!(s.generation, 1);
    assert_eq!(s.binding_count, 3);
}

#[test]
fn loop_events_lead_to_actions() {
    assert_eq!(
        supervise(SupervisorEvent::WorkerEnded(WorkerEnd::Finished), true),
        SupervisorAction::Fail("input worker ended unexpectedly".to_string())
    );
    assert_eq!(
        supervise(SupervisorEvent::WorkerEnded(WorkerEnd::Failed("boom".to_string())), true),
        SupervisorAction::Fail("input worker failed: boom".to_string())
    );
    assert_eq!(supervise(SupervisorEvent::Hangup, false), SupervisorAction::Reload);
    assert_eq!(supervise(SupervisorEvent::Terminate, false), SupervisorAction::Shutdown);
    assert_eq!(supervise(SupervisorEvent::WatchTick { changed: true }, true), SupervisorAction::ReloadChanged);
    assert_eq!(supervise(SupervisorEvent::WatchTick { changed: true }, false), SupervisorAction::Continue);
    assert_eq!(supervise(SupervisorEvent::WatchTick { changed: false }, true), SupervisorAction::Continue);
    assert_eq!(watch_interval_ms(20), 100);
    assert_eq!(watch_interval_ms(2000), 2000);
}

#[test]
fn readiness_and_control_replies() {
    assert_eq!(worker_readiness(ReadyWait::Reported(Ok(()))), Ok(()));
    assert_eq!(
        worker_readiness(ReadyWait::TimedOut),
        Err("timed out waiting for input worker readiness".to_string())
    );
    assert_eq!(
        handle_control_request(&ControlRequest::Shutdown, Ok(String::new())),
        ControlHandling::Reply { reply: ControlReply { ok: true, message: "shutdown requested".to_string() }, shutdown: true }
    );
    assert_eq!(
        handle_control_request(&ControlRequest::Menu { action: "toggle:copyq".to_string() }, Err("busy".to_string())),
        ControlHandling::Reply { reply: ControlReply { ok: false, message: "busy".to_string() }, shutdown: false }
    );
    assert_eq!(handle_control_request(&ControlRequest::Reload, Ok(String::new())), ControlHandling::Reload);
}
