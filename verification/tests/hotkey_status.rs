use unilii::hotkey_status::{
    client_outcome, control_request_text, control_response_lines, fallback_status_lines, human_status_lines, runtime_status,
    ClientOutcome, RequestRead, ControlResponse, ManagedMenuStatus,
};
use unilii::hotkeys::ControlRequest;
use unilii::hotkeys::BackendArg;
use unilii::runtime_metrics::{runtime_metric_lines, RuntimeMetricsSnapshot};
use unilii::supervisor::SupervisorState;

fn menus() -> Vec<ManagedMenuStatus> {
    vec![
        ManagedMenuStatus { name: "launcher".to_string(), pid: Some(4242), running: true },
        ManagedMenuStatus { name: "clipboard".to_string(), pid: Some(77), running: false },
        ManagedMenuStatus { name: "windows".to_string(), pid: None, running: true },
    ]
}

#[test]
fn runtime_status_reports_the_supervisor_state() {
    let mut state = SupervisorState::new(BackendArg::Evdev, 12, 3, 1000, vec!["/etc/hotkeys.toml".to_string()], false, true);
    state.last_reload_error = Some("bad chord".to_string());
    let status = runtime_status(&state, 99, menus());
    assert_eq!(status.pid, 99);
    assert_eq!(status.backend, "evdev");
    assert_eq!(status.generation, 1);
    assert_eq!(status.binding_count, 12);
    assert_eq!(status.managed_menu_count, 3);
    assert_eq!(status.config_sources, vec!["/etc/hotkeys.toml".to_string()]);
    assert_eq!(status.last_reload_error, Some("bad chord".to_string()));
    assert_eq!(status.menus, menus());
}

#[test]
fn human_status_lists_head_sources_error_and_menus() {
    let mut state = SupervisorState::new(
        BackendArg::X11,
        12,
        3,
        1000,
        vec!["/etc/hotkeys.toml".to_string(), "/home/u/.config/keys.toml".to_string()],
        true,
        false,
    );
    state.last_reload_error = Some("bad chord".to_string());
    let lines = human_status_lines(&runtime_status(&state, 99, menus()));
    assert_eq!(
        lines,
        vec![
            "hotkeyd: running pid=99 backend=x11 generation=1 bindings=12 managed_menus=3 shadow=true grab=false",
            "sources: /etc/hotkeys.toml, /home/u/.config/keys.toml",
            "last reload error: bad chord",
            "menu launcher: running pid=4242",
            "menu clipboard: hidden",
            "menu windows: hidden",
        ]
    );
}

#[test]
fn human_status_without_sources_or_error_is_the_head_and_menus() {
    let state = SupervisorState::new(BackendArg::Evdev, 0, 0, 5, Vec::new(), false, false);
    let lines = human_status_lines(&runtime_status(&state, 1, Vec::new()));
    assert_eq!(
        lines,
        vec!["hotkeyd: running pid=1 backend=evdev generation=1 bindings=0 managed_menus=0 shadow=false grab=false"]
    );
}

#[test]
fn fallback_status_reports_the_process_record() {
    assert_eq!(
        fallback_status_lines(Some(314), &menus()),
        vec![
            "hotkeyd: process record present pid=314; control socket unavailable",
            "menu launcher: running pid=4242",
            "menu clipboard: hidden",
            "menu windows: hidden",
        ]
    );
    assert_eq!(fallback_status_lines(None, &Vec::new()), vec!["hotkeyd: stopped"]);
}

#[test]
fn metrics_print_one_counter_per_line_in_order() {
    let m = RuntimeMetricsSnapshot {
        active_tasks: 2,
        tasks_started: 10,
        tasks_completed: 8,
        tasks_cancelled: 0,
        tasks_panicked: 0,
        actions_started: 5,
        actions_completed: 4,
        actions_failed: 1,
        action_timeouts: 0,
        action_duration_ms_total: 1234,
        action_duration_ms_max: 900,
        truncated_outputs: 1,
        truncated_bytes: 65536,
        provider_refreshes_started: 3,
        provider_refreshes_completed: 3,
        provider_refreshes_coalesced: 0,
        provider_refreshes_saturated: 0,
        updates_coalesced: 7,
        updates_dropped: 18446744073709551615,
    };
    let lines = runtime_metric_lines(&m);
    assert_eq!(lines.len(), 19);
    assert_eq!(lines[0], "active_tasks=2");
    assert_eq!(lines[9], "action_duration_ms_total=1234");
    assert_eq!(lines[12], "truncated_bytes=65536");
    assert_eq!(lines[18], "updates_dropped=18446744073709551615");
}

#[test]
fn control_reads_are_refused_when_late_empty_failed_or_oversized() {
    assert_eq!(control_request_text(RequestRead::TimedOut), Err("timed out reading control request".to_string()));
    assert_eq!(
        control_request_text(RequestRead::Failed("broken pipe".to_string())),
        Err("failed to read control request: broken pipe".to_string())
    );
    assert_eq!(
        control_request_text(RequestRead::Read { bytes: 0, line: String::new() }),
        Err("empty control request".to_string())
    );
    assert_eq!(
        control_request_text(RequestRead::Read { bytes: 65_537, line: "x".repeat(65_537) }),
        Err("control request exceeds 64 KiB".to_string())
    );
    assert_eq!(
        control_request_text(RequestRead::Read { bytes: 19, line: "  {\"type\":\"ping\"}\n".to_string() }),
        Ok("{\"type\":\"ping\"}".to_string())
    );
    let exactly = "y".repeat(65_536);
    assert_eq!(control_request_text(RequestRead::Read { bytes: 65_536, line: exactly.clone() }), Ok(exactly));
}

#[test]
fn responses_print_the_message_then_the_status() {
    let state = SupervisorState::new(BackendArg::Evdev, 2, 0, 5, Vec::new(), false, false);
    let response = ControlResponse {
        ok: true,
        message: "status".to_string(),
        status: Some(runtime_status(&state, 7, Vec::new())),
    };
    assert_eq!(
        control_response_lines(&response),
        vec![
            "status",
            "hotkeyd: running pid=7 backend=evdev generation=1 bindings=2 managed_menus=0 shadow=false grab=false",
        ]
    );
    let bare = ControlResponse { ok: false, message: "reload failed".to_string(), status: None };
    assert_eq!(control_response_lines(&bare), vec!["reload failed"]);
}

#[test]
fn clients_fall_back_for_status_and_menu_requests_only() {
    assert_eq!(client_outcome(ControlRequest::Ping, Ok(true)), ClientOutcome::PrintResponse { fail: false });
    assert_eq!(client_outcome(ControlRequest::Reload, Ok(false)), ClientOutcome::PrintResponse { fail: true });
    assert_eq!(client_outcome(ControlRequest::Status, Err("refused".to_string())), ClientOutcome::PrintFallbackStatus);
    assert_eq!(
        client_outcome(ControlRequest::Menu { action: "toggle:launcher".to_string() }, Err("refused".to_string())),
        ClientOutcome::RunMenuLocally("toggle:launcher".to_string())
    );
    assert_eq!(
        client_outcome(ControlRequest::Shutdown, Err("no daemon".to_string())),
        ClientOutcome::Fail("no daemon".to_string())
    );
}
