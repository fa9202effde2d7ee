use unilii::action_routing::read_action_request;
use unilii::hotkey_status::RequestRead;
use unilii::action_routing::{route_widget_action, WidgetRoute};
use unilii::action_routing::{
    route_action_bus_request, route_desktop_action, ActionBusRoute, DesktopAction, KeybindingResult,
    HOTKEYD_OWNED_ERROR,
};

#[test]
fn routes_typed_bar_tray_and_widget_actions() {
    assert!(matches!(
        route_desktop_action(DesktopAction::Bar("reload".into())),
        Ok(KeybindingResult::BarAction(command)) if command == "reload"
    ));
    assert!(matches!(
        route_desktop_action(DesktopAction::Tray("show-favorites".into())),
        Ok(KeybindingResult::TrayAction(command)) if command == "show-favorites"
    ));
    assert!(matches!(
        route_desktop_action(DesktopAction::Widget("wifi:refresh".into())),
        Ok(KeybindingResult::WidgetAction(command)) if command == "wifi:refresh"
    ));
}

#[test]
fn rejects_actions_owned_by_hotkeyd() {
    assert!(route_desktop_action(DesktopAction::Shell("true".into())).is_err());
    assert!(route_desktop_action(DesktopAction::Menu("filter-tab:toggle".into())).is_err());
    assert_eq!(route_desktop_action(DesktopAction::Shell("true".into())), Err(HOTKEYD_OWNED_ERROR.to_string()));
}

#[test]
fn runtime_metrics_is_answered_without_queueing_an_action() {
    let route = route_action_bus_request(DesktopAction::Bar("runtime-metrics".to_string())).unwrap();
    assert_eq!(route, ActionBusRoute::RespondWithMetrics);
    assert_eq!(
        route_action_bus_request(DesktopAction::Bar("diagnostics:runtime-metrics".to_string())),
        Ok(ActionBusRoute::RespondWithMetrics)
    );
    assert_eq!(
        route_action_bus_request(DesktopAction::Bar("reload".to_string())),
        Ok(ActionBusRoute::Queue(KeybindingResult::BarAction("reload".to_string())))
    );
    assert!(route_action_bus_request(DesktopAction::Menu("x".to_string())).is_err());
}

#[test]
fn widget_actions_go_to_their_widget() {
    assert_eq!(route_widget_action("wifi:refresh"), WidgetRoute::Wifi("refresh".to_string()));
    assert_eq!(route_widget_action(" Audio :toggle-mute"), WidgetRoute::Audio("toggle-mute".to_string()));
    assert_eq!(route_widget_action("display:next"), WidgetRoute::Video("next".to_string()));
    assert_eq!(route_widget_action("video:a:b"), WidgetRoute::Video("a:b".to_string()));
    assert_eq!(route_widget_action("power:menu"), WidgetRoute::Power("menu".to_string()));
    assert_eq!(route_widget_action("system:refresh"), WidgetRoute::RefreshSystemMonitor);
    assert_eq!(route_widget_action("SysMonitor:refresh"), WidgetRoute::RefreshSystemMonitor);
    assert_eq!(route_widget_action("sysmonitor:open"), WidgetRoute::UnknownTarget("sysmonitor".to_string()));
    assert_eq!(route_widget_action("Clock:open"), WidgetRoute::UnknownTarget("clock".to_string()));
    assert_eq!(route_widget_action("wifi"), WidgetRoute::Malformed);
}

#[test]
fn action_bus_reads_are_refused_when_late_empty_failed_or_oversized() {
    assert_eq!(read_action_request(RequestRead::TimedOut), Err("timed out reading action request".to_string()));
    assert_eq!(
        read_action_request(RequestRead::Failed("connection reset".to_string())),
        Err("read failed: connection reset".to_string())
    );
    assert_eq!(read_action_request(RequestRead::Read { bytes: 0, line: String::new() }), Err("empty action request".to_string()));
    assert_eq!(
        read_action_request(RequestRead::Read { bytes: 70_000, line: "a".repeat(70_000) }),
        Err("action request exceeds 64 KiB".to_string())
    );
    assert_eq!(
        read_action_request(RequestRead::Read { bytes: 12, line: " {\"v\":1}\n".to_string() }),
        Ok("{\"v\":1}".to_string())
    );
}
