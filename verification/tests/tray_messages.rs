use unilii::tray_core::{TrayIcon, TrayMenuAction};
use unilii::tray_daemon::RefreshTarget;
use unilii::tray_messages::{menu_triggered, refresh_after_command, view_survives_icons, EntryAction, SpecialViewKind, TriggerEffect};

fn icon(key: &str, id: &str) -> TrayIcon {
    TrayIcon {
        key: key.to_string(),
        service: format!("org.example.{id}"),
        path: "/StatusNotifierItem".to_string(),
        id: id.to_string(),
        title: id.to_string(),
        icon_name: None,
        status: "Active".to_string(),
        has_menu: true,
        menu_object_path: None,
    }
}

fn icons() -> Vec<TrayIcon> {
    vec![icon("k-nm", "nm-applet"), icon("k-disk", "udiskie")]
}

#[test]
fn system_menu_rows_run_their_command() {
    assert_eq!(
        menu_triggered(true, &icons(), "system", TrayMenuAction::SpawnCommand("internal:lock".to_string()), None, true),
        (TriggerEffect::SystemCommand("internal:lock".to_string()), false)
    );
    assert_eq!(menu_triggered(true, &icons(), "system", TrayMenuAction::Activate, None, true), (TriggerEffect::Nothing, false));
}

#[test]
fn dbus_rows_send_their_event_and_close() {
    assert_eq!(
        menu_triggered(
            false,
            &icons(),
            "k-nm",
            TrayMenuAction::DbusMenuAction { item_id: 7, event_id: "clicked".to_string() },
            None,
            false
        ),
        (TriggerEffect::DbusEvent { item_id: 7, event_id: "clicked".to_string() }, true)
    );
}

#[test]
fn view_commands_are_handled_by_the_bar() {
    let t = |cmd: &str, special: Option<&str>| {
        menu_triggered(false, &icons(), "k-nm", TrayMenuAction::SpawnCommand(cmd.to_string()), special, true)
    };
    assert_eq!(t("mount:refresh", None), (TriggerEffect::Refresh(RefreshTarget::Mount("k-nm".to_string())), false));
    assert_eq!(t("calendar:refresh", None), (TriggerEffect::Refresh(RefreshTarget::Calendar("k-nm".to_string())), false));
    assert_eq!(t("nmcli device wifi rescan", None), (TriggerEffect::Refresh(RefreshTarget::Network("k-nm".to_string())), false));
    assert_eq!(t("nmcli radio wifi off", None), (TriggerEffect::ToggleNetwork("k-nm".to_string()), false));
    assert_eq!(
        t("nmcli device wifi connect home", Some("nm-applet")),
        (TriggerEffect::SpawnInView { key: "k-nm".to_string(), command: "nmcli device wifi connect home".to_string() }, false)
    );
    assert_eq!(
        t("xdg-open .", Some("udiskie")),
        (TriggerEffect::Invoke { key: "k-nm".to_string(), action: EntryAction::SpawnCommand("xdg-open .".to_string()) }, true)
    );
}

#[test]
fn other_rows_ask_the_entry_and_close_an_open_popup() {
    assert_eq!(
        menu_triggered(false, &icons(), "k-disk", TrayMenuAction::ContextMenu, None, true),
        (TriggerEffect::Invoke { key: "k-disk".to_string(), action: EntryAction::ContextMenu }, true)
    );
    assert_eq!(
        menu_triggered(false, &icons(), "k-disk", TrayMenuAction::ShowFavorites, None, false),
        (TriggerEffect::Invoke { key: "k-disk".to_string(), action: EntryAction::Activate }, false)
    );
    assert_eq!(menu_triggered(false, &icons(), "gone", TrayMenuAction::Activate, None, true), (TriggerEffect::Nothing, true));
}

#[test]
fn popup_survives_while_its_entry_is_listed() {
    assert!(view_survives_icons(false, "udiskie", &icons()));
    assert!(!view_survives_icons(false, "blueman", &icons()));
    assert!(view_survives_icons(true, "system", &Vec::new()));
}

#[test]
fn finished_commands_reload_the_shown_view() {
    assert_eq!(
        refresh_after_command(true, Some(SpecialViewKind::Mount), "k".to_string()),
        Some(RefreshTarget::Mount("k".to_string()))
    );
    assert_eq!(refresh_after_command(false, Some(SpecialViewKind::Mount), "k".to_string()), None);
    assert_eq!(refresh_after_command(true, None, "k".to_string()), None);
}
