use unilii::menu_icons::{is_calendar_icon, is_custom_menu_icon, is_mount_icon, CustomMenuMatch};
use unilii::tray_core::TrayIcon;

fn icon(id: &str, title: &str, icon_name: Option<&str>) -> TrayIcon {
    TrayIcon {
        key: id.to_string(),
        service: "svc".to_string(),
        path: "/".to_string(),
        id: id.to_string(),
        title: title.to_string(),
        icon_name: icon_name.map(str::to_string),
        status: "Active".to_string(),
        has_menu: true,
        menu_object_path: None,
    }
}

#[test]
fn storage_and_calendar_icons_are_recognised() {
    assert!(is_mount_icon(&icon("udiskie", "USB Stick", None)));
    assert!(is_mount_icon(&icon("x", "y", Some("Drive-Removable"))));
    assert!(!is_mount_icon(&icon("nm-applet", "Network", Some("network-wireless"))));
    assert!(is_calendar_icon(&icon("org.gnome.Calendar", "", None)));
    assert!(is_calendar_icon(&icon("x", "Update", None)));
    assert!(!is_calendar_icon(&icon("x", "y", Some("z"))));
}

#[test]
fn custom_menus_match_ids_and_patterns() {
    let config = CustomMenuMatch {
        enabled: true,
        has_items: true,
        app_ids: vec!["MyApp".to_string()],
        icon_name_patterns: vec!["VPN".to_string()],
    };
    assert!(is_custom_menu_icon(&icon("myapp", "t", None), &config));
    assert!(is_custom_menu_icon(&icon("other", "t", Some("network-vpn-active")), &config));
    assert!(!is_custom_menu_icon(&icon("other", "t", Some("network")), &config));
    assert!(!is_custom_menu_icon(&icon("myapp", "t", None), &CustomMenuMatch { has_items: false, ..config.clone() }));
    assert!(!is_custom_menu_icon(&icon("myapp", "t", None), &CustomMenuMatch { enabled: false, ..config }));
}
