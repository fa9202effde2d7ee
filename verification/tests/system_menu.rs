use unilii::system_menu::{pending_system_action, system_command_for, PendingSystemAction, SystemCommands, SystemExtraItem};

fn commands(idle: bool) -> SystemCommands {
    SystemCommands {
        wifi_settings_command: "nm-connection-editor".to_string(),
        stats_command: " ".to_string(),
        lock_command: "loginctl lock-session".to_string(),
        suspend_command: "systemctl suspend".to_string(),
        logout_command: "i3-msg exit".to_string(),
        reboot_command: "systemctl reboot".to_string(),
        poweroff_command: "systemctl poweroff".to_string(),
        idle_disable_command: "xset s off".to_string(),
        idle_enable_command: "xset s on".to_string(),
        extra_items: vec![
            SystemExtraItem { id: "backup".to_string(), title: "Backup".to_string(), command: "restic".to_string() },
            SystemExtraItem { id: "backup".to_string(), title: "Second".to_string(), command: "other".to_string() },
        ],
        idle_sleep_enabled: idle,
    }
}

#[test]
fn builtin_entries_need_a_configured_command() {
    let c = commands(true);
    assert_eq!(
        system_command_for(&c, "lock"),
        Some(("Lock session".to_string(), "loginctl lock-session".to_string()))
    );
    assert_eq!(system_command_for(&c, "stats"), None);
    assert_eq!(system_command_for(&c, "unknown"), None);
    assert_eq!(
        system_command_for(&c, "idle-toggle"),
        Some(("Disable inactivity sleep".to_string(), "xset s off".to_string()))
    );
    assert_eq!(
        system_command_for(&commands(false), "idle-toggle"),
        Some(("Enable inactivity sleep".to_string(), "xset s on".to_string()))
    );
}

#[test]
fn pending_actions_return_to_their_section() {
    let c = commands(true);
    assert_eq!(
        pending_system_action(&c, "reboot"),
        Some(PendingSystemAction {
            id: "reboot".to_string(),
            title: "Restart computer".to_string(),
            command: "systemctl reboot".to_string(),
            return_section: "power".to_string(),
        })
    );
    assert_eq!(
        pending_system_action(&c, "extra:backup"),
        Some(PendingSystemAction {
            id: "extra:backup".to_string(),
            title: "Backup".to_string(),
            command: "restic".to_string(),
            return_section: "extra".to_string(),
        })
    );
    assert_eq!(pending_system_action(&c, "extra:missing"), None);
    assert_eq!(pending_system_action(&c, "stats"), None);
}
