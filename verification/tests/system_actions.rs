use unilii::action_runner::ActionOutcome;
use unilii::hotkeys::{CommandType, KeyBinding, KeyTrigger};
use unilii::system_actions::{
    handle_system_internal_action, menu_action_done, system_command_report, MenuRebuild, SystemEffect,
    SystemInternalAction, SystemMenuRuntime, SystemStep,
};
use unilii::system_menu::{PendingSystemAction, SystemCommands, SystemExtraItem};

fn commands() -> SystemCommands {
    SystemCommands {
        wifi_settings_command: "nm-connection-editor".to_string(),
        stats_command: "".to_string(),
        lock_command: "loginctl lock-session".to_string(),
        suspend_command: "systemctl suspend".to_string(),
        logout_command: "i3-msg exit".to_string(),
        reboot_command: "systemctl reboot".to_string(),
        poweroff_command: "systemctl poweroff".to_string(),
        idle_disable_command: "xset s off".to_string(),
        idle_enable_command: "xset s on".to_string(),
        extra_items: vec![SystemExtraItem { id: "backup".to_string(), title: "Backup".to_string(), command: "restic".to_string() }],
        idle_sleep_enabled: true,
    }
}

fn binding(name: &str, command_type: CommandType, command: &str) -> KeyBinding {
    KeyBinding {
        name: name.to_string(),
        keysym: "Super+x".to_string(),
        command: command.to_string(),
        command_type,
        release: false,
        trigger: KeyTrigger::Press,
        hold_ms: None,
        cooldown_ms: None,
        priority: 1,
        consume: true,
    }
}

fn runtime() -> SystemMenuRuntime {
    SystemMenuRuntime { busy_action: None, last_status: Some("old".to_string()), pending_confirmation: None }
}

fn act(rt: &mut SystemMenuRuntime, action: SystemInternalAction) -> SystemStep {
    let presets = vec![("laptop".to_string(), "Laptop only".to_string(), "autorandr laptop".to_string())];
    let keys = vec![
        binding("term", CommandType::Shell, "alacritty"),
        binding("clip", CommandType::Menu, "toggle:copyq"),
        binding("vol", CommandType::Widget, "audio:up"),
    ];
    handle_system_internal_action(rt, action, &commands(), &presets, &keys, true, 50)
}

#[test]
fn configured_commands_run_and_mark_the_menu_busy() {
    let mut rt = runtime();
    let step = act(&mut rt, SystemInternalAction::RunConfigured("lock".to_string()));
    assert_eq!(
        step,
        SystemStep {
            effect: SystemEffect::RunShell {
                action_id: "lock".to_string(),
                title: "Lock session".to_string(),
                command: "loginctl lock-session".to_string(),
                timeout_ms: 100,
            },
            rebuild: MenuRebuild::IfOpen,
        }
    );
    assert_eq!(rt.busy_action.as_deref(), Some("Lock session"));
    assert!(rt.last_status.is_none());
    let mut rt = runtime();
    let step = act(&mut rt, SystemInternalAction::RunConfigured("stats".to_string()));
    assert_eq!(step.effect, SystemEffect::Nothing);
    assert_eq!(rt.last_status.as_deref(), Some("No command configured for stats"));
}

#[test]
fn confirmation_executes_or_cancels() {
    let mut rt = runtime();
    let step = act(&mut rt, SystemInternalAction::Confirm("reboot".to_string()));
    assert_eq!(step.rebuild, MenuRebuild::Path(Vec::new()));
    assert_eq!(
        rt.pending_confirmation,
        Some(PendingSystemAction {
            id: "reboot".to_string(),
            title: "Restart computer".to_string(),
            command: "systemctl reboot".to_string(),
            return_section: "power".to_string(),
        })
    );
    let mut executed = rt.clone();
    let step = act(&mut executed, SystemInternalAction::ConfirmExecute);
    assert!(matches!(step.effect, SystemEffect::RunShell { ref command, .. } if command == "systemctl reboot"));
    assert!(executed.pending_confirmation.is_none());
    let step = act(&mut rt, SystemInternalAction::ConfirmCancel);
    assert_eq!(step.rebuild, MenuRebuild::Path(vec!["power".to_string()]));
    assert_eq!(rt.last_status.as_deref(), Some("Action cancelled"));
    let mut idle = runtime();
    assert_eq!(act(&mut idle, SystemInternalAction::ConfirmExecute).rebuild, MenuRebuild::Keep);
}

#[test]
fn wifi_display_extra_and_shortcut_actions() {
    let mut rt = runtime();
    assert_eq!(act(&mut rt, SystemInternalAction::ToggleWifi).effect, SystemEffect::SetWifi { enabled: false });
    assert_eq!(rt.busy_action.as_deref(), Some("Disable Wi-Fi"));
    assert_eq!(
        act(&mut rt, SystemInternalAction::RefreshWifi).effect,
        SystemEffect::OpenNetworkView { force_scan: true }
    );
    let step = act(&mut rt, SystemInternalAction::ApplyDisplayPreset("laptop".to_string()));
    assert!(matches!(step.effect, SystemEffect::RunShell { ref action_id, .. } if action_id == "display-preset:laptop"));
    act(&mut rt, SystemInternalAction::ApplyDisplayPreset("tv".to_string()));
    assert_eq!(rt.last_status.as_deref(), Some("Unknown display preset: tv"));
    let step = act(&mut rt, SystemInternalAction::Extra("backup".to_string()));
    assert!(matches!(step.effect, SystemEffect::RunShell { ref action_id, ref title, .. } if action_id == "extra:backup" && title == "Backup"));
    act(&mut rt, SystemInternalAction::Extra("x".to_string()));
    assert_eq!(rt.last_status.as_deref(), Some("Unknown extra action: x"));
    assert_eq!(
        act(&mut rt, SystemInternalAction::Shortcut(1)).effect,
        SystemEffect::RunMenuAction { name: "clip".to_string(), command: "toggle:copyq".to_string() }
    );
    act(&mut rt, SystemInternalAction::Shortcut(2));
    assert_eq!(rt.last_status.as_deref(), Some("vol: widget actions are not available"));
    act(&mut rt, SystemInternalAction::Shortcut(9));
    assert_eq!(rt.last_status.as_deref(), Some("Shortcut index 9 no longer exists"));
    assert_eq!(menu_action_done(&mut rt, "clip", Err("busy".to_string())), MenuRebuild::IfOpen);
    assert_eq!(rt.last_status.as_deref(), Some("clip failed: busy"));
}

#[test]
fn finished_commands_report_output_or_errors() {
    let outcome = |result: Result<(), String>, stdout: &str, stderr: &str| ActionOutcome {
        menu: "system-menu".to_string(),
        action: "lock".to_string(),
        duration_ms: 1,
        exit_code: None,
        error_class: None,
        stdout: stdout.to_string(),
        stderr: stderr.to_string(),
        stdout_truncated: false,
        stderr_truncated: false,
        stdout_bytes: 0,
        stderr_bytes: 0,
        result,
    };
    assert_eq!(system_command_report("Lock", outcome(Ok(()), " \n", "")), Ok("Lock completed".to_string()));
    assert_eq!(system_command_report("Lock", outcome(Ok(()), " locked\n", "")), Ok("Lock: locked".to_string()));
    assert_eq!(
        system_command_report("Lock", outcome(Err("exit 1".to_string()), "", " denied ")),
        Err("denied".to_string())
    );
    assert_eq!(system_command_report("Lock", outcome(Err("exit 1".to_string()), "", "")), Err("exit 1".to_string()));
}
