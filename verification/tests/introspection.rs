use std::time::Duration;
use unilii::hotkeys::{CommandType, KeyBinding, KeyTrigger};
use unilii::introspection::{
    action, actions, active_modules, hotkeys, menus, CatalogConfig, CatalogCustomItem, CatalogModule, MenuLifecycle,
    MenuSource, ProviderContract, ProviderPolicyInfo, RefreshPolicy, ShutdownPolicy,
};
use unilii::system_menu::SystemExtraItem;

fn contract(id: &str) -> ProviderContract {
    ProviderContract {
        id: id.to_string(),
        display_name: id.to_uppercase(),
        refresh: RefreshPolicy {
            interval: Duration::from_secs(1),
            timeout: Duration::from_secs(1),
            stale_after: Duration::from_secs(3),
            refresh_on_start: true,
        },
        shutdown: ShutdownPolicy { graceful_timeout: Duration::from_millis(250) },
        test_backend: "fixture".to_string(),
    }
}

fn module(name: &str) -> CatalogModule {
    CatalogModule { name: name.to_string(), enabled: true, position: "right".to_string(), update_interval_ms: None }
}

fn key(name: &str, command_type: CommandType, trigger: KeyTrigger) -> KeyBinding {
    KeyBinding {
        name: name.to_string(),
        keysym: "Super+x".to_string(),
        command: "cmd".to_string(),
        command_type,
        release: false,
        trigger,
        hold_ms: None,
        cooldown_ms: None,
        priority: 1,
        consume: true,
    }
}

fn config() -> CatalogConfig {
    CatalogConfig {
        modules: vec![module("wifi"), module("clock"), module("sysmonitor"), module("audio")],
        keybindings: vec![key("launch", CommandType::Shell, KeyTrigger::Modrelease)],
        system_enabled: false,
        custom_enabled: true,
        calendar_account_count: 0,
        system_extra_items: vec![SystemExtraItem {
            id: "backup".to_string(),
            title: "Backup".to_string(),
            command: " ".to_string(),
        }],
        custom_items: vec![CatalogCustomItem {
            id: "vpn".to_string(),
            title: "VPN".to_string(),
            action_text: "SpawnCommand(\"vpn up\")".to_string(),
        }],
    }
}

#[test]
fn action_records_keep_their_fields() {
    let a = action("tray:show-favorites", "Show tray favorites", "tray", "show-favorites", "tray", true);
    assert_eq!(a.id, "tray:show-favorites");
    assert_eq!(a.title, "Show tray favorites");
    assert_eq!(a.kind, "tray");
    assert_eq!(a.payload, "show-favorites");
    assert_eq!(a.source, "tray");
    assert!(a.enabled);
}

#[test]
fn provider_policy_reports_durations_in_milliseconds() {
    let contract = ProviderContract {
        id: "network".to_string(),
        display_name: "Network".to_string(),
        refresh: RefreshPolicy {
            interval: Duration::from_secs(5),
            timeout: Duration::from_millis(1500),
            stale_after: Duration::from_micros(2_500_999),
            refresh_on_start: true,
        },
        shutdown: ShutdownPolicy { graceful_timeout: Duration::from_secs(2) },
        test_backend: "fixture".to_string(),
    };
    let info = ProviderPolicyInfo::from(contract);
    assert_eq!(info.id, "network");
    assert_eq!(info.display_name, "Network");
    assert_eq!(info.interval_ms, 5000);
    assert_eq!(info.timeout_ms, 1500);
    assert_eq!(info.stale_after_ms, 2500);
    assert!(info.refresh_on_start);
    assert_eq!(info.shutdown_timeout_ms, 2000);
    assert_eq!(info.test_backend, "fixture");
}

#[test]
fn catalog_uses_shared_provider_and_menu_contracts() {
    let config = config();
    let contracts = vec![contract("network"), contract("audio"), contract("system"), contract("clock")];
    let modules = active_modules(&config.modules, &contracts);
    assert!(modules.iter().any(|module| module.id == "clock"));
    let menus = menus(&config);
    assert!(menus.iter().any(|menu| menu.id == "filter-tab"));
    assert!(menus.iter().any(|menu| menu.id == "system"));
    let actions = actions(&config);
    assert!(actions.iter().any(|action| action.id == "tray:show-favorites"));
}

#[test]
fn modules_are_sorted_and_matched_to_providers() {
    let contracts = vec![contract("network"), contract("system"), contract("clock")];
    let modules = active_modules(&config().modules, &contracts);
    let ids: Vec<&str> = modules.iter().map(|m| m.id.as_str()).collect();
    assert_eq!(ids, vec!["audio", "clock", "sysmonitor", "wifi"]);
    assert!(modules[0].provider.is_none());
    assert_eq!(modules[1].provider.as_ref().map(|p| p.id.as_str()), Some("clock"));
    assert_eq!(modules[2].provider.as_ref().map(|p| p.id.as_str()), Some("system"));
    assert_eq!(modules[3].provider.as_ref().map(|p| p.id.as_str()), Some("network"));
    assert_eq!(modules[3].provider.as_ref().map(|p| p.stale_after_ms), Some(3000));
}

#[test]
fn menus_follow_configuration() {
    let menus = menus(&config());
    assert_eq!(menus.len(), 9);
    let system = menus.iter().find(|m| m.id == "system").unwrap();
    assert_eq!(system.lifecycle, MenuLifecycle::Disabled { reason: "disabled by configuration".to_string() });
    assert_eq!(system.source, MenuSource::System);
    let custom = menus.iter().find(|m| m.id == "custom").unwrap();
    assert_eq!(custom.lifecycle, MenuLifecycle::Fresh);
    let calendar = menus.iter().find(|m| m.id == "calendar").unwrap();
    assert!(matches!(calendar.lifecycle, MenuLifecycle::Disabled { .. }));
}

#[test]
fn actions_list_fixed_hotkey_extra_and_custom_entries_by_id() {
    let actions = actions(&config());
    let ids: Vec<&str> = actions.iter().map(|a| a.id.as_str()).collect();
    assert_eq!(
        ids,
        vec![
            "bar:open-system",
            "bar:runtime-metrics",
            "custom:vpn",
            "hotkey:0",
            "system:extra:backup",
            "tray:show-aggregated",
            "tray:show-favorites",
            "widget:audio-refresh",
            "widget:wifi-refresh",
        ]
    );
    assert!(!actions[0].enabled);
    assert_eq!(actions[2].payload, "SpawnCommand(\"vpn up\")");
    assert_eq!(actions[3].kind, "shell");
    assert_eq!(actions[3].title, "launch");
    assert!(!actions[4].enabled);
    assert_eq!(actions[4].payload, "system:extra:backup");
}

#[test]
fn hotkey_records_name_trigger_and_kind() {
    let list = hotkeys(&vec![
        key("a", CommandType::Menu, KeyTrigger::Press),
        key("b", CommandType::Widget, KeyTrigger::Modrelease),
    ]);
    assert_eq!(list.len(), 2);
    assert_eq!(list[1].index, 1);
    assert_eq!(list[1].trigger, "modrelease");
    assert_eq!(list[1].kind, "widget");
    assert_eq!(list[0].kind, "menu");
    assert!(list[0].enabled);
}
