use unilii::tray_core::{NetworkSnapshot, TrayIcon, TrayMenuAction, TrayMenuItem, TrayViewState};
use unilii::tray_dbus::DbusError;
use unilii::tray_selection::{resolve_current_single_app_items, selectable_visible_indices, visible_selectable_item};
use unilii::tray_state::{
    build_default_menu_items, move_menu_selection, TrayMessage, TrayPanelState, TrayStateManager, TrayTask,
};

fn icon(id: &str, title: &str, has_menu: bool) -> TrayIcon {
    TrayIcon {
        key: id.to_string(),
        id: id.to_string(),
        service: format!("com.example.{id}"),
        path: "/StatusNotifierItem".to_string(),
        title: title.to_string(),
        icon_name: Some(format!("{id}-icon")),
        status: "Active".to_string(),
        has_menu,
        menu_object_path: if has_menu { Some("/MenuBar".to_string()) } else { None },
    }
}

fn create_test_state() -> TrayPanelState {
    let mut state = TrayPanelState::new();
    state.tree.update_app(icon("app1", "App 1", true));
    state.tree.update_app(icon("app2", "App 2", false));
    state
}

fn update(state: &mut TrayPanelState, message: TrayMessage) -> TrayTask {
    TrayStateManager::update(state, message, &vec!["nm".to_string()])
}

fn snapshot(enabled: bool) -> NetworkSnapshot {
    NetworkSnapshot {
        enabled,
        state: "connected".to_string(),
        interface: "wlan0".to_string(),
        connected_ssid: Some("home".to_string()),
        known_networks: vec![],
        networks: vec![],
    }
}

#[test]
fn test_menu_building_functions() {
    let icon = TrayIcon {
        key: "test".to_string(),
        id: "test".to_string(),
        service: "com.example.test".to_string(),
        path: "/StatusNotifierItem".to_string(),
        title: "Test App".to_string(),
        icon_name: Some("test-icon".to_string()),
        status: "Active".to_string(),
        has_menu: false,
        menu_object_path: None,
    };

    let menu_items = build_default_menu_items(&icon, false);

    assert!(!menu_items.is_empty());
    assert_eq!(menu_items[0].label, "Activate Test App");
    assert_eq!(menu_items[1].label, "Secondary action");
    assert_eq!(menu_items[0].app_id, "test");
    assert!(menu_items[0].enabled);
}

#[test]
fn network_icons_get_a_settings_entry() {
    let items = build_default_menu_items(&icon("nm", "Network", true), true);
    assert_eq!(items.len(), 3);
    assert_eq!(items[0].id, "nm_activate");
    assert_eq!(items[0].icon, Some("nm-icon".to_string()));
    assert_eq!(items[1].id, "nm_secondary");
    assert_eq!(items[1].icon, None);
    assert_eq!(items[2].id, "nm_network_settings");
    assert_eq!(items[2].label, "Open Network Settings");
    assert_eq!(items[2].full_path, "Open Network Settings");
    assert_eq!(items[2].action, TrayMenuAction::SpawnCommand("nm-connection-editor".to_string()));
    assert_eq!(build_default_menu_items(&icon("x", "X", false), false).len(), 2);
}

#[test]
fn test_navigation_messages() {
    let mut state = create_test_state();
    let nav = state.tree.get_app_navigation("app1");
    state.current_view = TrayViewState::SingleApp { app_id: "app1".to_string(), navigation: nav };

    let _ = update(&mut state, TrayMessage::NavigateRight);
    if let TrayViewState::SingleApp { app_id, navigation } = &state.current_view {
        assert_eq!(app_id, "app2");
        assert_eq!(navigation.current_app_index, 1);
        assert!(!navigation.can_go_right);
    } else {
        panic!("Expected SingleApp view");
    }

    let _ = update(&mut state, TrayMessage::NavigateRight);
    if let TrayViewState::SingleApp { app_id, .. } = &state.current_view {
        assert_eq!(app_id, "app2");
    } else {
        panic!("Expected SingleApp view");
    }

    let _ = update(&mut state, TrayMessage::NavigateLeft);
    if let TrayViewState::SingleApp { app_id, .. } = &state.current_view {
        assert_eq!(app_id, "app1");
    } else {
        panic!("Expected SingleApp view");
    }
}

#[test]
fn test_aggregated_view() {
    let mut state = create_test_state();
    let _ = update(&mut state, TrayMessage::ShowAggregated);
    if let TrayViewState::Aggregated { items, filter } = &state.current_view {
        assert!(filter.is_none());
        assert!(items.is_empty());
    } else {
        panic!("Expected Aggregated view");
    }
    assert_eq!(state.selected_index, Some(0));
}

#[test]
fn test_favorites_operations() {
    let mut state = create_test_state();
    let item_id = "test_item";
    let _ = update(&mut state, TrayMessage::ToggleFavorite("app1".to_string(), item_id.to_string()));
    assert!(state.tree.favorites.contains(&item_id.to_string()));

    let _ = update(&mut state, TrayMessage::ShowFavorites);
    if let TrayViewState::Favorites { items } = &state.current_view {
        assert!(items.is_empty());
    } else {
        panic!("Expected Favorites view");
    }

    let _ = update(&mut state, TrayMessage::ToggleFavorite("app1".to_string(), item_id.to_string()));
    assert!(!state.tree.favorites.contains(&item_id.to_string()));
}

#[test]
fn test_filter_update() {
    let mut state = create_test_state();
    state.current_view = TrayViewState::Aggregated { items: Vec::new(), filter: None };

    let _ = update(&mut state, TrayMessage::FilterUpdate("test filter".to_string()));
    assert_eq!(state.filter_text, "test filter");
    if let TrayViewState::Aggregated { filter, .. } = &state.current_view {
        assert_eq!(filter.as_ref(), Some(&"test filter".to_string()));
    } else {
        panic!("Expected Aggregated view");
    }

    let _ = update(&mut state, TrayMessage::FilterUpdate(String::new()));
    if let TrayViewState::Aggregated { filter, .. } = &state.current_view {
        assert!(filter.is_none());
    } else {
        panic!("Expected Aggregated view");
    }
}

#[test]
fn test_animation_control() {
    let mut state = create_test_state();
    let _ = update(&mut state, TrayMessage::Show);
    assert!(state.shown);
    let _ = update(&mut state, TrayMessage::Hide);
    assert!(!state.shown);
    assert!(matches!(update(&mut state, TrayMessage::AnimationTick), TrayTask::TickAnimation));
}

#[test]
fn test_icon_clicked_handling() {
    let mut state = create_test_state();
    let _ = update(&mut state, TrayMessage::IconClicked("app1".to_string()));
    if let TrayViewState::SingleApp { app_id, .. } = &state.current_view {
        assert_eq!(app_id, "app1");
    } else {
        panic!("Expected SingleApp view");
    }
    assert!(state.shown);
    assert_eq!(state.selected_index, Some(0));

    let _ = update(&mut state, TrayMessage::IconClicked("app1".to_string()));
    assert!(!state.shown);

    let _ = update(&mut state, TrayMessage::IconClicked("missing".to_string()));
    assert!(!state.shown);
}

#[test]
fn network_icon_click_opens_network_view_and_reads_state() {
    let mut state = create_test_state();
    state.tree.update_app(icon("nm", "Network", true));
    let task = update(&mut state, TrayMessage::IconClicked("nm".to_string()));
    match task {
        TrayTask::ReadNetwork { app_id, rescan } => {
            assert_eq!(app_id, "nm");
            assert!(!rescan);
        }
        other => panic!("unexpected task {other:?}"),
    }
    assert!(matches!(state.current_view, TrayViewState::Network { loading: true, data: None, .. }));

    let _ = update(&mut state, TrayMessage::NetworkSnapshot("nm".to_string(), Ok(snapshot(true))));
    match &state.current_view {
        TrayViewState::Network { loading, data, error, .. } => {
            assert!(!loading);
            assert_eq!(data.as_ref().map(|d| d.enabled), Some(true));
            assert!(error.is_none());
        }
        _ => panic!("Expected Network view"),
    }

    match update(&mut state, TrayMessage::NetworkToggle("nm".to_string())) {
        TrayTask::SetWifiEnabled { app_id, enabled } => {
            assert_eq!(app_id, "nm");
            assert!(!enabled);
        }
        other => panic!("unexpected task {other:?}"),
    }

    let _ = update(&mut state, TrayMessage::NetworkSnapshot("nm".to_string(), Err("nmcli failed".to_string())));
    match &state.current_view {
        TrayViewState::Network { loading, data, error, .. } => {
            assert!(!loading);
            assert!(data.is_some());
            assert_eq!(error.as_deref(), Some("nmcli failed"));
        }
        _ => panic!("Expected Network view"),
    }

    match update(&mut state, TrayMessage::NetworkRefresh("other".to_string())) {
        TrayTask::Nothing => {}
        other => panic!("unexpected task {other:?}"),
    }
}

#[test]
fn clicked_actions_name_the_outside_work() {
    let mut state = create_test_state();
    match update(&mut state, TrayMessage::MenuItemClicked("app1".to_string(), TrayMenuAction::SpawnCommand("xterm".to_string()))) {
        TrayTask::SpawnCommand(c) => assert_eq!(c, "xterm"),
        other => panic!("unexpected task {other:?}"),
    }
    match update(&mut state, TrayMessage::MenuItemClicked("app1".to_string(), TrayMenuAction::DbusMenuAction { item_id: 3, event_id: "clicked".to_string() })) {
        TrayTask::Emit(TrayMessage::DbusError(app, DbusError::NoMenu)) => assert_eq!(app, "app1"),
        other => panic!("unexpected task {other:?}"),
    }
    assert!(matches!(update(&mut state, TrayMessage::MenuItemClicked("app1".to_string(), TrayMenuAction::Activate)), TrayTask::Nothing));
}

#[test]
fn icons_update_resets_unknown_trees_and_keeps_known_ones() {
    let mut state = create_test_state();
    let _ = update(&mut state, TrayMessage::ToggleFavorite("app1".to_string(), "fav".to_string()));
    let _ = update(&mut state, TrayMessage::IconsUpdated(vec![icon("app2", "App 2", false), icon("app3", "App 3", false)]));
    assert_eq!(state.tree.icon_order, vec!["app1", "app2", "app3"]);
    assert_eq!(state.tree.favorites, vec!["fav"]);

    let _ = update(&mut state, TrayMessage::IconsUpdated(vec![icon("new", "New", false)]));
    assert_eq!(state.tree.icon_order, vec!["new"]);
    assert!(state.tree.favorites.is_empty());
}

#[test]
fn menu_updates_replace_a_known_application_menu() {
    let mut state = create_test_state();
    let item = TrayMenuItem {
        id: "open".to_string(),
        label: "Open".to_string(),
        action: TrayMenuAction::Activate,
        icon: None,
        submenu: vec![],
        enabled: true,
        visible: true,
        checkable: false,
        checked: false,
        shortcut: None,
        is_separator: false,
        app_id: "app1".to_string(),
        full_path: "Open".to_string(),
    };
    let _ = update(&mut state, TrayMessage::MenuUpdated { app_id: "app1".to_string(), menu: vec![item] });
    assert_eq!(state.tree.app("app1").unwrap().menu_items.len(), 1);
    let _ = update(&mut state, TrayMessage::ShowAggregated);
    if let TrayViewState::Aggregated { items, .. } = &state.current_view {
        assert_eq!(items.len(), 1);
        assert_eq!(items[0].full_path, "app1 → Open");
    } else {
        panic!("Expected Aggregated view");
    }
}

#[test]
fn menu_selection_skips_disabled_labels_and_separators() {
    let make_item = |id: &str, enabled: bool, separator: bool| TrayMenuItem {
        id: id.to_string(),
        label: id.to_string(),
        action: TrayMenuAction::SpawnCommand(format!("echo {id}")),
        icon: None,
        submenu: Vec::new(),
        enabled,
        visible: true,
        checkable: false,
        checked: false,
        shortcut: None,
        is_separator: separator,
        app_id: "system".to_string(),
        full_path: id.to_string(),
    };
    let mut state = TrayPanelState::new();
    state.tree.update_app(icon("system", "System", true));
    state.tree.update_app_menu(
        "system",
        vec![
            make_item("status", false, false),
            make_item("separator", false, true),
            make_item("confirm", true, false),
            make_item("cancel", true, false),
        ],
    );
    let items = resolve_current_single_app_items(&state.tree, "system", &Vec::new()).unwrap();
    let selectable = selectable_visible_indices(items);
    assert_eq!(selectable, vec![2, 3]);
    state.selected_index = None;
    state.selected_index = move_menu_selection(&selectable, state.selected_index, true);
    assert_eq!(state.selected_index, Some(2));
    state.selected_index = move_menu_selection(&selectable, state.selected_index, false);
    assert_eq!(state.selected_index, Some(3));
    assert!(visible_selectable_item(items, 0).is_none());
    assert!(visible_selectable_item(items, 2).is_some());
}

#[test]
fn menu_selection_wraps_and_restarts() {
    let selectable = vec![0usize, 4, 7];
    assert_eq!(move_menu_selection(&selectable, Some(7), true), Some(0));
    assert_eq!(move_menu_selection(&selectable, Some(4), false), Some(0));
    assert_eq!(move_menu_selection(&selectable, Some(5), false), Some(7));
    assert_eq!(move_menu_selection(&selectable, None, false), Some(7));
    assert_eq!(move_menu_selection(&Vec::new(), Some(1), true), None);
}
