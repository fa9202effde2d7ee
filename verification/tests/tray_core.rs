use unilii::tray_core::{TrayIcon, TrayMenuAction, TrayMenuItem, TrayMenuNavigation, TrayMenuTree, TrayViewState};

fn icon(id: &str, title: &str, has_menu: bool) -> TrayIcon {
    TrayIcon {
        key: id.to_string(),
        id: id.to_string(),
        service: format!("com.example.{id}"),
        path: "/StatusNotifierItem".to_string(),
        title: title.to_string(),
        icon_name: Some(format!("{id}-icon")),
        status: "Active".to_string(),
        has_menu,
        menu_object_path: if has_menu { Some("/MenuBar".to_string()) } else { None },
    }
}

fn item(id: &str, label: &str, submenu: Vec<TrayMenuItem>) -> TrayMenuItem {
    TrayMenuItem {
        id: id.to_string(),
        label: label.to_string(),
        action: TrayMenuAction::Activate,
        icon: None,
        submenu,
        enabled: true,
        visible: true,
        checkable: false,
        checked: false,
        shortcut: None,
        is_separator: false,
        app_id: String::new(),
        full_path: label.to_string(),
    }
}

#[test]
fn test_tray_menu_tree_creation() {
    let tree = TrayMenuTree::new();
    assert!(tree.apps.is_empty());
    assert!(tree.favorites.is_empty());
    assert!(tree.icon_order.is_empty());
}

#[test]
fn test_app_update_and_ordering() {
    let mut tree = TrayMenuTree::new();

    let icon1 = TrayIcon {
        key: "app1".to_string(),
        id: "app1".to_string(),
        service: "com.example.app1".to_string(),
        path: "/StatusNotifierItem".to_string(),
        title: "App 1".to_string(),
        icon_name: Some("app1-icon".to_string()),
        status: "Active".to_string(),
        has_menu: true,
        menu_object_path: Some("/MenuBar".to_string()),
    };

    let icon2 = TrayIcon {
        key: "app2".to_string(),
        id: "app2".to_string(),
        service: "com.example.app2".to_string(),
        path: "/StatusNotifierItem".to_string(),
        title: "App 2".to_string(),
        icon_name: Some("app2-icon".to_string()),
        status: "Active".to_string(),
        has_menu: false,
        menu_object_path: None,
    };

    tree.update_app(icon1);
    tree.update_app(icon2);

    assert_eq!(tree.apps.len(), 2);
    assert_eq!(tree.icon_order, vec!["app1", "app2"]);

    let nav = tree.get_app_navigation("app1");
    assert_eq!(nav.current_app_index, 0);
    assert!(!nav.can_go_left);
    assert!(nav.can_go_right);

    let nav = tree.get_app_navigation("app2");
    assert_eq!(nav.current_app_index, 1);
    assert!(nav.can_go_left);
    assert!(!nav.can_go_right);
}

#[test]
fn test_menu_item_favorites() {
    let mut tree = TrayMenuTree::new();

    let item_id = "test_item_1";
    assert!(!tree.favorites.contains(&item_id.to_string()));

    let result = tree.toggle_favorite(item_id);
    assert!(result);
    assert!(tree.favorites.contains(&item_id.to_string()));

    let result = tree.toggle_favorite(item_id);
    assert!(!result);
    assert!(!tree.favorites.contains(&item_id.to_string()));
}

#[test]
fn test_view_state_item_count() {
    let single_app_view = TrayViewState::SingleApp {
        app_id: "test".to_string(),
        navigation: TrayMenuNavigation {
            current_app_index: 0,
            app_order: vec!["test".to_string()],
            can_go_left: false,
            can_go_right: false,
        },
    };

    let aggregated_view = TrayViewState::Aggregated {
        items: vec![TrayMenuItem {
            id: "item1".to_string(),
            label: "Item 1".to_string(),
            action: TrayMenuAction::Activate,
            icon: None,
            submenu: Vec::new(),
            enabled: true,
            visible: true,
            checkable: false,
            checked: false,
            shortcut: None,
            is_separator: false,
            app_id: "test".to_string(),
            full_path: "Test → Item 1".to_string(),
        }],
        filter: None,
    };

    assert!(single_app_view.get_navigation().is_some());
    assert!(aggregated_view.get_navigation().is_none());
    assert_eq!(aggregated_view.item_count(), 1);
}

#[test]
fn network_view_counts_controls_and_networks() {
    let view = TrayViewState::Network { app_id: "nm".to_string(), data: None, loading: true, error: None };
    assert_eq!(view.item_count(), 3);
}

#[test]
fn re_registering_an_app_keeps_one_entry_and_order() {
    let mut tree = TrayMenuTree::new();
    tree.update_app(icon("a", "A", false));
    tree.update_app(icon("b", "B", false));
    tree.update_app(icon("a", "A again", false));
    assert_eq!(tree.apps.len(), 2);
    assert_eq!(tree.icon_order, vec!["a", "b"]);
    assert_eq!(tree.app("a").unwrap().icon.title, "A again");
    tree.remove_app("a");
    assert_eq!(tree.icon_order, vec!["b"]);
    assert!(tree.app("a").is_none());
    let nav = tree.get_app_navigation("missing");
    assert_eq!(nav.current_app_index, 0);
    assert!(!nav.can_go_left);
    assert!(!nav.can_go_right);
}

#[test]
fn aggregated_menu_flattens_filters_and_sorts() {
    let mut tree = TrayMenuTree::new();
    tree.update_app(icon("zeta", "Zeta", true));
    tree.update_app(icon("alpha", "Alpha", true));
    let mut hidden = item("h", "Hidden", vec![]);
    hidden.visible = false;
    tree.update_app_menu("zeta", vec![item("z1", "Quit", vec![])]);
    tree.update_app_menu(
        "alpha",
        vec![item("a1", "Settings", vec![item("a2", "Advanced", vec![]), hidden])],
    );
    tree.update_app_menu("missing", vec![item("m", "Nope", vec![])]);
    let all = tree.get_aggregated_menu(None);
    let paths: Vec<&str> = all.iter().map(|i| i.full_path.as_str()).collect();
    assert_eq!(paths, vec!["alpha → Advanced", "alpha → Settings", "zeta → Quit"]);
    let filtered = tree.get_aggregated_menu(Some("QUI"));
    assert_eq!(filtered.len(), 1);
    assert_eq!(filtered[0].id, "z1");
}

#[test]
fn favorites_menu_collects_marked_items_in_path_order() {
    let mut tree = TrayMenuTree::new();
    tree.update_app(icon("app", "App", true));
    tree.update_app_menu("app", vec![item("x", "Zoom", vec![item("y", "Alpha", vec![])])]);
    assert!(tree.get_favorites_menu().is_empty());
    tree.toggle_favorite("x");
    tree.toggle_favorite("y");
    let favs = tree.get_favorites_menu();
    let ids: Vec<&str> = favs.iter().map(|i| i.id.as_str()).collect();
    assert_eq!(ids, vec!["y", "x"]);
    assert!(tree.is_favorite("x"));
}
