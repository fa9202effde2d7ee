use unilii::tray_core::{TrayIcon, TrayMenuAction, TrayMenuItem, TrayMenuTree};
use unilii::tray_selection::{
    is_selectable, resolve_current_single_app_items, selectable_indices, selectable_item, selectable_visible_indices,
    submenu_items, visible_count, visible_selectable_item,
};

fn item(id: &str, enabled: bool, visible: bool, separator: bool, submenu: Vec<TrayMenuItem>) -> TrayMenuItem {
    TrayMenuItem {
        id: id.to_string(),
        label: id.to_string(),
        action: if submenu.is_empty() {
            TrayMenuAction::SpawnCommand(format!("run {id}"))
        } else {
            TrayMenuAction::Activate
        },
        icon: None,
        submenu,
        enabled,
        visible,
        checkable: false,
        checked: false,
        shortcut: None,
        is_separator: separator,
        app_id: "app".to_string(),
        full_path: id.to_string(),
    }
}

fn tree() -> TrayMenuTree {
    let mut tree = TrayMenuTree::new();
    tree.update_app(TrayIcon {
        key: "app".to_string(),
        service: "org.example.App".to_string(),
        path: "/StatusNotifierItem".to_string(),
        id: "app".to_string(),
        title: "App".to_string(),
        icon_name: None,
        status: "Active".to_string(),
        has_menu: true,
        menu_object_path: None,
    });
    let deep = vec![item("leaf", true, true, false, vec![])];
    let settings = vec![
        item("hidden", true, false, false, vec![]),
        item("audio", true, true, false, vec![]),
        item("advanced", true, true, false, deep),
    ];
    tree.update_app_menu(
        "app",
        vec![
            item("title", false, true, false, vec![]),
            item("sep", true, true, true, vec![]),
            item("settings", true, true, false, settings),
            item("quit", true, true, false, vec![]),
        ],
    );
    tree
}

fn ids(items: &[TrayMenuItem]) -> Vec<String> {
    items.iter().map(|i| i.id.clone()).collect()
}

#[test]
fn submenu_path_leads_to_the_named_rows() {
    let tree = tree();
    let top = resolve_current_single_app_items(&tree, "app", &vec![]).unwrap();
    assert_eq!(ids(top), vec!["title", "sep", "settings", "quit"]);
    let settings = resolve_current_single_app_items(&tree, "app", &vec!["settings".to_string()]).unwrap();
    assert_eq!(ids(settings), vec!["hidden", "audio", "advanced"]);
    let deep = resolve_current_single_app_items(&tree, "app", &vec!["settings".to_string(), "advanced".to_string()]).unwrap();
    assert_eq!(ids(deep), vec!["leaf"]);
}

#[test]
fn submenu_path_through_a_leaf_or_unknown_row_leads_nowhere() {
    let tree = tree();
    assert!(resolve_current_single_app_items(&tree, "app", &vec!["quit".to_string()]).is_none());
    assert!(resolve_current_single_app_items(&tree, "app", &vec!["missing".to_string()]).is_none());
    assert!(resolve_current_single_app_items(&tree, "other", &vec![]).is_none());
    let top = vec![item("a", true, true, false, vec![])];
    assert!(submenu_items(&top, &vec!["a".to_string()]).is_none());
}

#[test]
fn hidden_rows_are_not_counted_or_selected() {
    let tree = tree();
    let settings = resolve_current_single_app_items(&tree, "app", &vec!["settings".to_string()]).unwrap();
    assert_eq!(visible_count(settings), 2);
    assert_eq!(selectable_visible_indices(settings), vec![0, 1]);
    assert_eq!(visible_selectable_item(settings, 0).map(|i| i.id.clone()), Some("audio".to_string()));
    assert_eq!(visible_selectable_item(settings, 1).map(|i| i.id.clone()), Some("advanced".to_string()));
    assert!(visible_selectable_item(settings, 2).is_none());
}

#[test]
fn labels_and_separators_are_not_selectable() {
    let tree = tree();
    let top = resolve_current_single_app_items(&tree, "app", &vec![]).unwrap();
    assert!(!is_selectable(&top[0]));
    assert!(!is_selectable(&top[1]));
    assert!(is_selectable(&top[2]));
    assert_eq!(selectable_indices(top), vec![2, 3]);
    assert!(selectable_item(top, 0).is_none());
    assert_eq!(selectable_item(top, 3).map(|i| i.action.clone()), Some(TrayMenuAction::SpawnCommand("run quit".to_string())));
    assert!(visible_selectable_item(top, 1).is_none());
}
