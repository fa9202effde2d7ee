use unilii::tray_core::TrayMenuAction;
use unilii::tray_dbus::{convert_dbus_menu_item, convert_dbus_to_tray_menu, DbusError, DbusMenuItem};

fn create_dbus_menu_item(id: i32, label: &str) -> DbusMenuItem {
    DbusMenuItem {
        id,
        label: label.to_string(),
        enabled: true,
        visible: true,
        icon_name: None,
        checkable: false,
        checked: false,
        shortcut: None,
        children: Vec::new(),
    }
}

#[test]
fn test_dbus_menu_item_creation() {
    let dbus_item = DbusMenuItem {
        id: 1,
        label: "Test Item".to_string(),
        enabled: true,
        visible: true,
        icon_name: Some("test-icon".to_string()),
        checkable: false,
        checked: false,
        shortcut: Some("Ctrl+T".to_string()),
        children: vec![],
    };

    assert_eq!(dbus_item.id, 1);
    assert_eq!(dbus_item.label, "Test Item");
    assert!(dbus_item.enabled);
    assert!(dbus_item.visible);
    assert!(!dbus_item.checkable);
    assert_eq!(dbus_item.icon_name, Some("test-icon".to_string()));
}

#[test]
fn test_dbus_to_tray_conversion() {
    let dbus_items = vec![DbusMenuItem {
        id: 1,
        label: "File".to_string(),
        enabled: true,
        visible: true,
        icon_name: None,
        checkable: false,
        checked: false,
        shortcut: None,
        children: vec![DbusMenuItem {
            id: 2,
            label: "Open".to_string(),
            enabled: true,
            visible: true,
            icon_name: Some("document-open".to_string()),
            checkable: false,
            checked: false,
            shortcut: Some("Ctrl+O".to_string()),
            children: vec![],
        }],
    }];

    let tray_items = convert_dbus_to_tray_menu(dbus_items, "test-app");

    assert_eq!(tray_items.len(), 1);
    assert_eq!(tray_items[0].label, "File");
    assert_eq!(tray_items[0].app_id, "test-app");
    assert_eq!(tray_items[0].submenu.len(), 1);
    assert_eq!(tray_items[0].submenu[0].label, "Open");
    assert_eq!(tray_items[0].submenu[0].full_path, "File → Open");
}

#[test]
fn test_separator_detection() {
    let separator_variants = vec!["", "-", "separator", "  "];

    for label in separator_variants {
        let dbus_item = DbusMenuItem {
            id: 1,
            label: label.to_string(),
            enabled: true,
            visible: true,
            icon_name: None,
            checkable: false,
            checked: false,
            shortcut: None,
            children: vec![],
        };

        let tray_item = convert_dbus_menu_item(dbus_item, "test", "");
        assert!(tray_item.is_separator, "Label '{}' should be detected as separator", label);
        assert_eq!(tray_item.label, "─");
    }
}

#[test]
fn test_checkable_item_conversion() {
    let dbus_item = DbusMenuItem {
        id: 1,
        label: "Show Toolbar".to_string(),
        enabled: true,
        visible: true,
        icon_name: None,
        checkable: true,
        checked: true,
        shortcut: None,
        children: vec![],
    };

    let tray_item = convert_dbus_menu_item(dbus_item, "test", "");
    assert!(tray_item.checkable);
    assert!(tray_item.checked);
    assert_eq!(tray_item.label, "Show Toolbar");
}

#[test]
fn test_simple_dbus_menu_item_creation() {
    let dbus_item = DbusMenuItem {
        id: 1,
        label: "Test Item".to_string(),
        enabled: true,
        visible: true,
        icon_name: Some("test-icon".to_string()),
        checkable: false,
        checked: false,
        shortcut: Some("Ctrl+T".to_string()),
        children: vec![],
    };

    assert_eq!(dbus_item.id, 1);
    assert_eq!(dbus_item.label, "Test Item");
    assert!(dbus_item.enabled);
    assert!(dbus_item.visible);
    assert!(!dbus_item.checkable);
    assert_eq!(dbus_item.icon_name, Some("test-icon".to_string()));
    assert_eq!(dbus_item.shortcut, Some("Ctrl+T".to_string()));
}

#[test]
fn test_checkable_dbus_menu_item() {
    let dbus_item = DbusMenuItem {
        id: 2,
        label: "Checkable Item".to_string(),
        enabled: true,
        visible: true,
        icon_name: None,
        checkable: true,
        checked: true,
        shortcut: None,
        children: vec![],
    };

    assert_eq!(dbus_item.id, 2);
    assert_eq!(dbus_item.label, "Checkable Item");
    assert!(dbus_item.checkable);
    assert!(dbus_item.checked);
    assert_eq!(dbus_item.icon_name, None);
    assert_eq!(dbus_item.shortcut, None);
}

#[test]
fn test_menu_item_with_children() {
    let child = DbusMenuItem {
        id: 21,
        label: "Child Item".to_string(),
        enabled: true,
        visible: true,
        icon_name: None,
        checkable: false,
        checked: false,
        shortcut: None,
        children: vec![],
    };

    let parent = DbusMenuItem {
        id: 20,
        label: "Parent Item".to_string(),
        enabled: true,
        visible: true,
        icon_name: None,
        checkable: false,
        checked: false,
        shortcut: None,
        children: vec![child],
    };

    assert_eq!(parent.id, 20);
    assert_eq!(parent.label, "Parent Item");
    assert_eq!(parent.children.len(), 1);
    assert_eq!(parent.children[0].id, 21);
    assert_eq!(parent.children[0].label, "Child Item");
}

#[test]
fn test_dbus_menu_conversion_with_children() {
    let dbus_menu = vec![DbusMenuItem {
        id: 1,
        label: "File".to_string(),
        enabled: true,
        visible: true,
        icon_name: None,
        checkable: false,
        checked: false,
        shortcut: None,
        children: vec![DbusMenuItem {
            id: 11,
            label: "New".to_string(),
            enabled: true,
            visible: true,
            icon_name: Some("document-new".to_string()),
            checkable: false,
            checked: false,
            shortcut: Some("Ctrl+N".to_string()),
            children: vec![],
        }],
    }];

    let tray_menu = convert_dbus_to_tray_menu(dbus_menu, "test-app");

    assert_eq!(tray_menu.len(), 1);
    assert_eq!(tray_menu[0].label, "File");
    assert_eq!(tray_menu[0].app_id, "test-app");
    assert_eq!(tray_menu[0].submenu.len(), 1);
    assert_eq!(tray_menu[0].submenu[0].label, "New");
    assert_eq!(tray_menu[0].submenu[0].shortcut, Some("Ctrl+N".to_string()));
    assert_eq!(tray_menu[0].submenu[0].icon, Some("document-new".to_string()));
}

#[test]
fn test_dbus_menu_item_structure() {
    let item = create_dbus_menu_item(1, "Test Item");

    assert_eq!(item.id, 1);
    assert_eq!(item.label, "Test Item");
    assert!(item.enabled);
    assert!(item.visible);
    assert!(item.icon_name.is_none());
    assert!(!item.checkable);
    assert!(!item.checked);
    assert!(item.shortcut.is_none());
    assert!(item.children.is_empty());
}

#[test]
fn test_dbus_menu_item_with_children() {
    let _child1 = create_dbus_menu_item(2, "Child 1");
    let _child2 = create_dbus_menu_item(3, "Child 2");

    let parent = DbusMenuItem {
        id: 1,
        label: "Parent".to_string(),
        enabled: true,
        visible: true,
        icon_name: None,
        checkable: false,
        checked: false,
        shortcut: None,
        children: vec![create_dbus_menu_item(2, "Child 1"), create_dbus_menu_item(3, "Child 2")],
    };

    assert_eq!(parent.children.len(), 2);
    assert_eq!(parent.children[0].label, "Child 1");
    assert_eq!(parent.children[1].label, "Child 2");
}

#[test]
fn test_dbus_menu_item_with_all_fields() {
    let item = DbusMenuItem {
        id: 42,
        label: "Full Item".to_string(),
        enabled: false,
        visible: true,
        icon_name: Some("test-icon".to_string()),
        checkable: true,
        checked: true,
        shortcut: Some("Ctrl+S".to_string()),
        children: vec![],
    };

    assert_eq!(item.id, 42);
    assert_eq!(item.label, "Full Item");
    assert!(!item.enabled);
    assert!(item.visible);
    assert_eq!(item.icon_name, Some("test-icon".to_string()));
    assert!(item.checkable);
    assert!(item.checked);
    assert_eq!(item.shortcut, Some("Ctrl+S".to_string()));
}

#[test]
fn test_dbus_error_display() {
    let errors = vec![
        DbusError::Connection("Failed to connect".to_string()),
        DbusError::Proxy("Invalid proxy".to_string()),
        DbusError::MethodCall("Method failed".to_string()),
        DbusError::ResponseParsing("Parsing failed".to_string()),
        DbusError::NoMenu,
        DbusError::InvalidMenuData("Invalid data".to_string()),
    ];

    for error in errors {
        let _ = error.message();
        let _ = format!("{:?}", error);
    }
}

#[test]
fn test_dbus_menu_item_equality() {
    let item1 = create_dbus_menu_item(1, "Test");
    let item2 = create_dbus_menu_item(1, "Test");
    let item3 = create_dbus_menu_item(2, "Different");

    assert_eq!(item1, item2);
    assert_ne!(item1, item3);
}

#[test]
fn error_messages_follow_their_variant() {
    assert_eq!(DbusError::Connection("Test error".to_string()).message(), "Connection failed: Test error");
    assert_eq!(DbusError::NoMenu.message(), "No menu available for icon");
    assert_eq!(DbusError::InvalidMenuData("x".to_string()).message(), "Invalid menu data: x");
}

#[test]
fn converted_items_carry_ids_actions_and_paths() {
    let mut parent = create_dbus_menu_item(-7, "Edit");
    parent.children = vec![create_dbus_menu_item(3, "Copy"), create_dbus_menu_item(4, "-")];
    let items = convert_dbus_to_tray_menu(vec![parent], "app");
    assert_eq!(items[0].id, "app_-7");
    assert_eq!(items[0].full_path, "Edit");
    assert_eq!(items[0].action, TrayMenuAction::DbusMenuAction { item_id: -7, event_id: "clicked".to_string() });
    assert_eq!(items[0].submenu[1].id, "app_4");
    assert!(items[0].submenu[1].is_separator);
    assert_eq!(items[0].submenu[1].action, TrayMenuAction::Activate);
    assert_eq!(items[0].submenu[1].full_path, "Edit → -");
    let nested = convert_dbus_menu_item(create_dbus_menu_item(9, "Deep"), "app", "Top");
    assert_eq!(nested.full_path, "Top → Deep");
}

#[test]
fn cloned_items_equal_the_original_with_their_children() {
    let mut parent = create_dbus_menu_item(1, "Parent");
    parent.icon_name = Some("folder".to_string());
    parent.shortcut = Some("Ctrl+P".to_string());
    parent.children = vec![create_dbus_menu_item(2, "Child"), create_dbus_menu_item(3, "Other")];
    parent.children[0].children = vec![create_dbus_menu_item(4, "Grandchild")];
    let copy = parent.clone();
    assert_eq!(copy, parent);
}
