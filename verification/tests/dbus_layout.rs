use unilii::dbus_layout::{
    extract_bool_property, extract_int_property, extract_string_property, parse_dbus_menu_layout,
    parse_menu_item_recursive, parse_status_notifier_identifier, LayoutValue, PropertyValue,
};
use unilii::tray_dbus::DbusError;

fn create_test_dict(entries: Vec<(&str, PropertyValue)>) -> Vec<(String, PropertyValue)> {
    entries.into_iter().map(|(k, v)| (k.to_string(), v)).collect()
}

fn s(v: &str) -> PropertyValue {
    PropertyValue::Str(v.to_string())
}

#[test]
fn test_extract_string_property_valid() {
    let dict = create_test_dict(vec![
        ("label", s("Test Label")),
        ("icon-name", s("test-icon")),
        ("shortcut", s("Ctrl+T")),
    ]);
    assert_eq!(extract_string_property(&dict, "label"), Some("Test Label".to_string()));
    assert_eq!(extract_string_property(&dict, "icon-name"), Some("test-icon".to_string()));
    assert_eq!(extract_string_property(&dict, "shortcut"), Some("Ctrl+T".to_string()));
}

#[test]
fn test_extract_string_property_missing() {
    let dict = create_test_dict(vec![("label", s("Test Label"))]);
    assert_eq!(extract_string_property(&dict, "missing-key"), None);
    assert_eq!(extract_string_property(&dict, "icon-name"), None);
}

#[test]
fn test_extract_string_property_wrong_type() {
    let dict = create_test_dict(vec![("label", PropertyValue::I32(42)), ("enabled", PropertyValue::Bool(true))]);
    assert_eq!(extract_string_property(&dict, "label"), None);
    assert_eq!(extract_string_property(&dict, "enabled"), None);
}

#[test]
fn test_extract_bool_property_valid() {
    let dict = create_test_dict(vec![("enabled", PropertyValue::Bool(true)), ("visible", PropertyValue::Bool(false))]);
    assert_eq!(extract_bool_property(&dict, "enabled"), Some(true));
    assert_eq!(extract_bool_property(&dict, "visible"), Some(false));
}

#[test]
fn test_extract_bool_property_missing() {
    let dict = create_test_dict(vec![("enabled", PropertyValue::Bool(true))]);
    assert_eq!(extract_bool_property(&dict, "missing"), None);
    assert_eq!(extract_bool_property(&dict, "visible"), None);
}

#[test]
fn test_extract_bool_property_wrong_type() {
    let dict = create_test_dict(vec![("enabled", s("true")), ("visible", PropertyValue::I32(1))]);
    assert_eq!(extract_bool_property(&dict, "enabled"), None);
    assert_eq!(extract_bool_property(&dict, "visible"), None);
}

#[test]
fn test_extract_int_property_valid() {
    let dict = create_test_dict(vec![
        ("toggle-state", PropertyValue::I32(1)),
        ("priority", PropertyValue::I32(0)),
        ("negative", PropertyValue::I32(-5)),
    ]);
    assert_eq!(extract_int_property(&dict, "toggle-state"), Some(1));
    assert_eq!(extract_int_property(&dict, "priority"), Some(0));
    assert_eq!(extract_int_property(&dict, "negative"), Some(-5));
}

#[test]
fn test_extract_int_property_missing() {
    let dict = create_test_dict(vec![("toggle-state", PropertyValue::I32(1))]);
    assert_eq!(extract_int_property(&dict, "missing"), None);
    assert_eq!(extract_int_property(&dict, "priority"), None);
}

#[test]
fn test_extract_int_property_wrong_type() {
    let dict = create_test_dict(vec![("toggle-state", s("1")), ("priority", PropertyValue::Bool(true))]);
    assert_eq!(extract_int_property(&dict, "toggle-state"), None);
    assert_eq!(extract_int_property(&dict, "priority"), None);
}

#[test]
fn test_toggle_type_detection() {
    let checkmark_dict = create_test_dict(vec![("toggle-type", s("checkmark")), ("toggle-state", PropertyValue::I32(1))]);
    let toggle_type = extract_string_property(&checkmark_dict, "toggle-type").unwrap_or_default();
    let toggle_state = extract_int_property(&checkmark_dict, "toggle-state").unwrap_or(0);
    let checkable = !toggle_type.is_empty() && (toggle_type == "checkmark" || toggle_type == "radio");
    let checked = toggle_state != 0;
    assert!(checkable);
    assert!(checked);
    assert_eq!(toggle_type, "checkmark");

    let radio_dict = create_test_dict(vec![("toggle-type", s("radio")), ("toggle-state", PropertyValue::I32(0))]);
    let toggle_type = extract_string_property(&radio_dict, "toggle-type").unwrap_or_default();
    let toggle_state = extract_int_property(&radio_dict, "toggle-state").unwrap_or(0);
    let checkable = !toggle_type.is_empty() && (toggle_type == "checkmark" || toggle_type == "radio");
    let checked = toggle_state != 0;
    assert!(checkable);
    assert!(!checked);
    assert_eq!(toggle_type, "radio");

    let invalid_dict = create_test_dict(vec![("toggle-type", s("invalid")), ("toggle-state", PropertyValue::I32(1))]);
    let toggle_type = extract_string_property(&invalid_dict, "toggle-type").unwrap_or_default();
    let checkable = !toggle_type.is_empty() && (toggle_type == "checkmark" || toggle_type == "radio");
    assert!(!checkable);
    assert_eq!(toggle_type, "invalid");
}

#[test]
fn test_empty_properties_defaults() {
    let empty_dict = create_test_dict(vec![]);
    assert_eq!(extract_string_property(&empty_dict, "label"), None);
    assert_eq!(extract_string_property(&empty_dict, "icon-name"), None);
    assert_eq!(extract_string_property(&empty_dict, "shortcut"), None);
    assert_eq!(extract_string_property(&empty_dict, "toggle-type"), None);
    assert_eq!(extract_bool_property(&empty_dict, "enabled"), None);
    assert_eq!(extract_bool_property(&empty_dict, "visible"), None);
    assert_eq!(extract_int_property(&empty_dict, "toggle-state"), None);
}

#[test]
fn test_property_extraction_comprehensive() {
    let comprehensive_dict = create_test_dict(vec![
        ("label", s("Comprehensive Test Item")),
        ("enabled", PropertyValue::Bool(true)),
        ("visible", PropertyValue::Bool(false)),
        ("icon-name", s("dialog-information")),
        ("shortcut", s("Ctrl+Shift+I")),
        ("toggle-type", s("checkmark")),
        ("toggle-state", PropertyValue::I32(1)),
    ]);
    assert_eq!(extract_string_property(&comprehensive_dict, "label"), Some("Comprehensive Test Item".to_string()));
    assert_eq!(extract_bool_property(&comprehensive_dict, "enabled"), Some(true));
    assert_eq!(extract_bool_property(&comprehensive_dict, "visible"), Some(false));
    assert_eq!(extract_string_property(&comprehensive_dict, "icon-name"), Some("dialog-information".to_string()));
    assert_eq!(extract_string_property(&comprehensive_dict, "shortcut"), Some("Ctrl+Shift+I".to_string()));
    assert_eq!(extract_string_property(&comprehensive_dict, "toggle-type"), Some("checkmark".to_string()));
    assert_eq!(extract_int_property(&comprehensive_dict, "toggle-state"), Some(1));
}

#[test]
fn test_mixed_type_properties_robustness() {
    let mixed_dict = create_test_dict(vec![
        ("label", s("Mixed Test")),
        ("enabled", s("not-a-bool")),
        ("visible", PropertyValue::Bool(true)),
        ("toggle-state", s("1")),
        ("valid-int", PropertyValue::I32(42)),
    ]);
    assert_eq!(extract_string_property(&mixed_dict, "label"), Some("Mixed Test".to_string()));
    assert_eq!(extract_bool_property(&mixed_dict, "visible"), Some(true));
    assert_eq!(extract_int_property(&mixed_dict, "valid-int"), Some(42));
    assert_eq!(extract_bool_property(&mixed_dict, "enabled"), None);
    assert_eq!(extract_int_property(&mixed_dict, "toggle-state"), None);
}

fn node(props: Vec<(&str, PropertyValue)>, children: Vec<LayoutValue>) -> LayoutValue {
    LayoutValue::Structure(vec![
        LayoutValue::Scalar(PropertyValue::I32(7)),
        LayoutValue::Dict(create_test_dict(props)),
        LayoutValue::Array(children),
    ])
}

#[test]
fn test_parse_dbus_menu_layout() {
    let result = parse_dbus_menu_layout((0, Vec::new(), vec![]));
    assert!(result.is_ok());
    assert!(result.unwrap().is_empty());
}

#[test]
fn layout_entries_read_properties_defaults_and_children() {
    let layout = (
        0,
        Vec::new(),
        vec![
            node(
                vec![("label", s("File")), ("toggle-type", s("checkmark")), ("toggle-state", PropertyValue::I32(1))],
                vec![node(vec![("enabled", PropertyValue::Bool(false))], vec![]), LayoutValue::Scalar(PropertyValue::Other)],
            ),
            LayoutValue::Array(vec![]),
            node(vec![("visible", PropertyValue::Bool(false)), ("icon-name", s("edit"))], vec![]),
        ],
    );
    let items = parse_dbus_menu_layout(layout).unwrap();
    assert_eq!(items.len(), 2);
    assert_eq!(items[0].id, 1);
    assert_eq!(items[0].label, "File");
    assert!(items[0].checkable);
    assert!(items[0].checked);
    assert!(items[0].enabled && items[0].visible);
    assert_eq!(items[0].children.len(), 1);
    assert_eq!(items[0].children[0].label, "Item 1");
    assert!(!items[0].children[0].enabled);
    assert!(!items[0].children[0].checkable);
    assert!(!items[1].visible);
    assert_eq!(items[1].icon_name.as_deref(), Some("edit"));
}

#[test]
fn malformed_layout_values_are_response_parsing_errors() {
    let err = |v: LayoutValue| match parse_menu_item_recursive(&v) {
        Err(DbusError::ResponseParsing(m)) => m,
        other => panic!("unexpected {other:?}"),
    };
    assert_eq!(err(LayoutValue::Scalar(PropertyValue::Other)), "Expected structure");
    assert_eq!(err(LayoutValue::Structure(vec![])), "Menu item structure must have 3 fields");
    assert_eq!(
        err(LayoutValue::Structure(vec![
            LayoutValue::Scalar(PropertyValue::I32(1)),
            LayoutValue::Array(vec![]),
            LayoutValue::Array(vec![]),
        ])),
        "Properties must be a dictionary"
    );
    assert_eq!(
        err(LayoutValue::Structure(vec![
            LayoutValue::Scalar(PropertyValue::I32(1)),
            LayoutValue::Dict(vec![]),
            LayoutValue::Dict(vec![]),
        ])),
        "Invalid children array"
    );
}

#[test]
fn status_notifier_identifiers_split_at_the_first_slash() {
    assert_eq!(
        parse_status_notifier_identifier(":1.123/org/ayatana/NotificationItem/nm").unwrap(),
        (":1.123".to_string(), "/org/ayatana/NotificationItem/nm".to_string())
    );
    assert_eq!(
        parse_status_notifier_identifier("com.example.Service").unwrap(),
        ("com.example.Service".to_string(), "/StatusNotifierItem".to_string())
    );
    assert_eq!(parse_status_notifier_identifier("/x").unwrap(), (String::new(), "/x".to_string()));
}
