use unilii::tray_keys::{evdev_tray_key, EvdevTrayContext, EvdevTrayOutcome};
use unilii::tray_keys::{
    evdev_digit_index, extract_key_char, key_char_digit, key_matches_char, key_matches_named,
};

#[test]
fn digit_1_maps_to_index_0() {
    assert_eq!(key_char_digit("Character(\"1\")"), Some(0));
}

#[test]
fn digit_9_maps_to_index_8() {
    assert_eq!(key_char_digit("Character(\"9\")"), Some(8));
}

#[test]
fn digit_0_is_not_a_tray_shortcut() {
    assert_eq!(key_char_digit("Character(\"0\")"), None);
}

#[test]
fn non_digit_key_returns_none() {
    assert_eq!(key_char_digit("Named(Escape)"), None);
    assert_eq!(key_char_digit("Character(\"a\")"), None);
}

#[test]
fn evdev_number_row_selects_first_nine_entries() {
    assert_eq!(evdev_digit_index("KEY_1"), Some(0));
    assert_eq!(evdev_digit_index("KEY_5"), Some(4));
    assert_eq!(evdev_digit_index("KEY_9"), Some(8));
    assert_eq!(evdev_digit_index("KEY_0"), None);
    assert_eq!(evdev_digit_index("KEY_10"), None);
    assert_eq!(evdev_digit_index("KEY_A"), None);
    assert_eq!(evdev_digit_index(""), None);
}

#[test]
fn extracted_character_is_lowercased_and_needs_a_closing_quote() {
    assert_eq!(extract_key_char("Character(\"Q\")"), Some('q'));
    assert_eq!(extract_key_char("Key::CHARACTER(\"j\") pressed"), Some('j'));
    assert_eq!(extract_key_char("Character(\"\")"), None);
    assert_eq!(extract_key_char("Character(\"x"), None);
    assert_eq!(extract_key_char("Named(Enter)"), None);
}

#[test]
fn named_and_character_matching() {
    assert!(key_matches_named("Named(Escape)", "Escape"));
    assert!(!key_matches_named("Named(Enter)", "Escape"));
    assert!(key_matches_char("Character(\"J\")", 'j'));
    assert!(key_matches_char("Character(\"j\")", 'J'));
    assert!(key_matches_char("key \"k\"", 'k'));
    assert!(!key_matches_char("Character(\"h\")", 'l'));
}

#[test]
fn raw_keys_drive_the_open_tray() {
    let open = EvdevTrayContext {
        tray_open: true,
        submenu_open: false,
        selected_action: None,
        shift_held: false,
        icon_count: 3,
    };
    assert_eq!(evdev_tray_key("KEY_ESC", 0, open), EvdevTrayOutcome::NotHandled);
    assert_eq!(evdev_tray_key("KEY_ESC", 1, open), EvdevTrayOutcome::CloseTray);
    assert_eq!(
        evdev_tray_key("KEY_ESC", 1, EvdevTrayContext { submenu_open: true, ..open }),
        EvdevTrayOutcome::ExitSubmenu
    );
    assert_eq!(evdev_tray_key("KEY_TAB", 2, open), EvdevTrayOutcome::MoveSelection { forward: true });
    assert_eq!(evdev_tray_key("KEY_UP", 1, open), EvdevTrayOutcome::MoveSelection { forward: false });
    assert_eq!(evdev_tray_key("KEY_LEFT", 1, open), EvdevTrayOutcome::NavigateLeft);
    assert_eq!(evdev_tray_key("KEY_RIGHT", 1, open), EvdevTrayOutcome::NavigateRight);
    assert_eq!(
        evdev_tray_key("KEY_RIGHT", 1, EvdevTrayContext { selected_action: Some(true), ..open }),
        EvdevTrayOutcome::TriggerSelected
    );
    assert_eq!(evdev_tray_key("KEY_ENTER", 1, open), EvdevTrayOutcome::Handled);
    assert_eq!(
        evdev_tray_key("KEY_KPENTER", 1, EvdevTrayContext { selected_action: Some(false), ..open }),
        EvdevTrayOutcome::TriggerSelected
    );
    assert_eq!(evdev_tray_key("KEY_2", 1, open), EvdevTrayOutcome::NotHandled);
    let shifted = EvdevTrayContext { tray_open: false, shift_held: true, ..open };
    assert_eq!(evdev_tray_key("KEY_2", 1, shifted), EvdevTrayOutcome::PressIcon(1));
    assert_eq!(evdev_tray_key("KEY_4", 1, shifted), EvdevTrayOutcome::NotHandled);
    assert_eq!(evdev_tray_key("KEY_ESC", 1, shifted), EvdevTrayOutcome::NotHandled);
}
