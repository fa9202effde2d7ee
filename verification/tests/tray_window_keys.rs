use unilii::tray_keys::EvdevTrayContext;
use unilii::tray_window_keys::{global_shift_state, window_key, WindowKeyContext, WindowKeyEffect};

fn ctx(tray_open: bool, submenu_open: bool, selected_action: Option<bool>, shift_held: bool) -> WindowKeyContext {
    WindowKeyContext {
        keys: EvdevTrayContext { tray_open, submenu_open, selected_action, shift_held, icon_count: 3 },
        favorite_target: true,
        quickjump_supported: true,
    }
}

struct Keys {
    shift: bool,
    active: bool,
    input: String,
}

impl Keys {
    fn new() -> Self {
        Keys { shift: false, active: false, input: String::new() }
    }

    fn press(&mut self, key: &str, c: WindowKeyContext) -> WindowKeyEffect {
        let mut c = c;
        c.keys.shift_held = self.shift;
        let labels = vec!["a".to_string(), "s".to_string(), "d".to_string()];
        let targets = vec![2usize, 5, 7];
        window_key(key, true, key.contains("Shift"), c, &mut self.shift, &mut self.active, &mut self.input, "asd", &labels, &targets)
    }
}

#[test]
fn arrows_escape_and_enter_drive_the_open_menu() {
    let mut k = Keys::new();
    assert_eq!(k.press("Named(ArrowDown)", ctx(true, false, None, false)), WindowKeyEffect::MoveSelection { forward: true });
    assert_eq!(k.press("Named(Tab)", ctx(true, false, None, false)), WindowKeyEffect::MoveSelection { forward: true });
    assert_eq!(k.press("Named(ArrowUp)", ctx(true, false, None, false)), WindowKeyEffect::MoveSelection { forward: false });
    assert_eq!(k.press("Named(ArrowLeft)", ctx(true, true, None, false)), WindowKeyEffect::ExitSubmenu);
    assert_eq!(k.press("Named(ArrowLeft)", ctx(true, false, None, false)), WindowKeyEffect::NavigateLeft);
    assert_eq!(k.press("Named(ArrowRight)", ctx(true, false, Some(true), false)), WindowKeyEffect::TriggerSelected);
    assert_eq!(k.press("Named(ArrowRight)", ctx(true, false, Some(false), false)), WindowKeyEffect::NavigateRight);
    assert_eq!(k.press("Named(Enter)", ctx(true, false, Some(false), false)), WindowKeyEffect::TriggerSelected);
    assert_eq!(k.press("Named(Enter)", ctx(true, false, None, false)), WindowKeyEffect::Nothing);
    assert_eq!(k.press("Named(Escape)", ctx(true, true, None, false)), WindowKeyEffect::ExitSubmenu);
    assert_eq!(k.press("Named(Escape)", ctx(true, false, None, false)), WindowKeyEffect::CloseTray);
}

#[test]
fn letters_switch_views_and_mark_favourites() {
    let mut k = Keys::new();
    assert_eq!(k.press("Character(\"f\")", ctx(true, false, None, false)), WindowKeyEffect::ToggleFavorite);
    assert_eq!(k.press("Character(\"A\")", ctx(true, false, None, false)), WindowKeyEffect::ShowAggregated);
    assert_eq!(k.press("Character(\"v\")", ctx(true, false, None, false)), WindowKeyEffect::ShowFavorites);
    assert_eq!(k.press("Character(\"x\")", ctx(true, false, None, false)), WindowKeyEffect::Nothing);
}

#[test]
fn quickjump_types_a_label_and_triggers_its_row() {
    let mut k = Keys::new();
    assert_eq!(k.press("Character(\"g\")", ctx(true, false, None, false)), WindowKeyEffect::Nothing);
    assert!(k.active);
    assert_eq!(k.press("Character(\"s\")", ctx(true, false, None, false)), WindowKeyEffect::TriggerRow(5));
    assert!(!k.active);
    assert!(k.input.is_empty());

    assert_eq!(k.press("Character(\"g\")", ctx(true, false, None, false)), WindowKeyEffect::Nothing);
    assert!(k.active);
    assert_eq!(k.press("Named(Escape)", ctx(true, false, None, false)), WindowKeyEffect::Nothing);
    assert!(!k.active);
}

#[test]
fn shift_with_a_digit_opens_a_tray_entry() {
    let mut k = Keys::new();
    assert_eq!(k.press("Named(Shift)", ctx(false, false, None, false)), WindowKeyEffect::Nothing);
    assert!(k.shift);
    assert_eq!(k.press("Character(\"2\")", ctx(false, false, None, false)), WindowKeyEffect::PressIcon(1));
    assert_eq!(k.press("Character(\"9\")", ctx(false, false, None, false)), WindowKeyEffect::Nothing);
    let labels: Vec<String> = Vec::new();
    let targets: Vec<usize> = Vec::new();
    let mut shift = true;
    let mut active = false;
    let mut input = String::new();
    let released = window_key("Named(Shift)", false, true, ctx(false, false, None, true), &mut shift, &mut active, &mut input, "asd", &labels, &targets);
    assert_eq!(released, WindowKeyEffect::Nothing);
    assert!(!shift);
}

#[test]
fn raw_shift_keys_set_the_shift_state() {
    assert!(global_shift_state("KEY_LEFTSHIFT", 1, false));
    assert!(global_shift_state("KEY_RIGHTSHIFT", 2, false));
    assert!(!global_shift_state("KEY_LEFTSHIFT", 0, true));
    assert!(global_shift_state("KEY_A", 0, true));
}
