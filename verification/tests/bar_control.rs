use unilii::bar_control::{resolve_module_name, restart_required, serialized_changed, BarControlState};

fn modules() -> Vec<String> {
    ["clock", "battery"].into_iter().map(str::to_string).collect()
}

#[test]
fn toggle_and_focus_are_case_insensitive_and_deterministic() {
    let mut state = BarControlState::default();
    assert!(!state.toggle_module(&modules(), "CLOCK").unwrap());
    assert!(state.is_hidden("clock"));
    assert_eq!(state.focus_module(&modules(), "Clock").unwrap(), "clock");
    assert!(!state.is_hidden("clock"));
    assert!(state.is_focused("clock"));
}

#[test]
fn unknown_module_does_not_mutate_state() {
    let mut state = BarControlState::default();
    assert!(state.toggle_module(&modules(), "weather").is_err());
    assert!(state.status().is_none());
}

#[test]
fn newer_reload_generation_supersedes_older_result() {
    let mut state = BarControlState::default();
    let first = state.begin_reload();
    let second = state.begin_reload();
    assert!(!state.is_current_reload(first));
    assert!(state.is_current_reload(second));
}

#[test]
fn recovery_actions_restore_visibility_and_focus() {
    let mut state = BarControlState::default();
    state.toggle_module(&modules(), "clock").unwrap();
    state.focus_module(&modules(), "battery").unwrap();
    assert_eq!(state.show_all_modules(), 1);
    assert!(!state.is_hidden("clock"));
    assert!(state.clear_module_focus());
    assert!(!state.is_focused("battery"));
}

#[test]
fn toggle_messages_and_double_toggle() {
    let mut state = BarControlState::default();
    assert_eq!(state.toggle_module(&modules(), " battery ").unwrap(), false);
    assert_eq!(state.status(), Some("Hidden battery"));
    assert_eq!(state.toggle_module(&modules(), "BATTERY").unwrap(), true);
    assert_eq!(state.status(), Some("Shown battery"));
    assert!(!state.is_hidden("battery"));
}

#[test]
fn hiding_the_focused_module_clears_focus() {
    let mut state = BarControlState::default();
    state.focus_module(&modules(), "clock").unwrap();
    assert_eq!(state.status(), Some("Focused clock"));
    assert!(!state.toggle_module(&modules(), "clock").unwrap());
    assert!(!state.is_focused("clock"));
}

#[test]
fn show_all_reports_counts() {
    let mut state = BarControlState::default();
    assert_eq!(state.show_all_modules(), 0);
    assert_eq!(state.status(), Some("All modules are already visible"));
    state.toggle_module(&modules(), "clock").unwrap();
    state.toggle_module(&modules(), "battery").unwrap();
    assert_eq!(state.show_all_modules(), 2);
    assert_eq!(state.status(), Some("Shown 2 hidden module(s)"));
    assert!(!state.clear_module_focus());
    assert_eq!(state.status(), Some("No module is focused"));
}

#[test]
fn resolve_errors_name_the_trimmed_request() {
    assert_eq!(resolve_module_name(&modules(), "   "), Err("module name must not be empty".to_string()));
    assert_eq!(resolve_module_name(&modules(), " weather "), Err("unknown module 'weather'".to_string()));
    assert_eq!(resolve_module_name(&modules(), "Battery"), Ok("battery".to_string()));
}

#[test]
fn status_can_be_set_and_dismissed() {
    let mut state = BarControlState::default();
    state.set_status("reloading".to_string());
    assert_eq!(state.status(), Some("reloading"));
    state.dismiss_status();
    assert!(state.status().is_none());
    assert_eq!(state.begin_reload(), 1);
    assert!(state.is_current_reload(1));
}

#[test]
fn reload_lists_what_needs_a_restart() {
    assert_eq!(restart_required(true, false, true), vec!["panel geometry", "embedded hotkeys"]);
    assert_eq!(restart_required(false, true, false), vec!["module topology"]);
    assert!(restart_required(false, false, false).is_empty());
    let same: Result<String, ()> = Ok("a = 1".to_string());
    let other: Result<String, ()> = Ok("a = 2".to_string());
    assert!(!serialized_changed(&same, &same.clone()));
    assert!(serialized_changed(&same, &other));
    assert!(serialized_changed(&same, &Err(())));
}

#[test]
fn a_focused_module_is_never_hidden() {
    let available = vec!["clock".to_string(), "battery".to_string()];
    let mut s = unilii::bar_control::BarControlState::default();
    assert!(s.toggle_module(&available, "clock").is_ok());
    assert!(s.is_hidden("clock"));
    assert_eq!(s.focus_module(&available, "CLOCK"), Ok("clock".to_string()));
    assert!(s.is_focused("clock") && !s.is_hidden("clock"));
    assert_eq!(s.toggle_module(&available, "clock"), Ok(false));
    assert!(s.is_hidden("clock") && !s.is_focused("clock"));
}
