use unilii::tray_daemon::{tray_daemon_action, RefreshTarget, TrayDaemonAction, TrayDaemonContext, TrayDaemonEffect};
use unilii::tray_keys::{EvdevTrayContext, EvdevTrayOutcome};

fn context(window_open: bool, tray_open: bool, selected: Option<bool>) -> TrayDaemonContext {
    TrayDaemonContext {
        window_open,
        keys: EvdevTrayContext {
            tray_open,
            submenu_open: false,
            selected_action: selected,
            shift_held: false,
            icon_count: 2,
        },
        refresh: None,
    }
}

fn keys() -> Vec<String> {
    vec!["nm-applet".to_string(), "blueman".to_string()]
}

#[test]
fn open_menu_shows_existing_popup_or_clicks_first_entry() {
    assert_eq!(tray_daemon_action(context(false, true, None), &keys(), TrayDaemonAction::OpenMenu), TrayDaemonEffect::ShowPanel);
    assert_eq!(
        tray_daemon_action(context(false, false, None), &keys(), TrayDaemonAction::OpenMenu),
        TrayDaemonEffect::PressIcon("nm-applet".to_string())
    );
    assert_eq!(tray_daemon_action(context(false, false, None), &Vec::new(), TrayDaemonAction::OpenMenu), TrayDaemonEffect::NoIcons);
}

#[test]
fn toggle_menu_closes_an_open_window_and_opens_otherwise() {
    assert_eq!(tray_daemon_action(context(true, true, None), &keys(), TrayDaemonAction::ToggleMenu), TrayDaemonEffect::HidePanel);
    assert_eq!(
        tray_daemon_action(context(false, false, None), &keys(), TrayDaemonAction::ToggleMenu),
        TrayDaemonEffect::PressIcon("nm-applet".to_string())
    );
    assert_eq!(tray_daemon_action(context(false, true, None), &keys(), TrayDaemonAction::CloseMenu), TrayDaemonEffect::HidePanel);
}

#[test]
fn focus_and_activate_act_as_the_arrow_and_enter_keys() {
    assert_eq!(
        tray_daemon_action(context(true, true, None), &keys(), TrayDaemonAction::FocusNext),
        TrayDaemonEffect::Key(EvdevTrayOutcome::MoveSelection { forward: true })
    );
    assert_eq!(
        tray_daemon_action(context(true, true, None), &keys(), TrayDaemonAction::FocusPrevious),
        TrayDaemonEffect::Key(EvdevTrayOutcome::MoveSelection { forward: false })
    );
    assert_eq!(
        tray_daemon_action(context(true, true, Some(false)), &keys(), TrayDaemonAction::ActivateSelected),
        TrayDaemonEffect::Key(EvdevTrayOutcome::TriggerSelected)
    );
    assert_eq!(
        tray_daemon_action(context(true, true, None), &keys(), TrayDaemonAction::ActivateSelected),
        TrayDaemonEffect::Key(EvdevTrayOutcome::Handled)
    );
    assert_eq!(
        tray_daemon_action(context(false, false, None), &keys(), TrayDaemonAction::FocusNext),
        TrayDaemonEffect::Key(EvdevTrayOutcome::NotHandled)
    );
}

#[test]
fn open_index_clicks_that_entry_or_reports_the_range() {
    assert_eq!(
        tray_daemon_action(context(false, false, None), &keys(), TrayDaemonAction::OpenIndex(1)),
        TrayDaemonEffect::PressIcon("blueman".to_string())
    );
    assert_eq!(
        tray_daemon_action(context(false, false, None), &keys(), TrayDaemonAction::OpenIndex(5)),
        TrayDaemonEffect::IndexOutOfRange { index: 5, icons: 2 }
    );
}

#[test]
fn refresh_reloads_the_shown_specialised_view() {
    let mut c = context(true, true, None);
    assert_eq!(tray_daemon_action(c.clone(), &keys(), TrayDaemonAction::RefreshStatus), TrayDaemonEffect::RefreshUnavailable);
    c.refresh = Some(RefreshTarget::Mount("system".to_string()));
    assert_eq!(
        tray_daemon_action(c, &keys(), TrayDaemonAction::RefreshStatus),
        TrayDaemonEffect::Refresh(RefreshTarget::Mount("system".to_string()))
    );
    assert_eq!(
        tray_daemon_action(context(true, true, None), &keys(), TrayDaemonAction::Raw("spin".to_string())),
        TrayDaemonEffect::Unsupported("spin".to_string())
    );
    assert_eq!(tray_daemon_action(context(true, true, None), &keys(), TrayDaemonAction::ShowAggregated), TrayDaemonEffect::ShowAggregated);
    assert_eq!(tray_daemon_action(context(true, true, None), &keys(), TrayDaemonAction::ShowFavorites), TrayDaemonEffect::ShowFavorites);
}
