//! Tray actions that arrive from the hotkey daemon: what each one does to
//! the tray popup, given what the popup looks like when it arrives.

use vstd::prelude::*;
use crate::tray_keys::{evdev_tray_key, evdev_tray_outcome, EvdevTrayContext, EvdevTrayOutcome};

verus! {

/// A tray action sent by the hotkey daemon.
#[derive(Debug, Clone, PartialEq, Eq)]
pub enum TrayDaemonAction {
    OpenMenu,
    CloseMenu,
    ToggleMenu,
    ShowAggregated,
    ShowFavorites,
    FocusNext,
    FocusPrevious,
    ActivateSelected,
    /// Open the tray entry at this position.
    OpenIndex(usize),
    /// Reload the data of the open specialised view.
    RefreshStatus,
    /// An action the bar does not know.
    Raw(String),
}

/// The specialised view to reload, by the application it belongs to.
#[derive(Debug, Clone, PartialEq, Eq)]
pub enum RefreshTarget {
    Network(String),
    Mount(String),
    Calendar(String),
}

/// What the tray looks like when a daemon action arrives.
#[derive(Debug, Clone, PartialEq, Eq)]
pub struct TrayDaemonContext {
    /// Whether the popup window exists.
    pub window_open: bool,
    /// The tray seen by the key handler; `keys.tray_open` tells whether
    /// the popup has a menu state.
    pub keys: EvdevTrayContext,
    /// The view that a refresh reloads, when a specialised view is shown.
    pub refresh: Option<RefreshTarget>,
}

/// What the bar does for a daemon action.
#[derive(Debug, Clone, PartialEq, Eq)]
pub enum TrayDaemonEffect {
    /// Show the existing popup and grow the window.
    ShowPanel,
    /// Act as if the tray entry with this key had been clicked.
    PressIcon(String),
    /// Nothing can be opened: there is no tray entry.
    NoIcons,
    /// Hide the popup, if there is one, and shrink the window.
    HidePanel,
    /// Create the popup if needed, show every application's menu in one
    /// list, and grow the window.
    ShowAggregated,
    /// Create the popup if needed, show the favourites, and grow the window.
    ShowFavorites,
    /// What the matching raw key does.
    Key(EvdevTrayOutcome),
    /// The position names no tray entry.
    IndexOutOfRange { index: usize, icons: usize },
    /// Reload this view.
    Refresh(RefreshTarget),
    /// The shown view has nothing to reload.
    RefreshUnavailable,
    /// The action is not supported.
    Unsupported(String),
}

/// Opening the menu: show the existing popup, or else click the first tray
/// entry, or else there is nothing to open.
pub open spec fn opens(r: TrayDaemonEffect, c: TrayDaemonContext, keys: Seq<String>) -> bool {
    if c.keys.tray_open {
        r == TrayDaemonEffect::ShowPanel
    } else if keys.len() > 0 {
        r == TrayDaemonEffect::PressIcon(keys[0])
    } else {
        r == TrayDaemonEffect::NoIcons
    }
}

/// What the bar does for each daemon action. Focus and activation act as
/// the Down, Up and Enter keys do.
pub open spec fn daemon_effect(r: TrayDaemonEffect, c: TrayDaemonContext, keys: Seq<String>, action: TrayDaemonAction) -> bool {
    match action {
        TrayDaemonAction::OpenMenu => opens(r, c, keys),
        TrayDaemonAction::CloseMenu => r == TrayDaemonEffect::HidePanel,
        TrayDaemonAction::ToggleMenu => if c.window_open {
            r == TrayDaemonEffect::HidePanel
        } else {
            opens(r, c, keys)
        },
        TrayDaemonAction::ShowAggregated => r == TrayDaemonEffect::ShowAggregated,
        TrayDaemonAction::ShowFavorites => r == TrayDaemonEffect::ShowFavorites,
        TrayDaemonAction::FocusNext => r == TrayDaemonEffect::Key(evdev_tray_outcome("KEY_DOWN"@, 1, c.keys)),
        TrayDaemonAction::FocusPrevious => r == TrayDaemonEffect::Key(evdev_tray_outcome("KEY_UP"@, 1, c.keys)),
        TrayDaemonAction::ActivateSelected => r == TrayDaemonEffect::Key(evdev_tray_outcome("KEY_ENTER"@, 1, c.keys)),
        TrayDaemonAction::OpenIndex(index) => if index < keys.len() {
            r == TrayDaemonEffect::PressIcon(keys[index as int])
        } else {
            r == (TrayDaemonEffect::IndexOutOfRange { index, icons: keys.len() as usize })
        },
        TrayDaemonAction::RefreshStatus => match c.refresh {
            Some(t) => r == TrayDaemonEffect::Refresh(t),
            None => r == TrayDaemonEffect::RefreshUnavailable,
        },
        TrayDaemonAction::Raw(command) => r == TrayDaemonEffect::Unsupported(command),
    }
}

fn open_menu(c: &TrayDaemonContext, icon_keys: &Vec<String>) -> (r: TrayDaemonEffect)
    ensures
        opens(r, *c, icon_keys@),
{
    if c.keys.tray_open {
        TrayDaemonEffect::ShowPanel
    } else if icon_keys.len() > 0 {
        TrayDaemonEffect::PressIcon(icon_keys[0].clone())
    } else {
        TrayDaemonEffect::NoIcons
    }
}

/// What the bar does for a tray action from the hotkey daemon, given the
/// tray and the keys of the tray entries in bar order.
pub fn tray_daemon_action(c: TrayDaemonContext, icon_keys: &Vec<String>, action: TrayDaemonAction) -> (r: TrayDaemonEffect)
    ensures
        daemon_effect(r, c, icon_keys@, action),
{
    match action {
        TrayDaemonAction::OpenMenu => open_menu(&c, icon_keys),
        TrayDaemonAction::CloseMenu => TrayDaemonEffect::HidePanel,
        TrayDaemonAction::ToggleMenu => {
            if c.window_open {
                TrayDaemonEffect::HidePanel
            } else {
                open_menu(&c, icon_keys)
            }
        },
        TrayDaemonAction::ShowAggregated => TrayDaemonEffect::ShowAggregated,
        TrayDaemonAction::ShowFavorites => TrayDaemonEffect::ShowFavorites,
        TrayDaemonAction::FocusNext => TrayDaemonEffect::Key(evdev_tray_key("KEY_DOWN", 1, c.keys)),
        TrayDaemonAction::FocusPrevious => TrayDaemonEffect::Key(evdev_tray_key("KEY_UP", 1, c.keys)),
        TrayDaemonAction::ActivateSelected => TrayDaemonEffect::Key(evdev_tray_key("KEY_ENTER", 1, c.keys)),
        TrayDaemonAction::OpenIndex(index) => {
            if index < icon_keys.len() {
                TrayDaemonEffect::PressIcon(icon_keys[index].clone())
            } else {
                TrayDaemonEffect::IndexOutOfRange { index, icons: icon_keys.len() }
            }
        },
        TrayDaemonAction::RefreshStatus => match c.refresh {
            Some(t) => TrayDaemonEffect::Refresh(t),
            None => TrayDaemonEffect::RefreshUnavailable,
        },
        TrayDaemonAction::Raw(command) => TrayDaemonEffect::Unsupported(command),
    }
}

/// Toggling the menu while the popup window is open hides it; toggling it
/// while no window is open does what opening it does.
pub proof fn toggle_is_close_or_open(r: TrayDaemonEffect, c: TrayDaemonContext, keys: Seq<String>)
    requires
        daemon_effect(r, c, keys, TrayDaemonAction::ToggleMenu),
    ensures
        c.window_open ==> daemon_effect(r, c, keys, TrayDaemonAction::CloseMenu),
        !c.window_open ==> daemon_effect(r, c, keys, TrayDaemonAction::OpenMenu),
{
}

/// With the popup open, moving the focus lands on the next or previous
/// selectable row, and activating triggers the selected row's action when
/// there is one.
pub proof fn focus_moves_the_selection(r: TrayDaemonEffect, c: TrayDaemonContext, keys: Seq<String>, action: TrayDaemonAction)
    requires
        c.keys.tray_open,
        action == TrayDaemonAction::FocusNext || action == TrayDaemonAction::FocusPrevious
            || action == TrayDaemonAction::ActivateSelected,
        daemon_effect(r, c, keys, action),
    ensures
        action == TrayDaemonAction::FocusNext ==> r == TrayDaemonEffect::Key(EvdevTrayOutcome::MoveSelection { forward: true }),
        action == TrayDaemonAction::FocusPrevious ==> r == TrayDaemonEffect::Key(EvdevTrayOutcome::MoveSelection { forward: false }),
        action == TrayDaemonAction::ActivateSelected ==> r == TrayDaemonEffect::Key(
            if c.keys.selected_action is Some { EvdevTrayOutcome::TriggerSelected } else { EvdevTrayOutcome::Handled },
        ),
{
    reveal_strlit("KEY_DOWN");
    reveal_strlit("KEY_UP");
    reveal_strlit("KEY_ENTER");
    reveal_strlit("KEY_ESC");
    reveal_strlit("KEY_TAB");
    reveal_strlit("KEY_LEFT");
    reveal_strlit("KEY_RIGHT");
    assert("KEY_DOWN"@.len() != "KEY_ESC"@.len());
    assert("KEY_UP"@.len() != "KEY_ESC"@.len() && "KEY_UP"@.len() != "KEY_DOWN"@.len() && "KEY_UP"@.len() != "KEY_TAB"@.len());
    assert("KEY_ENTER"@.len() != "KEY_ESC"@.len() && "KEY_ENTER"@.len() != "KEY_DOWN"@.len());
    assert("KEY_ENTER"@.len() != "KEY_UP"@.len() && "KEY_ENTER"@.len() != "KEY_LEFT"@.len());
    assert("KEY_ENTER"@[4] != "KEY_RIGHT"@[4]);
}

} // verus!
