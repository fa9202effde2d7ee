//! Decisions the bar takes on tray messages: what a triggered menu row
//! does, whether the open popup survives a change of the tray entries, and
//! which view a finished command reloads.

use vstd::prelude::*;
use crate::text::str_eq;
use crate::tray_core::{TrayIcon, TrayMenuAction};
use crate::tray_daemon::RefreshTarget;

verus! {

/// The specialised view that is shown, by kind.
#[derive(Debug, Clone, Copy, PartialEq, Eq, Structural)]
pub enum SpecialViewKind {
    Network,
    Mount,
    Calendar,
}

/// The actions a status notifier entry itself understands.
#[derive(Debug, Clone, PartialEq, Eq)]
pub enum EntryAction {
    Activate,
    ContextMenu,
    SecondaryActivate,
    SpawnCommand(String),
}

/// What triggering a menu row does, apart from closing the popup.
#[derive(Debug, Clone, PartialEq, Eq)]
pub enum TriggerEffect {
    Nothing,
    /// A row of the system menu ran this command: an internal action of
    /// the system menu when it names one, else a shell command.
    SystemCommand(String),
    /// Ask the entry's menu over D-Bus to handle this event on this item.
    DbusEvent { item_id: i32, event_id: String },
    /// Reload this specialised view.
    Refresh(RefreshTarget),
    /// Turn Wi-Fi on or off for the entry with this key.
    ToggleNetwork(String),
    /// Run this command inside the specialised view of the entry with this
    /// key.
    SpawnInView { key: String, command: String },
    /// Ask the entry with this key to perform this action.
    Invoke { key: String, action: EntryAction },
}

/// The first tray entry with this key.
pub open spec fn entry_with_key(icons: Seq<TrayIcon>, key: Seq<char>) -> Option<TrayIcon>
    decreases icons.len(),
{
    if icons.len() == 0 {
        None
    } else if icons[0].key@ == key {
        Some(icons[0])
    } else {
        entry_with_key(icons.drop_first(), key)
    }
}

/// The action an entry is asked for: its own actions are kept, a command
/// is passed on, and every other menu action becomes a plain activation.
pub open spec fn entry_action(a: TrayMenuAction) -> EntryAction {
    match a {
        TrayMenuAction::Activate => EntryAction::Activate,
        TrayMenuAction::ContextMenu => EntryAction::ContextMenu,
        TrayMenuAction::SecondaryActivate => EntryAction::SecondaryActivate,
        TrayMenuAction::SpawnCommand(c) => EntryAction::SpawnCommand(c),
        _ => EntryAction::Activate,
    }
}

/// What a command row of an entry does: the refresh and Wi-Fi commands of
/// the specialised views are handled by the bar; another command inside
/// the entry's own specialised view runs there; anything else is passed to
/// the entry.
pub open spec fn command_effect(icon: TrayIcon, command: String, special_app: Option<Seq<char>>) -> TriggerEffect {
    if command@ == "mount:refresh"@ {
        TriggerEffect::Refresh(RefreshTarget::Mount(icon.key))
    } else if command@ == "calendar:refresh"@ {
        TriggerEffect::Refresh(RefreshTarget::Calendar(icon.key))
    } else if command@ == "nmcli device wifi rescan"@ {
        TriggerEffect::Refresh(RefreshTarget::Network(icon.key))
    } else if command@ == "nmcli radio wifi on"@ || command@ == "nmcli radio wifi off"@ {
        TriggerEffect::ToggleNetwork(icon.key)
    } else if special_app == Some(icon.id@) {
        TriggerEffect::SpawnInView { key: icon.key, command }
    } else {
        TriggerEffect::Invoke { key: icon.key, action: EntryAction::SpawnCommand(command) }
    }
}

/// What triggering a row does, and whether the popup closes. On the
/// system menu a command row runs its command and other rows do nothing.
/// On another entry, found by its key: a D-Bus row sends its event and
/// closes; a command row does what `command_effect` says, and closes only
/// when it is passed to the entry and the popup is open; any other row asks
/// the entry for its action and closes an open popup. Without such an
/// entry, an open popup closes.
pub open spec fn trigger_effect(
    system_menu: bool,
    icons: Seq<TrayIcon>,
    key: Seq<char>,
    action: TrayMenuAction,
    special_app: Option<Seq<char>>,
    tray_open: bool,
) -> (TriggerEffect, bool) {
    if system_menu {
        match action {
            TrayMenuAction::SpawnCommand(c) => (TriggerEffect::SystemCommand(c), false),
            _ => (TriggerEffect::Nothing, false),
        }
    } else {
        match entry_with_key(icons, key) {
            Some(icon) => match action {
                TrayMenuAction::DbusMenuAction { item_id, event_id } => (TriggerEffect::DbusEvent { item_id, event_id }, true),
                TrayMenuAction::SpawnCommand(c) => {
                    let e = command_effect(icon, c, special_app);
                    (e, tray_open && e is Invoke)
                },
                _ => (TriggerEffect::Invoke { key: icon.key, action: entry_action(action) }, tray_open),
            },
            None => (TriggerEffect::Nothing, tray_open),
        }
    }
}

fn find_entry<'a>(icons: &'a Vec<TrayIcon>, key: &str) -> (r: Option<&'a TrayIcon>)
    ensures
        match r {
            Some(i) => entry_with_key(icons@, key@) == Some(*i),
            None => entry_with_key(icons@, key@) is None,
        },
{
    let mut k: usize = 0;
    assert(icons@.skip(0) =~= icons@);
    while k < icons.len()
        invariant
            k <= icons@.len(),
            entry_with_key(icons@, key@) == entry_with_key(icons@.skip(k as int), key@),
        decreases icons@.len() - k,
    {
        assert(icons@.skip(k as int)[0] == icons@[k as int]);
        assert(icons@.skip(k as int).drop_first() =~= icons@.skip(k + 1));
        if str_eq(icons[k].key.as_str(), key) {
            return Some(&icons[k]);
        }
        k = k + 1;
    }
    None
}

/// What triggering a menu row does, and whether the popup closes.
pub fn menu_triggered(
    system_menu: bool,
    icons: &Vec<TrayIcon>,
    key: &str,
    action: TrayMenuAction,
    special_app: Option<&str>,
    tray_open: bool,
) -> (r: (TriggerEffect, bool))
    ensures
        r == trigger_effect(
            system_menu,
            icons@,
            key@,
            action,
            match special_app {
                Some(a) => Some(a@),
                None => None,
            },
            tray_open,
        ),
{
    if system_menu {
        return match action {
            TrayMenuAction::SpawnCommand(c) => (TriggerEffect::SystemCommand(c), false),
            _ => (TriggerEffect::Nothing, false),
        };
    }
    match find_entry(icons, key) {
        Some(icon) => match action {
            TrayMenuAction::DbusMenuAction { item_id, event_id } => (TriggerEffect::DbusEvent { item_id, event_id }, true),
            TrayMenuAction::SpawnCommand(c) => {
                let icon_key = icon.key.clone();
                let e = if str_eq(c.as_str(), "mount:refresh") {
                    TriggerEffect::Refresh(RefreshTarget::Mount(icon_key))
                } else if str_eq(c.as_str(), "calendar:refresh") {
                    TriggerEffect::Refresh(RefreshTarget::Calendar(icon_key))
                } else if str_eq(c.as_str(), "nmcli device wifi rescan") {
                    TriggerEffect::Refresh(RefreshTarget::Network(icon_key))
                } else if str_eq(c.as_str(), "nmcli radio wifi on") || str_eq(c.as_str(), "nmcli radio wifi off") {
                    TriggerEffect::ToggleNetwork(icon_key)
                } else if match special_app {
                    Some(a) => str_eq(a, icon.id.as_str()),
                    None => false,
                } {
                    TriggerEffect::SpawnInView { key: icon_key, command: c }
                } else {
                    TriggerEffect::Invoke { key: icon_key, action: EntryAction::SpawnCommand(c) }
                };
                let close = tray_open && match e {
                    TriggerEffect::Invoke { .. } => true,
                    _ => false,
                };
                (e, close)
            },
            other => {
                let a = match other {
                    TrayMenuAction::Activate => EntryAction::Activate,
                    TrayMenuAction::ContextMenu => EntryAction::ContextMenu,
                    TrayMenuAction::SecondaryActivate => EntryAction::SecondaryActivate,
                    _ => EntryAction::Activate,
                };
                (TriggerEffect::Invoke { key: icon.key.clone(), action: a }, tray_open)
            },
        },
        None => (TriggerEffect::Nothing, tray_open),
    }
}

// == Tray entries changing under an open popup ==

/// Whether the popup showing the application `app_id` stays open when the
/// tray entries become `icons`: the system menu always stays; another
/// application stays while some entry has its id.
pub open spec fn view_survives(system_menu: bool, app_id: Seq<char>, icons: Seq<TrayIcon>) -> bool {
    system_menu || exists|i: int| 0 <= i < icons.len() && (#[trigger] icons[i]).id@ == app_id
}

/// Whether the popup showing an application stays open when the tray
/// entries change.
pub fn view_survives_icons(system_menu: bool, app_id: &str, icons: &Vec<TrayIcon>) -> (r: bool)
    ensures
        r == view_survives(system_menu, app_id@, icons@),
{
    if system_menu {
        return true;
    }
    let mut k: usize = 0;
    while k < icons.len()
        invariant
            k <= icons@.len(),
            forall|j: int| 0 <= j < k ==> (#[trigger] icons@[j]).id@ != app_id@,
        decreases icons@.len() - k,
    {
        if str_eq(icons[k].id.as_str(), app_id) {
            return true;
        }
        k = k + 1;
    }
    false
}

/// The view a finished command of a specialised view reloads: the view
/// shown when the command succeeded; nothing when it failed.
pub fn refresh_after_command(succeeded: bool, shown: Option<SpecialViewKind>, key: String) -> (r: Option<RefreshTarget>)
    ensures
        r == if succeeded {
            match shown {
                Some(SpecialViewKind::Network) => Some(RefreshTarget::Network(key)),
                Some(SpecialViewKind::Mount) => Some(RefreshTarget::Mount(key)),
                Some(SpecialViewKind::Calendar) => Some(RefreshTarget::Calendar(key)),
                None => None,
            }
        } else {
            None
        },
{
    if !succeeded {
        return None;
    }
    match shown {
        Some(SpecialViewKind::Network) => Some(RefreshTarget::Network(key)),
        Some(SpecialViewKind::Mount) => Some(RefreshTarget::Mount(key)),
        Some(SpecialViewKind::Calendar) => Some(RefreshTarget::Calendar(key)),
        None => None,
    }
}

} // verus!
