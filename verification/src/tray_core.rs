//! Core data structures of the enhanced tray: icons, hierarchical menu items,
//! the per-application menu tree and the view states of the tray popup.

use vstd::prelude::*;

verus! {

/// Point in time at which an application's menu was last refreshed.
#[verifier::external_type_specification]
#[verifier::external_body]
pub struct ExSystemTime(std::time::SystemTime);

/// The current time.
///
/// Trusted: calls `SystemTime::now`; nothing is claimed of the result.
#[verifier::external_body]
pub(crate) fn now() -> std::time::SystemTime {
    std::time::SystemTime::now()
}

/// Copying a point in time.
///
/// Trusted: `SystemTime` is a `Copy` type, so its `clone` returns the same value.
pub assume_specification[ <std::time::SystemTime as Clone>::clone ](t: &std::time::SystemTime) -> (r: std::time::SystemTime)
    ensures
        r == *t,
;

/// Comparing two points in time.
///
/// Trusted: calls `SystemTime`'s `eq`; nothing is claimed of the result.
pub assume_specification[ <std::time::SystemTime as PartialEq>::eq ](a: &std::time::SystemTime, b: &std::time::SystemTime) -> bool;

/// Tray icon with menu capabilities.
#[derive(Debug, Clone, PartialEq, Eq)]
pub struct TrayIcon {
    pub key: String,
    pub service: String,
    pub path: String,
    pub id: String,
    pub title: String,
    pub icon_name: Option<String>,
    pub status: String,
    pub has_menu: bool,
    pub menu_object_path: Option<String>,
}

/// Actions that can be performed on tray menu items.
#[derive(Debug, Clone, PartialEq, Eq)]
pub enum TrayMenuAction {
    Activate,
    ContextMenu,
    SecondaryActivate,
    SpawnCommand(String),
    DbusMenuAction { item_id: i32, event_id: String },
    NavigateToApp(String),
    ShowAggregated,
    ShowFavorites,
    ToggleFavorite(String),
}

/// Single menu item with hierarchical structure.
#[derive(Debug, PartialEq, Eq)]
pub struct TrayMenuItem {
    pub id: String,
    pub label: String,
    pub action: TrayMenuAction,
    pub icon: Option<String>,
    pub submenu: Vec<TrayMenuItem>,
    pub enabled: bool,
    pub visible: bool,
    pub checkable: bool,
    pub checked: bool,
    pub shortcut: Option<String>,
    pub is_separator: bool,
    pub app_id: String,
    pub full_path: String,
}

/// Abstract value of an optional string.
pub open spec fn opt_str(o: Option<String>) -> Option<Seq<char>> {
    match o {
        Some(s) => Some(s@),
        None => None,
    }
}

/// Abstract value of a menu action.
pub enum ActionView {
    Activate,
    ContextMenu,
    SecondaryActivate,
    SpawnCommand(Seq<char>),
    DbusMenuAction { item_id: i32, event_id: Seq<char> },
    NavigateToApp(Seq<char>),
    ShowAggregated,
    ShowFavorites,
    ToggleFavorite(Seq<char>),
}

pub open spec fn action_view(a: TrayMenuAction) -> ActionView {
    match a {
        TrayMenuAction::Activate => ActionView::Activate,
        TrayMenuAction::ContextMenu => ActionView::ContextMenu,
        TrayMenuAction::SecondaryActivate => ActionView::SecondaryActivate,
        TrayMenuAction::SpawnCommand(c) => ActionView::SpawnCommand(c@),
        TrayMenuAction::DbusMenuAction { item_id, event_id } =>
            ActionView::DbusMenuAction { item_id, event_id: event_id@ },
        TrayMenuAction::NavigateToApp(a) => ActionView::NavigateToApp(a@),
        TrayMenuAction::ShowAggregated => ActionView::ShowAggregated,
        TrayMenuAction::ShowFavorites => ActionView::ShowFavorites,
        TrayMenuAction::ToggleFavorite(i) => ActionView::ToggleFavorite(i@),
    }
}

/// Abstract value of a menu item: every string by its characters.
pub struct MenuItemView {
    pub id: Seq<char>,
    pub label: Seq<char>,
    pub action: ActionView,
    pub icon: Option<Seq<char>>,
    pub submenu: Seq<MenuItemView>,
    pub enabled: bool,
    pub visible: bool,
    pub checkable: bool,
    pub checked: bool,
    pub shortcut: Option<Seq<char>>,
    pub is_separator: bool,
    pub app_id: Seq<char>,
    pub full_path: Seq<char>,
}

pub open spec fn item_view(i: TrayMenuItem) -> MenuItemView
    decreases i, 1int,
{
    MenuItemView {
        id: i.id@,
        label: i.label@,
        action: action_view(i.action),
        icon: opt_str(i.icon),
        submenu: items_view(i.submenu@),
        enabled: i.enabled,
        visible: i.visible,
        checkable: i.checkable,
        checked: i.checked,
        shortcut: opt_str(i.shortcut),
        is_separator: i.is_separator,
        app_id: i.app_id@,
        full_path: i.full_path@,
    }
}

pub open spec fn items_view(items: Seq<TrayMenuItem>) -> Seq<MenuItemView>
    decreases items, 0int,
{
    if items.len() == 0 {
        Seq::empty()
    } else {
        seq![item_view(items[0])] + items_view(items.drop_first())
    }
}


pub proof fn lemma_items_view_len(items: Seq<TrayMenuItem>)
    ensures
        items_view(items).len() == items.len(),
    decreases items.len(),
{
    if items.len() > 0 {
        lemma_items_view_len(items.drop_first());
    }
}

pub proof fn lemma_items_view_index(items: Seq<TrayMenuItem>, k: int)
    requires
        0 <= k < items.len(),
    ensures
        items_view(items)[k] == item_view(items[k]),
    decreases items.len(),
{
    lemma_items_view_len(items.drop_first());
    if k > 0 {
        lemma_items_view_index(items.drop_first(), k - 1);
    }
}

/// The view of a sequence of items is the item-wise view.
pub proof fn lemma_items_view(items: Seq<TrayMenuItem>)
    ensures
        items_view(items).len() == items.len(),
        forall|k: int| 0 <= k < items.len() ==> #[trigger] items_view(items)[k] == item_view(items[k]),
{
    lemma_items_view_len(items);
    assert forall|k: int| 0 <= k < items.len() implies #[trigger] items_view(items)[k] == item_view(items[k]) by {
        lemma_items_view_index(items, k);
    }
}

/// Two item sequences with item-wise equal views have equal views.
pub proof fn lemma_items_view_ext(a: Seq<TrayMenuItem>, b: Seq<TrayMenuItem>)
    requires
        a.len() == b.len(),
        forall|k: int| 0 <= k < a.len() ==> item_view(#[trigger] a[k]) == item_view(b[k]),
    ensures
        items_view(a) == items_view(b),
{
    lemma_items_view(a);
    lemma_items_view(b);
    assert(items_view(a) =~= items_view(b));
}

/// The view of an extended sequence extends the view.
pub proof fn lemma_items_view_push(a: Seq<TrayMenuItem>, x: TrayMenuItem)
    ensures
        items_view(a.push(x)) == items_view(a).push(item_view(x)),
{
    lemma_items_view(a);
    lemma_items_view(a.push(x));
    assert(items_view(a.push(x)) =~= items_view(a).push(item_view(x)));
}

pub proof fn lemma_items_view_remove(a: Seq<TrayMenuItem>, i: int)
    requires
        0 <= i < a.len(),
    ensures
        items_view(a.remove(i)) == items_view(a).remove(i),
{
    lemma_items_view(a);
    lemma_items_view(a.remove(i));
    assert(items_view(a.remove(i)) =~= items_view(a).remove(i));
}

pub fn clone_opt_string(o: &Option<String>) -> (r: Option<String>)
    ensures
        r == *o,
{
    match o {
        Some(s) => Some(s.clone()),
        None => None,
    }
}

impl TrayMenuAction {
    /// A copy of the action.
    pub fn duplicate(&self) -> (r: Self)
        ensures
            r == *self,
    {
        match self {
            TrayMenuAction::Activate => TrayMenuAction::Activate,
            TrayMenuAction::ContextMenu => TrayMenuAction::ContextMenu,
            TrayMenuAction::SecondaryActivate => TrayMenuAction::SecondaryActivate,
            TrayMenuAction::SpawnCommand(c) => TrayMenuAction::SpawnCommand(c.clone()),
            TrayMenuAction::DbusMenuAction { item_id, event_id } =>
                TrayMenuAction::DbusMenuAction { item_id: *item_id, event_id: event_id.clone() },
            TrayMenuAction::NavigateToApp(a) => TrayMenuAction::NavigateToApp(a.clone()),
            TrayMenuAction::ShowAggregated => TrayMenuAction::ShowAggregated,
            TrayMenuAction::ShowFavorites => TrayMenuAction::ShowFavorites,
            TrayMenuAction::ToggleFavorite(i) => TrayMenuAction::ToggleFavorite(i.clone()),
        }
    }
}

/// A copy of a list of menu items.
pub fn clone_items(items: &Vec<TrayMenuItem>) -> (r: Vec<TrayMenuItem>)
    ensures
        items_view(r@) == items_view(items@),
    decreases items@, 0int,
{
    let mut r: Vec<TrayMenuItem> = Vec::new();
    let mut k: usize = 0;
    while k < items.len()
        invariant
            k <= items.len(),
            r@.len() == k,
            forall|j: int| 0 <= j < k ==> item_view(#[trigger] r@[j]) == item_view(items@[j]),
        decreases items.len() - k,
    {
        assert(decreases_to!(items@ => items@[k as int]));
        let c = clone_item(&items[k]);
        r.push(c);
        k = k + 1;
    }
    proof {
        lemma_items_view_ext(r@, items@);
    }
    r
}

/// A copy of a menu item with all its submenus.
pub fn clone_item(item: &TrayMenuItem) -> (r: TrayMenuItem)
    ensures
        item_view(r) == item_view(*item),
    decreases *item, 1int,
{
    TrayMenuItem {
        id: item.id.clone(),
        label: item.label.clone(),
        action: item.action.duplicate(),
        icon: clone_opt_string(&item.icon),
        submenu: clone_items(&item.submenu),
        enabled: item.enabled,
        visible: item.visible,
        checkable: item.checkable,
        checked: item.checked,
        shortcut: clone_opt_string(&item.shortcut),
        is_separator: item.is_separator,
        app_id: item.app_id.clone(),
        full_path: item.full_path.clone(),
    }
}

impl Clone for TrayMenuItem {
    fn clone(&self) -> (r: Self)
        ensures
            item_view(r) == item_view(*self),
    {
        clone_item(self)
    }
}


impl TrayIcon {
    /// A copy of the icon.
    pub fn duplicate(&self) -> (r: Self)
        ensures
            r == *self,
    {
        TrayIcon {
            key: self.key.clone(),
            service: self.service.clone(),
            path: self.path.clone(),
            id: self.id.clone(),
            title: self.title.clone(),
            icon_name: clone_opt_string(&self.icon_name),
            status: self.status.clone(),
            has_menu: self.has_menu,
            menu_object_path: clone_opt_string(&self.menu_object_path),
        }
    }
}

/// Application with its tray menu.
#[derive(Debug, Clone, PartialEq, Eq)]
pub struct TrayApp {
    pub icon: TrayIcon,
    pub menu_items: Vec<TrayMenuItem>,
    pub last_updated: std::time::SystemTime,
}

/// Menu tree of all tray applications: each application is kept once, under
/// the id of its icon, next to the display order of the icons and the ids of
/// the favorite menu items.
#[derive(Debug, Clone)]
pub struct TrayMenuTree {
    pub apps: Vec<TrayApp>,
    pub favorites: Vec<String>,
    pub icon_order: Vec<String>,
}

/// Navigation state for moving between apps.
#[derive(Debug, Clone, PartialEq, Eq)]
pub struct TrayMenuNavigation {
    pub current_app_index: usize,
    pub app_order: Vec<String>,
    pub can_go_left: bool,
    pub can_go_right: bool,
}

/// Known wireless network in a network snapshot.
#[derive(Debug, Clone, PartialEq, Eq)]
pub struct WifiNetwork {
    pub ssid: String,
    pub signal: u8,
    pub security: String,
    pub in_use: bool,
}

/// State of the network device shown by the network view.
#[derive(Debug, Clone, PartialEq, Eq)]
pub struct NetworkSnapshot {
    pub enabled: bool,
    pub state: String,
    pub interface: String,
    pub connected_ssid: Option<String>,
    pub known_networks: Vec<String>,
    pub networks: Vec<WifiNetwork>,
}

/// Different view modes for the tray menu.
#[derive(Debug, Clone, PartialEq, Eq)]
pub enum TrayViewState {
    SingleApp {
        app_id: String,
        navigation: TrayMenuNavigation,
    },
    Aggregated {
        items: Vec<TrayMenuItem>,
        filter: Option<String>,
    },
    Favorites {
        items: Vec<TrayMenuItem>,
    },
    Network {
        app_id: String,
        data: Option<NetworkSnapshot>,
        loading: bool,
        error: Option<String>,
    },
}

impl TrayViewState {
    /// Navigation info, for the views that have it.
    pub fn get_navigation(&self) -> (r: Option<&TrayMenuNavigation>)
        ensures
            match *self {
                TrayViewState::SingleApp { navigation, .. } => r == Some(&navigation),
                _ => r is None,
            },
    {
        match self {
            TrayViewState::SingleApp { navigation, .. } => Some(navigation),
            _ => None,
        }
    }

    /// Number of items in this view. A single-application view counts none
    /// here (its items come from the tree); the network view counts its three
    /// controls and one row per network.
    pub fn item_count(&self) -> (n: usize)
        requires
            match *self {
                TrayViewState::Network { data: Some(d), .. } => d.networks@.len() + 3 <= usize::MAX,
                _ => true,
            },
        ensures
            n == match *self {
                TrayViewState::SingleApp { .. } => 0,
                TrayViewState::Aggregated { items, .. } => items@.len(),
                TrayViewState::Favorites { items } => items@.len(),
                TrayViewState::Network { data, .. } => match data {
                    Some(d) => 3 + d.networks@.len(),
                    None => 3,
                },
            },
    {
        match self {
            TrayViewState::SingleApp { .. } => 0,
            TrayViewState::Aggregated { items, .. } => items.len(),
            TrayViewState::Favorites { items } => items.len(),
            TrayViewState::Network { data, .. } => match data {
                Some(d) => 3 + d.networks.len(),
                None => 3,
            },
        }
    }
}

/// Events from the enhanced tray system.
#[derive(Debug, Clone, PartialEq, Eq)]
pub enum TrayEvent {
    IconsUpdated(Vec<TrayIcon>),
    MenuUpdated { app_id: String, menu: Vec<TrayMenuItem> },
    DbusMenuReceived { app_id: String, menu: Vec<crate::tray_dbus::DbusMenuItem> },
    FavoritesChanged(Vec<String>),
    NavigationChanged(TrayMenuNavigation),
}

} // verus!
