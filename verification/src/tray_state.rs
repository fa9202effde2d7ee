//! State transitions of the tray popup: each message of the popup changes the
//! menu tree and the current view, and names the outside work to start
//! (spawning a command, reading or switching the network device, advancing
//! the open/close animation).
//!
//! Which tray icons are network icons is decided by code that is not part of
//! this crate's sources; callers pass that decision in.

use vstd::prelude::*;
use crate::bar_control::toggled;
use crate::menu_order::sorted_by_path;
use crate::names::{contains_name, lists, views};
use crate::text::{owned, push_str, str_eq, string_of};
use crate::tray_core::{
    clone_items, clone_opt_string, item_view, items_view, lemma_items_view, opt_str, ActionView, MenuItemView,
    NetworkSnapshot, TrayIcon, TrayMenuAction, TrayMenuItem, TrayMenuNavigation, TrayMenuTree,
    TrayViewState,
};
use crate::tray_dbus::{convert_dbus_to_tray_menu, converted_list, DbusError, DbusMenuItem};
use crate::tray_tree::{all_favs, all_flat, matching, AppView};

verus! {

// == Default menus ==

/// A plain, enabled, visible entry of a default menu.
pub open spec fn plain_entry(id: Seq<char>, label: Seq<char>, action: ActionView, icon: Option<Seq<char>>, app_id: Seq<char>) -> MenuItemView {
    MenuItemView {
        id: id,
        label: label,
        action: action,
        icon: icon,
        submenu: Seq::empty(),
        enabled: true,
        visible: true,
        checkable: false,
        checked: false,
        shortcut: None,
        is_separator: false,
        app_id: app_id,
        full_path: label,
    }
}

/// The menu of an icon without a DBus menu: activate, secondary action and,
/// for a network icon, an entry that opens the network settings.
pub open spec fn default_menu(icon: TrayIcon, network_icon: bool) -> Seq<MenuItemView> {
    let base = seq![
        plain_entry(icon.key@ + "_activate"@, "Activate "@ + icon.title@, ActionView::Activate, opt_str(icon.icon_name), icon.id@),
        plain_entry(icon.key@ + "_secondary"@, "Secondary action"@, ActionView::SecondaryActivate, None, icon.id@),
    ];
    if network_icon {
        base.push(plain_entry(
            icon.key@ + "_network_settings"@,
            "Open Network Settings"@,
            ActionView::SpawnCommand("nm-connection-editor"@),
            Some("preferences-system-network"@),
            icon.id@,
        ))
    } else {
        base
    }
}

fn joined(a: &str, b: &str) -> (r: String)
    ensures
        r@ == a@ + b@,
{
    let mut v: Vec<char> = Vec::new();
    push_str(&mut v, a);
    push_str(&mut v, b);
    string_of(&v)
}

fn entry(id: String, label: String, action: TrayMenuAction, icon: Option<String>, app_id: String) -> (r: TrayMenuItem)
    ensures
        item_view(r) == plain_entry(id@, label@, crate::tray_core::action_view(action), opt_str(icon), app_id@),
{
    let full_path = label.clone();
    let r = TrayMenuItem {
        id,
        label,
        action,
        icon,
        submenu: Vec::new(),
        enabled: true,
        visible: true,
        checkable: false,
        checked: false,
        shortcut: None,
        is_separator: false,
        app_id,
        full_path,
    };
    proof {
        lemma_items_view(r.submenu@);
        assert(items_view(r.submenu@) =~= Seq::<MenuItemView>::empty());
    }
    r
}

/// Builds the menu of an icon that has no DBus menu; `network_icon` tells
/// whether the icon is a network icon.
pub fn build_default_menu_items(icon: &TrayIcon, network_icon: bool) -> (r: Vec<TrayMenuItem>)
    ensures
        items_view(r@) == default_menu(*icon, network_icon),
{
    let mut items: Vec<TrayMenuItem> = Vec::new();
    items.push(entry(
        joined(icon.key.as_str(), "_activate"),
        joined("Activate ", icon.title.as_str()),
        TrayMenuAction::Activate,
        clone_opt_string(&icon.icon_name),
        icon.id.clone(),
    ));
    items.push(entry(
        joined(icon.key.as_str(), "_secondary"),
        owned("Secondary action"),
        TrayMenuAction::SecondaryActivate,
        None,
        icon.id.clone(),
    ));
    if network_icon {
        items.push(entry(
            joined(icon.key.as_str(), "_network_settings"),
            owned("Open Network Settings"),
            TrayMenuAction::SpawnCommand(owned("nm-connection-editor")),
            Some(owned("preferences-system-network")),
            icon.id.clone(),
        ));
    }
    proof {
        lemma_items_view(items@);
        assert(items_view(items@) =~= default_menu(*icon, network_icon));
    }
    items
}

/// A tray menu action offered by the bar's quick-select labels, with the
/// application it belongs to.
#[derive(Debug, PartialEq, Eq)]
pub struct MenuQuickSelectAction {
    pub app_id: String,
    pub action: TrayMenuAction,
}

impl Clone for MenuQuickSelectAction {
    fn clone(&self) -> (r: Self)
        ensures
            r == *self,
    {
        MenuQuickSelectAction { app_id: self.app_id.clone(), action: self.action.duplicate() }
    }
}

// == Messages, tasks and state ==

/// Messages of the tray popup.
#[derive(Debug)]
pub enum TrayMessage {
    NavigateLeft,
    NavigateRight,
    ShowAggregated,
    ShowFavorites,
    /// The application id and the menu item id.
    ToggleFavorite(String, String),
    FilterUpdate(String),
    /// The application id and the clicked item's action.
    MenuItemClicked(String, TrayMenuAction),
    /// The application id of the clicked icon.
    IconClicked(String),
    AnimationTick,
    Show,
    Hide,
    IconsUpdated(Vec<TrayIcon>),
    MenuUpdated { app_id: String, menu: Vec<TrayMenuItem> },
    DbusMenuReceived { app_id: String, menu: Vec<DbusMenuItem> },
    NetworkSnapshot(String, Result<NetworkSnapshot, String>),
    NetworkRefresh(String),
    NetworkToggle(String),
    NetworkSpawnCommand(String, String),
    DbusError(String, DbusError),
}

impl Clone for TrayMessage {
    fn clone(&self) -> (r: Self) {
        match self {
            TrayMessage::NavigateLeft => TrayMessage::NavigateLeft,
            TrayMessage::NavigateRight => TrayMessage::NavigateRight,
            TrayMessage::ShowAggregated => TrayMessage::ShowAggregated,
            TrayMessage::ShowFavorites => TrayMessage::ShowFavorites,
            TrayMessage::ToggleFavorite(a, i) => TrayMessage::ToggleFavorite(a.clone(), i.clone()),
            TrayMessage::FilterUpdate(t) => TrayMessage::FilterUpdate(t.clone()),
            TrayMessage::MenuItemClicked(a, action) => TrayMessage::MenuItemClicked(a.clone(), action.duplicate()),
            TrayMessage::IconClicked(a) => TrayMessage::IconClicked(a.clone()),
            TrayMessage::AnimationTick => TrayMessage::AnimationTick,
            TrayMessage::Show => TrayMessage::Show,
            TrayMessage::Hide => TrayMessage::Hide,
            TrayMessage::IconsUpdated(icons) => TrayMessage::IconsUpdated(icons.clone()),
            TrayMessage::MenuUpdated { app_id, menu } =>
                TrayMessage::MenuUpdated { app_id: app_id.clone(), menu: clone_items(menu) },
            TrayMessage::DbusMenuReceived { app_id, menu } =>
                TrayMessage::DbusMenuReceived { app_id: app_id.clone(), menu: menu.clone() },
            TrayMessage::NetworkSnapshot(a, result) => TrayMessage::NetworkSnapshot(a.clone(), match result {
                Ok(snapshot) => Ok(snapshot.clone()),
                Err(e) => Err(e.clone()),
            }),
            TrayMessage::NetworkRefresh(a) => TrayMessage::NetworkRefresh(a.clone()),
            TrayMessage::NetworkToggle(a) => TrayMessage::NetworkToggle(a.clone()),
            TrayMessage::NetworkSpawnCommand(a, c) => TrayMessage::NetworkSpawnCommand(a.clone(), c.clone()),
            TrayMessage::DbusError(a, e) => TrayMessage::DbusError(a.clone(), e.clone()),
        }
    }
}

/// Outside work that a message asks for.
#[derive(Debug)]
pub enum TrayTask {
    /// Nothing to do.
    Nothing,
    /// Start a shell command.
    SpawnCommand(String),
    /// Deliver this message back to the popup.
    Emit(TrayMessage),
    /// Read the network device's state, rescanning networks when asked, and
    /// deliver it as a `NetworkSnapshot` message for the application.
    ReadNetwork { app_id: String, rescan: bool },
    /// Switch wireless networking on or off, then read the state again with a
    /// rescan and deliver it as a `NetworkSnapshot` message.
    SetWifiEnabled { app_id: String, enabled: bool },
    /// Advance the open/close animation one step.
    TickAnimation,
}

/// State of the tray popup apart from its animation progress, which the
/// renderer keeps: the menu tree, the current view, whether the popup is
/// meant to be open, the selected row and the filter text.
#[derive(Debug)]
pub struct TrayPanelState {
    pub tree: TrayMenuTree,
    pub current_view: TrayViewState,
    pub shown: bool,
    pub selected_index: Option<usize>,
    pub filter_text: String,
}

impl TrayPanelState {
    /// The tree keeps its invariant.
    pub open spec fn wf(&self) -> bool {
        self.tree.wf()
    }

    /// A closed popup with an empty tree and an empty aggregated view.
    pub fn new() -> (s: Self)
        ensures
            s.wf(),
            s.tree.apps@.len() == 0,
            s.tree.icon_order@.len() == 0,
            s.tree.favorites@.len() == 0,
            s.current_view matches TrayViewState::Aggregated { items, filter } && items@.len() == 0 && filter is None,
            !s.shown,
            s.selected_index is None,
            s.filter_text@ == Seq::<char>::empty(),
    {
        TrayPanelState {
            tree: TrayMenuTree::new(),
            current_view: TrayViewState::Aggregated { items: Vec::new(), filter: None },
            shown: false,
            selected_index: None,
            filter_text: String::new(),
        }
    }
}

// == What each message does ==

/// Where navigation starts in the display order: the application's place,
/// or the first place when it is not there.
pub open spec fn nav_index(order: Seq<Seq<char>>, id: Seq<char>) -> int {
    if order.contains(id) { order.index_of_first(id).unwrap() } else { 0 }
}

/// Whether `nav` is the navigation state of application `id` in `order`.
pub open spec fn navigation_for(nav: TrayMenuNavigation, order: Seq<Seq<char>>, id: Seq<char>) -> bool {
    &&& views(nav.app_order@) == order
    &&& nav.current_app_index == nav_index(order, id)
    &&& nav.can_go_left == (nav.current_app_index > 0)
    &&& nav.can_go_right == (order.len() > 0 && nav.current_app_index < order.len() - 1)
}

/// The application shown by a single-application view.
pub open spec fn current_app(v: TrayViewState) -> Option<Seq<char>> {
    match v {
        TrayViewState::SingleApp { app_id, .. } => Some(app_id@),
        _ => None,
    }
}

/// The application whose network view is shown.
pub open spec fn network_app(v: TrayViewState) -> Option<Seq<char>> {
    match v {
        TrayViewState::Network { app_id, .. } => Some(app_id@),
        _ => None,
    }
}

/// The application before `id` in the display order, if navigation can go left.
pub open spec fn left_neighbor(order: Seq<Seq<char>>, id: Seq<char>) -> Option<Seq<char>> {
    let i = nav_index(order, id);
    if i > 0 { Some(order[i - 1]) } else { None }
}

/// The application after `id` in the display order, if navigation can go right.
pub open spec fn right_neighbor(order: Seq<Seq<char>>, id: Seq<char>) -> Option<Seq<char>> {
    let i = nav_index(order, id);
    if order.len() > 0 && i < order.len() - 1 { Some(order[i + 1]) } else { None }
}

/// Whether `v` is the single-application view of `id`.
pub open spec fn single_app_view(v: TrayViewState, id: Seq<char>, order: Seq<Seq<char>>) -> bool {
    v matches TrayViewState::SingleApp { app_id, navigation } && app_id@ == id && navigation_for(navigation, order, id)
}

/// Whether `v` is the aggregated view of `tree` under `filter`.
pub open spec fn aggregated_view(v: TrayViewState, tree: TrayMenuTree, filter: Option<Seq<char>>) -> bool {
    v matches TrayViewState::Aggregated { items, filter: f }
        && opt_str(f) == filter
        && sorted_by_path(items_view(items@))
        && items_view(items@).to_multiset() == matching(all_flat(tree.apps@), filter).to_multiset()
}

/// Whether `v` is the favorites view of `tree`.
pub open spec fn favorites_view(v: TrayViewState, tree: TrayMenuTree) -> bool {
    v matches TrayViewState::Favorites { items }
        && sorted_by_path(items_view(items@))
        && items_view(items@).to_multiset() == all_favs(tree.apps@, tree.favorite_set()).to_multiset()
}

/// Everything but the view is unchanged.
pub open spec fn same_but_view(o: TrayPanelState, f: TrayPanelState) -> bool {
    &&& f.tree == o.tree
    &&& f.shown == o.shown
    &&& f.selected_index == o.selected_index
    &&& f.filter_text == o.filter_text
}

/// Everything but whether the popup is shown is unchanged.
pub open spec fn same_but_shown(o: TrayPanelState, f: TrayPanelState, shown: bool) -> bool {
    &&& f.tree == o.tree
    &&& f.current_view == o.current_view
    &&& f.shown == shown
    &&& f.selected_index == o.selected_index
    &&& f.filter_text == o.filter_text
}

/// Navigation to `target` when there is one: the view becomes that
/// application's view; otherwise nothing changes.
pub open spec fn navigated(o: TrayPanelState, f: TrayPanelState, target: Option<Seq<char>>) -> bool {
    &&& same_but_view(o, f)
    &&& match target {
        Some(t) => single_app_view(f.current_view, t, o.tree.order()),
        None => f.current_view == o.current_view,
    }
}

/// The navigation target to the left of the current single-application view.
pub open spec fn left_target(o: TrayPanelState) -> Option<Seq<char>> {
    match current_app(o.current_view) {
        Some(id) => left_neighbor(o.tree.order(), id),
        None => None,
    }
}

/// The navigation target to the right of the current single-application view.
pub open spec fn right_target(o: TrayPanelState) -> Option<Seq<char>> {
    match current_app(o.current_view) {
        Some(id) => right_neighbor(o.tree.order(), id),
        None => None,
    }
}

// == Handlers ==

fn navigate(state: &mut TrayPanelState, left: bool)
    requires
        old(state).wf(),
    ensures
        final(state).wf(),
        navigated(*old(state), *final(state), if left { left_target(*old(state)) } else { right_target(*old(state)) }),
{
    let target: Option<String> = match &state.current_view {
        TrayViewState::SingleApp { app_id, .. } => {
            let nav = state.tree.get_app_navigation(app_id.as_str());
            proof {
                let o = state.tree.order();
                if o.contains(app_id@) {
                    o.index_of_first_ensures(app_id@);
                }
                assert(views(nav.app_order@).len() == nav.app_order@.len());
            }
            if left {
                if nav.can_go_left {
                    let id = nav.app_order[nav.current_app_index - 1].clone();
                    assert(views(nav.app_order@)[nav.current_app_index - 1] == nav.app_order@[nav.current_app_index - 1]@);
                    Some(id)
                } else {
                    None
                }
            } else {
                if nav.can_go_right {
                    assert(nav.current_app_index + 1 < nav.app_order@.len());
                    assert(nav.app_order@.len() == nav.app_order.len());
                    let next: usize = nav.current_app_index + 1;
                    let id = nav.app_order[next].clone();
                    assert(views(nav.app_order@)[nav.current_app_index + 1] == nav.app_order@[nav.current_app_index + 1]@);
                    Some(id)
                } else {
                    None
                }
            }
        },
        _ => None,
    };
    match target {
        Some(id) => {
            let navigation = state.tree.get_app_navigation(id.as_str());
            state.current_view = TrayViewState::SingleApp { app_id: id, navigation };
        },
        None => {},
    }
}

/// The aggregated view of the whole tree, with the first row selected.
pub open spec fn shows_aggregated(o: TrayPanelState, f: TrayPanelState) -> bool {
    &&& f.tree == o.tree
    &&& aggregated_view(f.current_view, o.tree, None)
    &&& f.shown == o.shown
    &&& f.selected_index == Some(0usize)
    &&& f.filter_text == o.filter_text
}

/// The favorites view of the tree, with the first row selected.
pub open spec fn shows_favorites(o: TrayPanelState, f: TrayPanelState) -> bool {
    &&& f.tree == o.tree
    &&& favorites_view(f.current_view, o.tree)
    &&& f.shown == o.shown
    &&& f.selected_index == Some(0usize)
    &&& f.filter_text == o.filter_text
}

fn show_aggregated(state: &mut TrayPanelState)
    requires
        old(state).wf(),
    ensures
        final(state).wf(),
        shows_aggregated(*old(state), *final(state)),
{
    let items = state.tree.get_aggregated_menu(None);
    state.current_view = TrayViewState::Aggregated { items, filter: None };
    state.selected_index = Some(0);
}

fn show_favorites(state: &mut TrayPanelState)
    requires
        old(state).wf(),
    ensures
        final(state).wf(),
        shows_favorites(*old(state), *final(state)),
{
    let items = state.tree.get_favorites_menu();
    state.current_view = TrayViewState::Favorites { items };
    state.selected_index = Some(0);
}

/// The item's favorite mark is flipped; an open favorites view is rebuilt.
pub open spec fn toggles_favorite(o: TrayPanelState, f: TrayPanelState, item_id: Seq<char>) -> bool {
    &&& f.tree.apps@ == o.tree.apps@
    &&& f.tree.icon_order@ == o.tree.icon_order@
    &&& f.tree.favorite_set() == toggled(o.tree.favorite_set(), item_id)
    &&& if o.current_view is Favorites {
        favorites_view(f.current_view, f.tree)
    } else {
        f.current_view == o.current_view
    }
    &&& f.shown == o.shown
    &&& f.selected_index == o.selected_index
    &&& f.filter_text == o.filter_text
}

fn toggle_favorite(state: &mut TrayPanelState, item_id: &str)
    requires
        old(state).wf(),
    ensures
        final(state).wf(),
        toggles_favorite(*old(state), *final(state), item_id@),
{
    let _added = state.tree.toggle_favorite(item_id);
    let favorites = match &state.current_view {
        TrayViewState::Favorites { .. } => true,
        _ => false,
    };
    if favorites {
        let items = state.tree.get_favorites_menu();
        state.current_view = TrayViewState::Favorites { items };
    }
}

/// The filter text is kept; an open aggregated view is rebuilt under it (no
/// filter when it is empty).
pub open spec fn updates_filter(o: TrayPanelState, f: TrayPanelState, text: Seq<char>) -> bool {
    &&& f.tree == o.tree
    &&& f.filter_text@ == text
    &&& if o.current_view is Aggregated {
        aggregated_view(f.current_view, o.tree, if text.len() == 0 { None } else { Some(text) })
    } else {
        f.current_view == o.current_view
    }
    &&& f.shown == o.shown
    &&& f.selected_index == o.selected_index
}

fn update_filter(state: &mut TrayPanelState, filter_text: String)
    requires
        old(state).wf(),
    ensures
        final(state).wf(),
        updates_filter(*old(state), *final(state), filter_text@),
{
    let aggregated = match &state.current_view {
        TrayViewState::Aggregated { .. } => true,
        _ => false,
    };
    if aggregated {
        let filter: Option<String> = if filter_text.as_str().is_empty() { None } else { Some(filter_text.clone()) };
        let items = match &filter {
            Some(f) => state.tree.get_aggregated_menu(Some(f.as_str())),
            None => state.tree.get_aggregated_menu(None),
        };
        state.current_view = TrayViewState::Aggregated { items, filter };
    }
    state.filter_text = filter_text;
}

/// Clicking an icon: when that application's view is open, the popup closes;
/// otherwise a registered application opens, as the network view of a
/// network application (whose state is then read) or as its
/// single-application view with the first row selected. Unknown ids change
/// nothing.
pub open spec fn clicks_icon(o: TrayPanelState, f: TrayPanelState, app: Seq<char>, network: bool, task: TrayTask) -> bool {
    if current_app(o.current_view) == Some(app) || network_app(o.current_view) == Some(app) {
        same_but_shown(o, f, false) && task is Nothing
    } else if o.tree.app_entries().contains_key(app) {
        if network {
            &&& f.tree == o.tree
            &&& f.current_view matches TrayViewState::Network { app_id, data, loading, error }
                && app_id@ == app && data is None && loading && error is None
            &&& f.shown
            &&& f.selected_index == o.selected_index
            &&& f.filter_text == o.filter_text
            &&& task matches TrayTask::ReadNetwork { app_id, rescan } && app_id@ == app && !rescan
        } else {
            &&& f.tree == o.tree
            &&& single_app_view(f.current_view, app, o.tree.order())
            &&& f.shown
            &&& f.selected_index == Some(0usize)
            &&& f.filter_text == o.filter_text
            &&& task is Nothing
        }
    } else {
        f == o && task is Nothing
    }
}

fn click_icon(state: &mut TrayPanelState, app_id: &str, network_apps: &Vec<String>) -> (task: TrayTask)
    requires
        old(state).wf(),
    ensures
        final(state).wf(),
        clicks_icon(*old(state), *final(state), app_id@, lists(network_apps@, app_id@), task),
{
    let same = match &state.current_view {
        TrayViewState::SingleApp { app_id: current, .. } => str_eq(current.as_str(), app_id),
        TrayViewState::Network { app_id: current, .. } => str_eq(current.as_str(), app_id),
        _ => false,
    };
    if same {
        state.shown = false;
        return TrayTask::Nothing;
    }
    let known = match state.tree.app(app_id) {
        Some(_) => true,
        None => false,
    };
    if known {
        if contains_name(network_apps, app_id) {
            state.current_view = TrayViewState::Network {
                app_id: owned(app_id),
                data: None,
                loading: true,
                error: None,
            };
            state.shown = true;
            return TrayTask::ReadNetwork { app_id: owned(app_id), rescan: false };
        }
        let navigation = state.tree.get_app_navigation(app_id);
        state.current_view = TrayViewState::SingleApp { app_id: owned(app_id), navigation };
        state.shown = true;
        state.selected_index = Some(0);
    }
    TrayTask::Nothing
}

/// The registered applications after registering `icons` in order over `start`.
pub open spec fn icons_entries(start: Map<Seq<char>, AppView>, icons: Seq<TrayIcon>) -> Map<Seq<char>, AppView>
    decreases icons.len(),
{
    if icons.len() == 0 {
        start
    } else {
        icons_entries(start, icons.drop_last()).insert(
            icons.last().id@, AppView { icon: icons.last(), menu: Seq::empty() })
    }
}

/// The display order after registering `icons` in order over `start`.
pub open spec fn icons_order(start: Seq<Seq<char>>, icons: Seq<TrayIcon>) -> Seq<Seq<char>>
    decreases icons.len(),
{
    if icons.len() == 0 {
        start
    } else {
        let o = icons_order(start, icons.drop_last());
        if o.contains(icons.last().id@) { o } else { o.push(icons.last().id@) }
    }
}

/// Whether one of the icons belongs to a registered application.
pub open spec fn knows_some(entries: Map<Seq<char>, AppView>, icons: Seq<TrayIcon>) -> bool {
    exists|k: int| 0 <= k < icons.len() && entries.contains_key(#[trigger] icons[k].id@)
}

/// A new icon list: when none of the icons is registered the tree starts over
/// (favorites included); then every icon is registered in order.
pub open spec fn updates_icons(o: TrayPanelState, f: TrayPanelState, icons: Seq<TrayIcon>) -> bool {
    let keep = knows_some(o.tree.app_entries(), icons);
    &&& f.tree.app_entries() == icons_entries(if keep { o.tree.app_entries() } else { Map::empty() }, icons)
    &&& f.tree.order() == icons_order(if keep { o.tree.order() } else { Seq::empty() }, icons)
    &&& f.tree.favorite_set() == if keep { o.tree.favorite_set() } else { Set::empty() }
    &&& f.current_view == o.current_view
    &&& f.shown == o.shown
    &&& f.selected_index == o.selected_index
    &&& f.filter_text == o.filter_text
}

fn update_icons(state: &mut TrayPanelState, icons: Vec<TrayIcon>)
    requires
        old(state).wf(),
    ensures
        final(state).wf(),
        updates_icons(*old(state), *final(state), icons@),
{
    let ghost o = *state;
    let mut known = false;
    let mut k: usize = 0;
    while k < icons.len()
        invariant
            k <= icons@.len(),
            *state == o,
            state.wf(),
            known == exists|j: int| 0 <= j < k && state.tree.app_entries().contains_key(#[trigger] icons@[j].id@),
        decreases icons.len() - k,
    {
        match state.tree.app(icons[k].id.as_str()) {
            Some(_) => {
                known = true;
            },
            None => {},
        }
        k = k + 1;
    }
    let ghost keep = known;
    if !known {
        state.tree = TrayMenuTree::new();
        proof {
            assert(state.tree.order() =~= Seq::<Seq<char>>::empty());
            assert(name_set_empty(state.tree));
        }
    }
    let ghost start_entries = state.tree.app_entries();
    let ghost start_order = state.tree.order();
    let ghost start_favorites = state.tree.favorites@;
    let mut i: usize = 0;
    assert(icons@.take(0) =~= Seq::<TrayIcon>::empty());
    while i < icons.len()
        invariant
            i <= icons@.len(),
            state.wf(),
            state.tree.app_entries() == icons_entries(start_entries, icons@.take(i as int)),
            state.tree.order() == icons_order(start_order, icons@.take(i as int)),
            state.tree.favorites@ == start_favorites,
            state.current_view == o.current_view,
            state.shown == o.shown,
            state.selected_index == o.selected_index,
            state.filter_text == o.filter_text,
        decreases icons.len() - i,
    {
        let icon = icons[i].duplicate();
        state.tree.update_app(icon);
        proof {
            assert(icons@.take(i + 1).drop_last() =~= icons@.take(i as int));
            assert(icons@.take(i + 1).last() == icons@[i as int]);
        }
        i = i + 1;
    }
    assert(icons@.take(icons@.len() as int) =~= icons@);
}

/// Whether an empty tree has neither applications nor favorites.
spec fn name_set_empty(t: TrayMenuTree) -> bool {
    t.app_entries() == Map::<Seq<char>, AppView>::empty() && t.favorite_set() == Set::<Seq<char>>::empty()
        && t.order() == Seq::<Seq<char>>::empty()
}

/// The menu of a registered application is replaced; nothing else changes.
pub open spec fn replaces_menu(o: TrayPanelState, f: TrayPanelState, app: Seq<char>, menu: Seq<MenuItemView>) -> bool {
    &&& f.tree.app_entries() == if o.tree.app_entries().contains_key(app) {
        o.tree.app_entries().insert(app, AppView { icon: o.tree.app_entries()[app].icon, menu: menu })
    } else {
        o.tree.app_entries()
    }
    &&& f.tree.icon_order@ == o.tree.icon_order@
    &&& f.tree.favorites@ == o.tree.favorites@
    &&& f.current_view == o.current_view
    &&& f.shown == o.shown
    &&& f.selected_index == o.selected_index
    &&& f.filter_text == o.filter_text
}

fn replace_menu(state: &mut TrayPanelState, app_id: &str, menu: Vec<TrayMenuItem>)
    requires
        old(state).wf(),
    ensures
        final(state).wf(),
        replaces_menu(*old(state), *final(state), app_id@, items_view(menu@)),
{
    state.tree.update_app_menu(app_id, menu);
}

/// A read network state is shown when the network view of that application
/// is open: a snapshot replaces the data and clears the error, a failure
/// keeps the data and records the error; either way loading ends.
pub open spec fn applies_network_snapshot(o: TrayPanelState, f: TrayPanelState, app: Seq<char>, result: Result<NetworkSnapshot, String>) -> bool {
    if network_app(o.current_view) == Some(app) {
        &&& same_but_view(o, f)
        &&& o.current_view matches TrayViewState::Network { app_id: oa, data: od, loading: _, error: _ }
            && f.current_view matches TrayViewState::Network { app_id: fa, data: fd, loading: fl, error: fe }
            && fa == oa && !fl
            && match result {
                Ok(snapshot) => fd == Some(snapshot) && fe is None,
                Err(e) => fd == od && fe == Some(e),
            }
    } else {
        f == o
    }
}

fn apply_network_snapshot(state: &mut TrayPanelState, app_id: &str, result: Result<NetworkSnapshot, String>)
    requires
        old(state).wf(),
    ensures
        final(state).wf(),
        applies_network_snapshot(*old(state), *final(state), app_id@, result),
{
    let mut view = TrayViewState::Favorites { items: Vec::new() };
    std::mem::swap(&mut view, &mut state.current_view);
    let restored = match view {
        TrayViewState::Network { app_id: current, data, loading, error } => {
            if str_eq(current.as_str(), app_id) {
                match result {
                    Ok(snapshot) => TrayViewState::Network { app_id: current, data: Some(snapshot), loading: false, error: None },
                    Err(e) => TrayViewState::Network { app_id: current, data, loading: false, error: Some(e) },
                }
            } else {
                TrayViewState::Network { app_id: current, data, loading, error }
            }
        },
        other => other,
    };
    state.current_view = restored;
}

/// Whether wireless networking should be on after a toggle: the opposite of
/// the last known state, or on when nothing is known.
pub open spec fn toggled_wifi(data: Option<NetworkSnapshot>) -> bool {
    match data {
        Some(s) => !s.enabled,
        None => true,
    }
}

/// A refresh or a toggle of the open network view of `app`: loading starts,
/// the error is cleared, and the device is read (after switching it, for a
/// toggle); otherwise nothing changes.
pub open spec fn starts_network_work(o: TrayPanelState, f: TrayPanelState, app: Seq<char>, toggle: bool, task: TrayTask) -> bool {
    if network_app(o.current_view) == Some(app) {
        &&& same_but_view(o, f)
        &&& o.current_view matches TrayViewState::Network { app_id: oa, data: od, loading: _, error: _ }
            && f.current_view matches TrayViewState::Network { app_id: fa, data: fd, loading: fl, error: fe }
            && fa == oa && fd == od && fl && fe is None
            && if toggle {
                task matches TrayTask::SetWifiEnabled { app_id, enabled } && app_id@ == app && enabled == toggled_wifi(od)
            } else {
                task matches TrayTask::ReadNetwork { app_id, rescan } && app_id@ == app && rescan
            }
    } else {
        f == o && task is Nothing
    }
}

fn start_network_work(state: &mut TrayPanelState, app_id: &str, toggle: bool) -> (task: TrayTask)
    requires
        old(state).wf(),
    ensures
        final(state).wf(),
        starts_network_work(*old(state), *final(state), app_id@, toggle, task),
{
    let mut view = TrayViewState::Favorites { items: Vec::new() };
    std::mem::swap(&mut view, &mut state.current_view);
    let (restored, task) = match view {
        TrayViewState::Network { app_id: current, data, loading, error } => {
            if str_eq(current.as_str(), app_id) {
                let task = if toggle {
                    let enabled = match &data {
                        Some(snapshot) => !snapshot.enabled,
                        None => true,
                    };
                    TrayTask::SetWifiEnabled { app_id: owned(app_id), enabled }
                } else {
                    TrayTask::ReadNetwork { app_id: owned(app_id), rescan: true }
                };
                (TrayViewState::Network { app_id: current, data, loading: true, error: None }, task)
            } else {
                (TrayViewState::Network { app_id: current, data, loading, error }, TrayTask::Nothing)
            }
        },
        other => (other, TrayTask::Nothing),
    };
    state.current_view = restored;
    task
}

// == The update function ==

/// What a message does to the popup state and which outside work it asks
/// for; `network_apps` lists the applications whose icon is a network icon.
pub open spec fn handles(o: TrayPanelState, message: TrayMessage, network_apps: Seq<String>, f: TrayPanelState, task: TrayTask) -> bool {
    match message {
        TrayMessage::NavigateLeft => navigated(o, f, left_target(o)) && task is Nothing,
        TrayMessage::NavigateRight => navigated(o, f, right_target(o)) && task is Nothing,
        TrayMessage::ShowAggregated => shows_aggregated(o, f) && task is Nothing,
        TrayMessage::ShowFavorites => shows_favorites(o, f) && task is Nothing,
        TrayMessage::ToggleFavorite(_, item_id) => toggles_favorite(o, f, item_id@) && task is Nothing,
        TrayMessage::FilterUpdate(text) => updates_filter(o, f, text@) && task is Nothing,
        TrayMessage::MenuItemClicked(app_id, action) => f == o && match action {
            TrayMenuAction::SpawnCommand(command) => task == TrayTask::SpawnCommand(command),
            TrayMenuAction::DbusMenuAction { .. } =>
                task matches TrayTask::Emit(TrayMessage::DbusError(a, e)) && a == app_id && e is NoMenu,
            _ => task is Nothing,
        },
        TrayMessage::IconClicked(app_id) => clicks_icon(o, f, app_id@, lists(network_apps, app_id@), task),
        TrayMessage::AnimationTick => f == o && task is TickAnimation,
        TrayMessage::Show => same_but_shown(o, f, true) && task is Nothing,
        TrayMessage::Hide => same_but_shown(o, f, false) && task is Nothing,
        TrayMessage::IconsUpdated(icons) => updates_icons(o, f, icons@) && task is Nothing,
        TrayMessage::MenuUpdated { app_id, menu } =>
            replaces_menu(o, f, app_id@, items_view(menu@)) && task is Nothing,
        TrayMessage::DbusMenuReceived { app_id, menu } =>
            replaces_menu(o, f, app_id@, converted_list(menu@, app_id@, Seq::empty())) && task is Nothing,
        TrayMessage::NetworkSnapshot(app_id, result) =>
            applies_network_snapshot(o, f, app_id@, result) && task is Nothing,
        TrayMessage::NetworkRefresh(app_id) => starts_network_work(o, f, app_id@, false, task),
        TrayMessage::NetworkToggle(app_id) => starts_network_work(o, f, app_id@, true, task),
        TrayMessage::NetworkSpawnCommand(_, command) => f == o && task == TrayTask::SpawnCommand(command),
        TrayMessage::DbusError(_, _) => f == o && task is Nothing,
    }
}

/// Applies tray popup messages to the popup state.
pub struct TrayStateManager;

impl TrayStateManager {
    /// Applies one message; returns the outside work it asks for.
    /// `network_apps` lists the applications whose icon is a network icon.
    pub fn update(state: &mut TrayPanelState, message: TrayMessage, network_apps: &Vec<String>) -> (task: TrayTask)
        requires
            old(state).wf(),
        ensures
            final(state).wf(),
            handles(*old(state), message, network_apps@, *final(state), task),
    {
        match message {
            TrayMessage::NavigateLeft => {
                navigate(state, true);
                TrayTask::Nothing
            },
            TrayMessage::NavigateRight => {
                navigate(state, false);
                TrayTask::Nothing
            },
            TrayMessage::ShowAggregated => {
                show_aggregated(state);
                TrayTask::Nothing
            },
            TrayMessage::ShowFavorites => {
                show_favorites(state);
                TrayTask::Nothing
            },
            TrayMessage::ToggleFavorite(_app_id, item_id) => {
                toggle_favorite(state, item_id.as_str());
                TrayTask::Nothing
            },
            TrayMessage::FilterUpdate(text) => {
                update_filter(state, text);
                TrayTask::Nothing
            },
            TrayMessage::MenuItemClicked(app_id, action) => match action {
                TrayMenuAction::SpawnCommand(command) => TrayTask::SpawnCommand(command),
                TrayMenuAction::DbusMenuAction { .. } =>
                    TrayTask::Emit(TrayMessage::DbusError(app_id, DbusError::NoMenu)),
                _ => TrayTask::Nothing,
            },
            TrayMessage::IconClicked(app_id) => click_icon(state, app_id.as_str(), network_apps),
            TrayMessage::AnimationTick => TrayTask::TickAnimation,
            TrayMessage::Show => {
                state.shown = true;
                TrayTask::Nothing
            },
            TrayMessage::Hide => {
                state.shown = false;
                TrayTask::Nothing
            },
            TrayMessage::IconsUpdated(icons) => {
                update_icons(state, icons);
                TrayTask::Nothing
            },
            TrayMessage::MenuUpdated { app_id, menu } => {
                replace_menu(state, app_id.as_str(), menu);
                TrayTask::Nothing
            },
            TrayMessage::DbusMenuReceived { app_id, menu } => {
                let converted = convert_dbus_to_tray_menu(menu, app_id.as_str());
                replace_menu(state, app_id.as_str(), converted);
                TrayTask::Nothing
            },
            TrayMessage::NetworkSnapshot(app_id, result) => {
                apply_network_snapshot(state, app_id.as_str(), result);
                TrayTask::Nothing
            },
            TrayMessage::NetworkRefresh(app_id) => start_network_work(state, app_id.as_str(), false),
            TrayMessage::NetworkToggle(app_id) => start_network_work(state, app_id.as_str(), true),
            TrayMessage::NetworkSpawnCommand(_app_id, command) => TrayTask::SpawnCommand(command),
            TrayMessage::DbusError(_app_id, _error) => TrayTask::Nothing,
        }
    }
}

// == Laws ==

/// Clicking the icon of a registered application whose view is not open
/// opens the popup on it; clicking the same icon again closes the popup.
pub proof fn second_click_closes(
    o: TrayPanelState,
    f1: TrayPanelState,
    f2: TrayPanelState,
    app: Seq<char>,
    network: bool,
    t1: TrayTask,
    t2: TrayTask,
)
    requires
        o.tree.app_entries().contains_key(app),
        current_app(o.current_view) != Some(app),
        network_app(o.current_view) != Some(app),
        clicks_icon(o, f1, app, network, t1),
        clicks_icon(f1, f2, app, network, t2),
    ensures
        f1.shown,
        !f2.shown,
{
}

/// Navigating right and then left from an application listed in the display
/// order comes back to that application, whenever there is one to the right.
pub proof fn right_then_left_returns(o: TrayPanelState, f1: TrayPanelState, f2: TrayPanelState)
    requires
        o.wf(),
        current_app(o.current_view) matches Some(id) && o.tree.order().contains(id),
        right_target(o) is Some,
        navigated(o, f1, right_target(o)),
        navigated(f1, f2, left_target(f1)),
    ensures
        current_app(f2.current_view) == current_app(o.current_view),
{
    let order = o.tree.order();
    let id = current_app(o.current_view)->0;
    order.index_of_first_ensures(id);
    let i = nav_index(order, id);
    let next = order[i + 1];
    assert(right_target(o) == Some(next));
    assert(current_app(f1.current_view) == Some(next));
    assert(f1.tree == o.tree);
    order.index_of_first_ensures(next);
    let j = order.index_of_first(next).unwrap();
    assert(order.no_duplicates());
    assert(j == i + 1);
    assert(left_target(f1) == Some(order[i]));
}

/// Clearing the filter text shows the whole aggregated menu again.
pub proof fn empty_filter_shows_everything(o: TrayPanelState, f: TrayPanelState)
    requires
        o.current_view is Aggregated,
        updates_filter(o, f, Seq::empty()),
    ensures
        aggregated_view(f.current_view, o.tree, None),
        f.filter_text@.len() == 0,
{
}

// == Keyboard selection ==

/// The first position of `x` in `s`.
pub open spec fn position_of(s: Seq<usize>, x: usize) -> Option<int>
    decreases s.len(),
{
    if s.len() == 0 {
        None
    } else if s[0] == x {
        Some(0)
    } else {
        match position_of(s.drop_first(), x) {
            Some(p) => Some(p + 1),
            None => None,
        }
    }
}

proof fn lemma_position_of(s: Seq<usize>, x: usize, j: int)
    requires
        0 <= j <= s.len(),
        forall|k: int| 0 <= k < j ==> s[k] != x,
    ensures
        j < s.len() && s[j] == x ==> position_of(s, x) == Some(j),
        j == s.len() ==> position_of(s, x) is None,
    decreases j,
{
    if j > 0 {
        assert forall|k: int| 0 <= k < j - 1 implies s.drop_first()[k] != x by {
            assert(s.drop_first()[k] == s[k + 1]);
        }
        lemma_position_of(s.drop_first(), x, j - 1);
    }
}

/// The row selected after moving through the selectable rows `indices`
/// (in menu order) from `selected`: the next one (or previous one),
/// wrapping around; from a row that is not selectable, the first (or
/// last); nothing when no row is selectable.
pub open spec fn moved_selection(indices: Seq<usize>, selected: Option<usize>, forward: bool) -> Option<usize> {
    if indices.len() == 0 {
        None
    } else {
        let n = indices.len() as int;
        let current = match selected {
            Some(c) => position_of(indices, c),
            None => None,
        };
        let next = match current {
            Some(p) => if forward {
                (p + 1) % n
            } else if p == 0 {
                n - 1
            } else {
                p - 1
            },
            None => if forward {
                0
            } else {
                n - 1
            },
        };
        Some(indices[next])
    }
}

fn find_position(indices: &Vec<usize>, c: usize) -> (r: Option<usize>)
    ensures
        match r {
            Some(p) => position_of(indices@, c) == Some(p as int) && p < indices@.len(),
            None => position_of(indices@, c) is None,
        },
{
    let mut k: usize = 0;
    while k < indices.len()
        invariant
            k <= indices@.len(),
            forall|j: int| 0 <= j < k ==> indices@[j] != c,
        decreases indices.len() - k,
    {
        if indices[k] == c {
            proof {
                lemma_position_of(indices@, c, k as int);
            }
            return Some(k);
        }
        k = k + 1;
    }
    proof {
        lemma_position_of(indices@, c, k as int);
    }
    None
}

/// The row selected after a keyboard move through the selectable rows.
pub fn move_menu_selection(indices: &Vec<usize>, selected: Option<usize>, forward: bool) -> (r: Option<usize>)
    ensures
        r == moved_selection(indices@, selected, forward),
{
    let n = indices.len();
    if n == 0 {
        return None;
    }
    let current = match selected {
        Some(c) => find_position(indices, c),
        None => None,
    };
    let next: usize = match current {
        Some(p) => if forward {
            (p + 1) % n
        } else if p == 0 {
            n - 1
        } else {
            p - 1
        },
        None => if forward {
            0
        } else {
            n - 1
        },
    };
    Some(indices[next])
}

proof fn lemma_position_of_found(s: Seq<usize>, p: int)
    requires
        s.no_duplicates(),
        0 <= p < s.len(),
    ensures
        position_of(s, s[p]) == Some(p),
{
    assert forall|k: int| 0 <= k < p implies s[k] != s[p] by {}
    lemma_position_of(s, s[p], p);
}

/// A keyboard move always lands on a selectable row, when there is one.
pub proof fn selection_lands_on_selectable_row(indices: Seq<usize>, selected: Option<usize>, forward: bool)
    requires
        indices.len() > 0,
    ensures
        moved_selection(indices, selected, forward) matches Some(i) && indices.contains(i),
{
    let n = indices.len() as int;
    let current = match selected {
        Some(c) => position_of(indices, c),
        None => None,
    };
    match current {
        Some(p) => {
            lemma_position_bound(indices, selected.unwrap());
            let next = if forward { (p + 1) % n } else if p == 0 { n - 1 } else { p - 1 };
            assert(0 <= next < n);
            assert(indices[next] == indices[next]);
        },
        None => {
            let next = if forward { 0 } else { n - 1 };
            assert(indices[next] == indices[next]);
        },
    }
}

proof fn lemma_position_bound(s: Seq<usize>, x: usize)
    ensures
        position_of(s, x) matches Some(p) ==> 0 <= p < s.len() && s[p] == x,
    decreases s.len(),
{
    if s.len() > 0 && s[0] != x {
        lemma_position_bound(s.drop_first(), x);
    }
}

/// Moving the keyboard selection forward and then back returns to the row
/// it started from, when it started on a selectable row (the selectable
/// rows being distinct).
pub proof fn forward_then_back_returns(indices: Seq<usize>, selected: usize)
    requires
        indices.no_duplicates(),
        indices.contains(selected),
    ensures
        moved_selection(indices, moved_selection(indices, Some(selected), true), false) == Some(selected),
{
    let n = indices.len() as int;
    let p = choose|i: int| 0 <= i < indices.len() && indices[i] == selected;
    assert(0 <= p < n && indices[p] == selected);
    lemma_position_of_found(indices, p);
    let q = (p + 1) % n;
    if p + 1 < n {
        assert(q == p + 1) by (nonlinear_arith)
            requires
                q == (p + 1) % n,
                0 <= p + 1 < n,
        ;
    } else {
        assert(q == 0) by (nonlinear_arith)
            requires
                q == (p + 1) % n,
                p + 1 == n,
                n > 0,
        ;
    }
    lemma_position_of_found(indices, q);
}

} // verus!
