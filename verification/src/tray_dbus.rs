//! Menu items of the canonical dbusmenu protocol and their conversion into
//! tray menu items.

use vstd::prelude::*;
use crate::text::{chars_of, decimal, push_decimal, push_signed, signed_decimal, push_str, string_of, trim, trimmed, str_eq, owned};
use crate::tray_core::{
    clone_opt_string, item_view, items_view, lemma_items_view, lemma_items_view_push, opt_str,
    ActionView, MenuItemView, TrayMenuAction, TrayMenuItem,
};

verus! {

/// DBus menu item of the canonical dbusmenu protocol.
#[derive(Debug, PartialEq, Eq)]
pub struct DbusMenuItem {
    pub id: i32,
    pub label: String,
    pub enabled: bool,
    pub visible: bool,
    pub icon_name: Option<String>,
    pub checkable: bool,
    pub checked: bool,
    pub shortcut: Option<String>,
    pub children: Vec<DbusMenuItem>,
}

/// Abstract value of a dbusmenu item: every string by its characters, the
/// children by their own abstract values.
pub struct DbusItemView {
    pub id: i32,
    pub label: Seq<char>,
    pub enabled: bool,
    pub visible: bool,
    pub icon_name: Option<Seq<char>>,
    pub checkable: bool,
    pub checked: bool,
    pub shortcut: Option<Seq<char>>,
    pub children: Seq<DbusItemView>,
}

pub open spec fn dbus_view(d: DbusMenuItem) -> DbusItemView
    decreases d, 1int,
{
    DbusItemView {
        id: d.id,
        label: d.label@,
        enabled: d.enabled,
        visible: d.visible,
        icon_name: opt_str(d.icon_name),
        checkable: d.checkable,
        checked: d.checked,
        shortcut: opt_str(d.shortcut),
        children: dbus_views(d.children@),
    }
}

pub open spec fn dbus_views(ds: Seq<DbusMenuItem>) -> Seq<DbusItemView>
    decreases ds, 0int,
{
    if ds.len() == 0 {
        Seq::empty()
    } else {
        seq![dbus_view(ds[0])] + dbus_views(ds.drop_first())
    }
}

proof fn lemma_dbus_views(ds: Seq<DbusMenuItem>)
    ensures
        dbus_views(ds).len() == ds.len(),
        forall|k: int| 0 <= k < ds.len() ==> #[trigger] dbus_views(ds)[k] == dbus_view(ds[k]),
    decreases ds.len(),
{
    if ds.len() > 0 {
        lemma_dbus_views(ds.drop_first());
        assert forall|k: int| 0 <= k < ds.len() implies #[trigger] dbus_views(ds)[k] == dbus_view(ds[k]) by {
            if k > 0 {
                assert(ds.drop_first()[k - 1] == ds[k]);
            }
        }
    }
}

/// A copy of a list of items: the same items, in the same order.
fn clone_dbus_items(items: &Vec<DbusMenuItem>) -> (r: Vec<DbusMenuItem>)
    ensures
        dbus_views(r@) == dbus_views(items@),
    decreases items@, 0int,
{
    let mut r: Vec<DbusMenuItem> = Vec::new();
    let mut k: usize = 0;
    while k < items.len()
        invariant
            k <= items.len(),
            r@.len() == k,
            forall|j: int| 0 <= j < k ==> dbus_view(#[trigger] r@[j]) == dbus_view(items@[j]),
        decreases items.len() - k,
    {
        assert(decreases_to!(items@ => items@[k as int]));
        r.push(clone_dbus_item(&items[k]));
        k = k + 1;
    }
    proof {
        lemma_dbus_views(r@);
        lemma_dbus_views(items@);
        assert(dbus_views(r@) =~= dbus_views(items@));
    }
    r
}

/// A copy of an item, equal to it in every field and in every child.
fn clone_dbus_item(d: &DbusMenuItem) -> (r: DbusMenuItem)
    ensures
        dbus_view(r) == dbus_view(*d),
    decreases *d, 1int,
{
    DbusMenuItem {
        id: d.id,
        label: d.label.clone(),
        enabled: d.enabled,
        visible: d.visible,
        icon_name: clone_opt_string(&d.icon_name),
        checkable: d.checkable,
        checked: d.checked,
        shortcut: clone_opt_string(&d.shortcut),
        children: clone_dbus_items(&d.children),
    }
}

impl Clone for DbusMenuItem {
    fn clone(&self) -> Self {
        clone_dbus_item(self)
    }
}

/// DBus operation errors.
#[derive(Debug, Clone, PartialEq, Eq)]
pub enum DbusError {
    Connection(String),
    Proxy(String),
    MethodCall(String),
    ResponseParsing(String),
    NoMenu,
    InvalidMenuData(String),
}

/// The message of an error, as it is displayed.
pub open spec fn error_message(e: DbusError) -> Seq<char> {
    match e {
        DbusError::Connection(m) => "Connection failed: "@ + m@,
        DbusError::Proxy(m) => "Proxy creation failed: "@ + m@,
        DbusError::MethodCall(m) => "Method call failed: "@ + m@,
        DbusError::ResponseParsing(m) => "Response parsing failed: "@ + m@,
        DbusError::NoMenu => "No menu available for icon"@,
        DbusError::InvalidMenuData(m) => "Invalid menu data: "@ + m@,
    }
}

impl DbusError {
    /// The human-readable message of the error.
    pub fn message(&self) -> (r: String)
        ensures
            r@ == error_message(*self),
    {
        let mut v: Vec<char> = Vec::new();
        match self {
            DbusError::Connection(m) => {
                push_str(&mut v, "Connection failed: ");
                push_str(&mut v, m.as_str());
            },
            DbusError::Proxy(m) => {
                push_str(&mut v, "Proxy creation failed: ");
                push_str(&mut v, m.as_str());
            },
            DbusError::MethodCall(m) => {
                push_str(&mut v, "Method call failed: ");
                push_str(&mut v, m.as_str());
            },
            DbusError::ResponseParsing(m) => {
                push_str(&mut v, "Response parsing failed: ");
                push_str(&mut v, m.as_str());
            },
            DbusError::NoMenu => {
                push_str(&mut v, "No menu available for icon");
            },
            DbusError::InvalidMenuData(m) => {
                push_str(&mut v, "Invalid menu data: ");
                push_str(&mut v, m.as_str());
            },
        }
        string_of(&v)
    }
}

/// Whether a label marks a separator: blank, `-` or `separator`.
pub open spec fn separator_label(label: Seq<char>) -> bool {
    trim(label).len() == 0 || label == "-"@ || label == "separator"@
}

/// The full path of an item under a path prefix.
pub open spec fn joined_path(prefix: Seq<char>, label: Seq<char>) -> Seq<char> {
    if prefix.len() == 0 { label } else { prefix + " → "@ + label }
}

/// The tray item that a DBus item converts to, under `prefix`.
pub open spec fn converted(d: DbusMenuItem, app: Seq<char>, prefix: Seq<char>) -> MenuItemView
    decreases d, 1int,
{
    let path = joined_path(prefix, d.label@);
    let sep = separator_label(d.label@);
    MenuItemView {
        id: app + "_"@ + signed_decimal(d.id as int),
        label: if sep { "─"@ } else { d.label@ },
        action: if sep {
            ActionView::Activate
        } else {
            ActionView::DbusMenuAction { item_id: d.id, event_id: "clicked"@ }
        },
        icon: opt_str(d.icon_name),
        submenu: converted_list(d.children@, app, path),
        enabled: d.enabled,
        visible: d.visible,
        checkable: d.checkable,
        checked: d.checked,
        shortcut: opt_str(d.shortcut),
        is_separator: sep,
        app_id: app,
        full_path: path,
    }
}

/// The tray items that a list of DBus items converts to, under `prefix`.
pub open spec fn converted_list(ds: Seq<DbusMenuItem>, app: Seq<char>, prefix: Seq<char>) -> Seq<MenuItemView>
    decreases ds, 0int,
{
    if ds.len() == 0 {
        Seq::empty()
    } else {
        seq![converted(ds[0], app, prefix)] + converted_list(ds.drop_first(), app, prefix)
    }
}

proof fn lemma_converted_list_push(ds: Seq<DbusMenuItem>, d: DbusMenuItem, app: Seq<char>, prefix: Seq<char>)
    ensures
        converted_list(ds.push(d), app, prefix) == converted_list(ds, app, prefix).push(converted(d, app, prefix)),
    decreases ds.len(),
{
    if ds.len() == 0 {
        assert(ds.push(d).drop_first() =~= Seq::<DbusMenuItem>::empty());
        assert(ds.push(d)[0] == d);
        assert(converted_list(Seq::<DbusMenuItem>::empty(), app, prefix) == Seq::<MenuItemView>::empty());
        assert(converted_list(ds.push(d), app, prefix) =~= seq![converted(d, app, prefix)]);
        assert(converted_list(ds, app, prefix) == Seq::<MenuItemView>::empty());
    } else {
        assert(ds.push(d).drop_first() =~= ds.drop_first().push(d));
        lemma_converted_list_push(ds.drop_first(), d, app, prefix);
        assert(converted_list(ds.push(d), app, prefix) =~= converted_list(ds, app, prefix).push(converted(d, app, prefix)));
    }
}

/// Whether a label marks a separator.
fn is_separator_label(label: &str) -> (r: bool)
    ensures
        r == separator_label(label@),
{
    let t = trimmed(label);
    t.len() == 0 || str_eq(label, "-") || str_eq(label, "separator")
}

fn convert_children(ds: &Vec<DbusMenuItem>, app_id: &str, prefix: &str) -> (r: Vec<TrayMenuItem>)
    ensures
        items_view(r@) == converted_list(ds@, app_id@, prefix@),
    decreases ds@, 0int,
{
    let mut r: Vec<TrayMenuItem> = Vec::new();
    let mut k: usize = 0;
    proof {
        lemma_items_view(r@);
        assert(ds@.subrange(0, 0) =~= Seq::<DbusMenuItem>::empty());
        assert(items_view(r@) =~= converted_list(ds@.subrange(0, 0), app_id@, prefix@));
    }
    while k < ds.len()
        invariant
            k <= ds.len(),
            items_view(r@) == converted_list(ds@.subrange(0, k as int), app_id@, prefix@),
        decreases ds.len() - k,
    {
        assert(decreases_to!(ds@ => ds@[k as int]));
        let item = convert_ref(&ds[k], app_id, prefix);
        proof {
            lemma_items_view_push(r@, item);
            lemma_converted_list_push(ds@.subrange(0, k as int), ds@[k as int], app_id@, prefix@);
            assert(ds@.subrange(0, k as int).push(ds@[k as int]) =~= ds@.subrange(0, k + 1));
        }
        r.push(item);
        k = k + 1;
    }
    assert(ds@.subrange(0, ds.len() as int) =~= ds@);
    r
}

fn convert_ref(d: &DbusMenuItem, app_id: &str, prefix: &str) -> (r: TrayMenuItem)
    ensures
        item_view(r) == converted(*d, app_id@, prefix@),
    decreases *d, 1int,
{
    let mut path: Vec<char> = Vec::new();
    if chars_of(prefix).len() == 0 {
        push_str(&mut path, d.label.as_str());
    } else {
        push_str(&mut path, prefix);
        push_str(&mut path, " → ");
        push_str(&mut path, d.label.as_str());
    }
    let full_path = string_of(&path);
    let submenu = convert_children(&d.children, app_id, full_path.as_str());
    let sep = is_separator_label(d.label.as_str());
    let mut id: Vec<char> = Vec::new();
    push_str(&mut id, app_id);
    push_str(&mut id, "_");
    push_signed(&mut id, d.id);
    let r = TrayMenuItem {
        id: string_of(&id),
        label: if sep { owned("─") } else { d.label.clone() },
        action: if sep {
            TrayMenuAction::Activate
        } else {
            TrayMenuAction::DbusMenuAction { item_id: d.id, event_id: owned("clicked") }
        },
        icon: clone_opt_string(&d.icon_name),
        submenu,
        enabled: d.enabled,
        visible: d.visible,
        checkable: d.checkable,
        checked: d.checked,
        shortcut: clone_opt_string(&d.shortcut),
        is_separator: sep,
        app_id: owned(app_id),
        full_path,
    };
    r
}

/// Converts a single DBus menu item, and its children, to a tray menu item.
pub fn convert_dbus_menu_item(dbus_item: DbusMenuItem, app_id: &str, path_prefix: &str) -> (r: TrayMenuItem)
    ensures
        item_view(r) == converted(dbus_item, app_id@, path_prefix@),
{
    convert_ref(&dbus_item, app_id, path_prefix)
}

/// Converts a DBus menu structure to tray menu items.
pub fn convert_dbus_to_tray_menu(dbus_menu: Vec<DbusMenuItem>, app_id: &str) -> (r: Vec<TrayMenuItem>)
    ensures
        items_view(r@) == converted_list(dbus_menu@, app_id@, Seq::empty()),
{
    let empty = String::new();
    convert_children(&dbus_menu, app_id, empty.as_str())
}

} // verus!
