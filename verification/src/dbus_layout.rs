//! Reading dbusmenu layouts: the properties of a menu entry and the
//! recursive `(id, properties, children)` structure of a layout, as plain
//! values, into DBus menu items; and StatusNotifier identifiers.

use vstd::prelude::*;
use crate::text::{chars_eq, chars_of, find_chars, first_at, lemma_first_at, owned, string_of};
use crate::tray_core::clone_opt_string;
use crate::tray_dbus::{DbusError, DbusMenuItem};

verus! {

// == Properties ==

/// A property value of a menu entry.
#[derive(Debug, Clone, PartialEq, Eq)]
pub enum PropertyValue {
    Str(String),
    Bool(bool),
    I32(i32),
    /// A value of another type.
    Other,
}

/// The value of the first entry under `key`, if there is one.
pub open spec fn lookup(dict: Seq<(String, PropertyValue)>, key: Seq<char>) -> Option<PropertyValue>
    decreases dict.len(),
{
    if dict.len() == 0 {
        None
    } else if dict[0].0@ == key {
        Some(dict[0].1)
    } else {
        lookup(dict.drop_first(), key)
    }
}

fn find_property<'a>(dict: &'a Vec<(String, PropertyValue)>, key: &str) -> (r: Option<&'a PropertyValue>)
    ensures
        match r {
            Some(v) => lookup(dict@, key@) == Some(*v),
            None => lookup(dict@, key@) is None,
        },
{
    let wanted = chars_of(key);
    let mut i: usize = 0;
    assert(dict@.skip(0) =~= dict@);
    while i < dict.len()
        invariant
            i <= dict@.len(),
            wanted@ == key@,
            lookup(dict@.skip(i as int), key@) == lookup(dict@, key@),
        decreases dict.len() - i,
    {
        assert(dict@.skip(i as int)[0] == dict@[i as int]);
        assert(dict@.skip(i as int).drop_first() =~= dict@.skip(i + 1));
        let name = chars_of(dict[i].0.as_str());
        if chars_eq(&name, &wanted) {
            return Some(&dict[i].1);
        }
        i = i + 1;
    }
    None
}

/// The string under `key`, when it holds a string.
pub open spec fn string_property(dict: Seq<(String, PropertyValue)>, key: Seq<char>) -> Option<String> {
    match lookup(dict, key) {
        Some(PropertyValue::Str(s)) => Some(s),
        _ => None,
    }
}

/// The boolean under `key`, when it holds a boolean.
pub open spec fn bool_property(dict: Seq<(String, PropertyValue)>, key: Seq<char>) -> Option<bool> {
    match lookup(dict, key) {
        Some(PropertyValue::Bool(b)) => Some(b),
        _ => None,
    }
}

/// The integer under `key`, when it holds a 32-bit integer.
pub open spec fn int_property(dict: Seq<(String, PropertyValue)>, key: Seq<char>) -> Option<i32> {
    match lookup(dict, key) {
        Some(PropertyValue::I32(n)) => Some(n),
        _ => None,
    }
}

/// The string under `key`; none when it is missing or of another type.
pub fn extract_string_property(dict: &Vec<(String, PropertyValue)>, key: &str) -> (r: Option<String>)
    ensures
        r == string_property(dict@, key@),
{
    match find_property(dict, key) {
        Some(PropertyValue::Str(s)) => Some(s.clone()),
        _ => None,
    }
}

/// The boolean under `key`; none when it is missing or of another type.
pub fn extract_bool_property(dict: &Vec<(String, PropertyValue)>, key: &str) -> (r: Option<bool>)
    ensures
        r == bool_property(dict@, key@),
{
    match find_property(dict, key) {
        Some(PropertyValue::Bool(b)) => Some(*b),
        _ => None,
    }
}

/// The integer under `key`; none when it is missing or of another type.
pub fn extract_int_property(dict: &Vec<(String, PropertyValue)>, key: &str) -> (r: Option<i32>)
    ensures
        r == int_property(dict@, key@),
{
    match find_property(dict, key) {
        Some(PropertyValue::I32(n)) => Some(*n),
        _ => None,
    }
}

// == Layouts ==

/// A value of a dbusmenu layout: a structure of fields, a property
/// dictionary, an array, or a single property value.
#[derive(Debug, PartialEq, Eq)]
pub enum LayoutValue {
    Structure(Vec<LayoutValue>),
    Dict(Vec<(String, PropertyValue)>),
    Array(Vec<LayoutValue>),
    Scalar(PropertyValue),
}

/// Abstract value of a DBus menu item.
pub struct DbusItemView {
    pub id: i32,
    pub label: Seq<char>,
    pub enabled: bool,
    pub visible: bool,
    pub icon_name: Option<Seq<char>>,
    pub checkable: bool,
    pub checked: bool,
    pub shortcut: Option<Seq<char>>,
    pub children: Seq<DbusItemView>,
}

/// An optional string by its characters.
pub open spec fn opt_chars(o: Option<String>) -> Option<Seq<char>> {
    match o {
        Some(s) => Some(s@),
        None => None,
    }
}

pub open spec fn dbus_view(d: DbusMenuItem) -> DbusItemView
    decreases d, 1int,
{
    DbusItemView {
        id: d.id,
        label: d.label@,
        enabled: d.enabled,
        visible: d.visible,
        icon_name: opt_chars(d.icon_name),
        checkable: d.checkable,
        checked: d.checked,
        shortcut: opt_chars(d.shortcut),
        children: dbus_views(d.children@),
    }
}

pub open spec fn dbus_views(ds: Seq<DbusMenuItem>) -> Seq<DbusItemView>
    decreases ds, 0int,
{
    if ds.len() == 0 {
        Seq::empty()
    } else {
        seq![dbus_view(ds[0])] + dbus_views(ds.drop_first())
    }
}

/// The menu entry that a property dictionary describes, with its children.
/// Every entry gets id 1; the label defaults to `Item 1`, enabled and
/// visible to true; an entry with a non-empty toggle type is checkable, and
/// checked when its toggle state is 1.
pub open spec fn entry_of(props: Seq<(String, PropertyValue)>, children: Seq<DbusItemView>) -> DbusItemView {
    let toggle_type = match string_property(props, "toggle-type"@) {
        Some(t) => t@,
        None => Seq::empty(),
    };
    let toggle_state = match int_property(props, "toggle-state"@) {
        Some(n) => n,
        None => 0,
    };
    DbusItemView {
        id: 1,
        label: match string_property(props, "label"@) {
            Some(l) => l@,
            None => "Item 1"@,
        },
        enabled: match bool_property(props, "enabled"@) {
            Some(b) => b,
            None => true,
        },
        visible: match bool_property(props, "visible"@) {
            Some(b) => b,
            None => true,
        },
        icon_name: opt_chars(string_property(props, "icon-name"@)),
        checkable: toggle_type.len() > 0,
        checked: toggle_state == 1,
        shortcut: opt_chars(string_property(props, "shortcut"@)),
        children: children,
    }
}

/// What a layout value reads as: a structure of exactly three fields (id,
/// property dictionary, array of children) is a menu entry, whose children
/// are the entries that read without error; anything else is an error.
pub open spec fn parsed_item(v: LayoutValue) -> Result<DbusItemView, Seq<char>>
    decreases v, 1int,
{
    match v {
        LayoutValue::Structure(fields) => {
            if fields@.len() != 3 {
                Err("Menu item structure must have 3 fields"@)
            } else {
                match fields@[1] {
                    LayoutValue::Dict(props) => match fields@[2] {
                        LayoutValue::Array(children) => Ok(entry_of(props@, parsed_children(children@))),
                        _ => Err("Invalid children array"@),
                    },
                    _ => Err("Properties must be a dictionary"@),
                }
            }
        },
        _ => Err("Expected structure"@),
    }
}

/// The entries among `vs` that read without error, in order.
pub open spec fn parsed_children(vs: Seq<LayoutValue>) -> Seq<DbusItemView>
    decreases vs, 0int,
{
    if vs.len() == 0 {
        Seq::empty()
    } else {
        (match parsed_item(vs[0]) {
            Ok(i) => seq![i],
            Err(_) => Seq::empty(),
        }) + parsed_children(vs.drop_first())
    }
}

proof fn lemma_parsed_children_push(vs: Seq<LayoutValue>, v: LayoutValue)
    ensures
        parsed_children(vs.push(v)) == parsed_children(vs) + match parsed_item(v) {
            Ok(i) => seq![i],
            Err(_) => Seq::<DbusItemView>::empty(),
        },
    decreases vs.len(),
{
    if vs.len() == 0 {
        assert(vs.push(v).drop_first() =~= Seq::<LayoutValue>::empty());
        assert(vs.push(v)[0] == v);
        assert(parsed_children(Seq::<LayoutValue>::empty()) == Seq::<DbusItemView>::empty());
        assert(parsed_children(vs) == Seq::<DbusItemView>::empty());
        assert(parsed_children(vs.push(v)) =~= parsed_children(vs) + match parsed_item(v) {
            Ok(i) => seq![i],
            Err(_) => Seq::<DbusItemView>::empty(),
        });
    } else {
        assert(vs.push(v).drop_first() =~= vs.drop_first().push(v));
        assert(vs.push(v)[0] == vs[0]);
        lemma_parsed_children_push(vs.drop_first(), v);
        assert(parsed_children(vs.push(v)) =~= parsed_children(vs) + match parsed_item(v) {
            Ok(i) => seq![i],
            Err(_) => Seq::<DbusItemView>::empty(),
        });
    }
}

proof fn lemma_dbus_views_push(ds: Seq<DbusMenuItem>, d: DbusMenuItem)
    ensures
        dbus_views(ds.push(d)) == dbus_views(ds).push(dbus_view(d)),
    decreases ds.len(),
{
    if ds.len() == 0 {
        assert(ds.push(d).drop_first() =~= Seq::<DbusMenuItem>::empty());
        assert(ds.push(d)[0] == d);
        assert(dbus_views(Seq::<DbusMenuItem>::empty()) == Seq::<DbusItemView>::empty());
        assert(dbus_views(ds) == Seq::<DbusItemView>::empty());
        assert(dbus_views(ds.push(d)) =~= dbus_views(ds).push(dbus_view(d)));
    } else {
        assert(ds.push(d).drop_first() =~= ds.drop_first().push(d));
        assert(ds.push(d)[0] == ds[0]);
        lemma_dbus_views_push(ds.drop_first(), d);
        assert(dbus_views(ds.push(d)) =~= dbus_views(ds).push(dbus_view(d)));
    }
}

fn parse_children(children: &Vec<LayoutValue>) -> (r: Vec<DbusMenuItem>)
    ensures
        dbus_views(r@) == parsed_children(children@),
    decreases children@, 0int,
{
    let mut items: Vec<DbusMenuItem> = Vec::new();
    let mut k: usize = 0;
    assert(children@.take(0) =~= Seq::<LayoutValue>::empty());
    assert(dbus_views(items@) =~= Seq::<DbusItemView>::empty());
    while k < children.len()
        invariant
            k <= children@.len(),
            dbus_views(items@) == parsed_children(children@.take(k as int)),
        decreases children.len() - k,
    {
        assert(decreases_to!(children@ => children@[k as int]));
        let parsed = parse_value(&children[k]);
        proof {
            assert(children@.take(k + 1) =~= children@.take(k as int).push(children@[k as int]));
            lemma_parsed_children_push(children@.take(k as int), children@[k as int]);
        }
        match parsed {
            Ok(item) => {
                proof {
                    lemma_dbus_views_push(items@, item);
                }
                items.push(item);
            },
            Err(_) => {
                assert(parsed_children(children@.take(k + 1)) =~= parsed_children(children@.take(k as int)));
            },
        }
        k = k + 1;
    }
    assert(children@.take(k as int) =~= children@);
    items
}

fn parse_value(value: &LayoutValue) -> (r: Result<DbusMenuItem, DbusError>)
    ensures
        match parsed_item(*value) {
            Ok(v) => r is Ok && dbus_view(r->Ok_0) == v,
            Err(m) => r matches Err(DbusError::ResponseParsing(e)) && e@ == m,
        },
    decreases *value, 1int,
{
    let fields = match value {
        LayoutValue::Structure(fields) => fields,
        _ => return Err(DbusError::ResponseParsing(owned("Expected structure"))),
    };
    if fields.len() != 3 {
        return Err(DbusError::ResponseParsing(owned("Menu item structure must have 3 fields")));
    }
    let props = match &fields[1] {
        LayoutValue::Dict(props) => props,
        _ => return Err(DbusError::ResponseParsing(owned("Properties must be a dictionary"))),
    };
    let children = match &fields[2] {
        LayoutValue::Array(children) => children,
        _ => return Err(DbusError::ResponseParsing(owned("Invalid children array"))),
    };
    assert(decreases_to!(*value => children@));
    let parsed_children = parse_children(children);
    let label = match extract_string_property(props, "label") {
        Some(l) => l,
        None => owned("Item 1"),
    };
    let enabled = match extract_bool_property(props, "enabled") {
        Some(b) => b,
        None => true,
    };
    let visible = match extract_bool_property(props, "visible") {
        Some(b) => b,
        None => true,
    };
    let icon_name = extract_string_property(props, "icon-name");
    let shortcut = extract_string_property(props, "shortcut");
    let toggle_type = match extract_string_property(props, "toggle-type") {
        Some(t) => t,
        None => String::new(),
    };
    let toggle_state = match extract_int_property(props, "toggle-state") {
        Some(n) => n,
        None => 0,
    };
    let checkable = !toggle_type.as_str().is_empty();
    Ok(DbusMenuItem {
        id: 1,
        label,
        enabled,
        visible,
        icon_name,
        checkable,
        checked: toggle_state == 1,
        shortcut,
        children: parsed_children,
    })
}

/// Reads one menu entry of a layout, with its children.
pub fn parse_menu_item_recursive(value: &LayoutValue) -> (r: Result<DbusMenuItem, DbusError>)
    ensures
        match parsed_item(*value) {
            Ok(v) => r is Ok && dbus_view(r->Ok_0) == v,
            Err(m) => r matches Err(DbusError::ResponseParsing(e)) && e@ == m,
        },
{
    parse_value(value)
}

/// Reads the entries of a layout `(id, properties, children)`: the children
/// that read without error, in order.
pub fn parse_dbus_menu_layout(layout: (i32, Vec<(String, PropertyValue)>, Vec<LayoutValue>)) -> (r: Result<Vec<DbusMenuItem>, DbusError>)
    ensures
        r is Ok,
        dbus_views(r->Ok_0@) == parsed_children(layout.2@),
{
    let (_id, _properties, children) = layout;
    Ok(parse_children(&children))
}

// == StatusNotifier identifiers ==

/// The service and object path an identifier names: around its first `/`
/// (the path keeps the slash), or the whole identifier with the standard
/// `/StatusNotifierItem` path.
pub open spec fn identifier_parts(identifier: Seq<char>) -> (Seq<char>, Seq<char>) {
    match first_at(identifier, seq!['/'], 0) {
        Some(i) => (identifier.take(i), identifier.skip(i)),
        None => (identifier, "/StatusNotifierItem"@),
    }
}

/// Splits a StatusNotifier identifier into service name and object path.
pub fn parse_status_notifier_identifier(identifier: &str) -> (r: Result<(String, String), DbusError>)
    ensures
        r matches Ok((service, path)) && (service@, path@) == identifier_parts(identifier@),
{
    let cs = chars_of(identifier);
    let mut slash: Vec<char> = Vec::new();
    slash.push('/');
    assert(slash@ =~= seq!['/']);
    match find_chars(&cs, &slash, 0) {
        Some(i) => {
            proof {
                lemma_first_at(cs@, slash@, 0);
            }
            let mut service: Vec<char> = Vec::new();
            let mut path: Vec<char> = Vec::new();
            let mut k: usize = 0;
            while k < cs.len()
                invariant
                    k <= cs@.len(),
                    i <= cs@.len(),
                    service@ == cs@.take(if k < i { k as int } else { i as int }),
                    path@ == if k < i { Seq::<char>::empty() } else { cs@.subrange(i as int, k as int) },
                decreases cs.len() - k,
            {
                if k < i {
                    service.push(cs[k]);
                    assert(service@ =~= cs@.take(k + 1));
                } else {
                    path.push(cs[k]);
                    assert(path@ =~= cs@.subrange(i as int, k + 1));
                }
                if k + 1 == i {
                    assert(path@ =~= cs@.subrange(i as int, i as int));
                }
                k = k + 1;
            }
            assert(cs@.subrange(i as int, cs@.len() as int) =~= cs@.skip(i as int));
            Ok((string_of(&service), string_of(&path)))
        },
        None => Ok((owned(identifier), owned("/StatusNotifierItem"))),
    }
}

/// A menu entry is ticked exactly when its `toggle-state` property is the
/// integer 1: with state 0, another value or no state it is unticked,
/// whatever its toggle type; and it can be ticked exactly when its
/// `toggle-type` is a non-empty string.
pub proof fn entry_is_checked_exactly_when_toggle_state_is_one(v: LayoutValue)
    requires
        v matches LayoutValue::Structure(fields) && fields@.len() == 3 && fields@[1] is Dict && fields@[2] is Array,
    ensures
        v matches LayoutValue::Structure(fields) && fields@[1] matches LayoutValue::Dict(props)
            && parsed_item(v) matches Ok(e)
            && (e.checked <==> int_property(props@, "toggle-state"@) == Some(1i32))
            && (e.checkable <==> (string_property(props@, "toggle-type"@) matches Some(t) && t@.len() > 0)),
{
}

} // verus!
