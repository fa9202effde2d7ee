//! Which tray icons get one of the bar's own menus: the mount menu, the
//! calendar menu, or a configured custom menu.

use vstd::prelude::*;
use crate::tray_core::TrayIcon;
use crate::text::{ascii_lower, chars_contain, chars_eq_ignore_case, chars_of, eq_ignore_ascii_case, has_infix, lower_chars};

verus! {

/// The text that an icon is matched by: its title, id and icon name (empty
/// when it has none), ASCII-lowercased and separated by spaces.
pub open spec fn icon_blob(icon: TrayIcon) -> Seq<char> {
    ascii_lower(icon.title@) + " "@ + ascii_lower(icon.id@) + " "@ + ascii_lower(
        match icon.icon_name {
            Some(n) => n@,
            None => Seq::empty(),
        },
    )
}

fn blob_of(icon: &TrayIcon) -> (r: Vec<char>)
    ensures
        r@ == icon_blob(*icon),
{
    let mut r = lower_chars(&chars_of(icon.title.as_str()));
    r.push(' ');
    let mut id = lower_chars(&chars_of(icon.id.as_str()));
    r.append(&mut id);
    r.push(' ');
    match &icon.icon_name {
        Some(n) => {
            let mut name = lower_chars(&chars_of(n.as_str()));
            r.append(&mut name);
        },
        None => {
            assert(ascii_lower(Seq::<char>::empty()) =~= Seq::<char>::empty());
        },
    }
    proof {
        reveal_strlit(" ");
    }
    assert(r@ =~= icon_blob(*icon));
    r
}

/// Whether the icon belongs to storage: its text names a drive, a disk, a
/// mount or USB.
pub open spec fn mount_icon(icon: TrayIcon) -> bool {
    let b = icon_blob(icon);
    has_infix(b, "drive"@) || has_infix(b, "disk"@) || has_infix(b, "mount"@) || has_infix(b, "usb"@)
}

/// Whether the icon belongs to storage.
pub fn is_mount_icon(icon: &TrayIcon) -> (r: bool)
    ensures
        r == mount_icon(*icon),
{
    let b = blob_of(icon);
    chars_contain(&b, &chars_of("drive")) || chars_contain(&b, &chars_of("disk")) || chars_contain(
        &b,
        &chars_of("mount"),
    ) || chars_contain(&b, &chars_of("usb"))
}

/// Whether the icon belongs to a calendar: its text names a calendar, a
/// date or CalDAV.
pub open spec fn calendar_icon(icon: TrayIcon) -> bool {
    let b = icon_blob(icon);
    has_infix(b, "calendar"@) || has_infix(b, "date"@) || has_infix(b, "caldav"@)
}

/// Whether the icon belongs to a calendar.
pub fn is_calendar_icon(icon: &TrayIcon) -> (r: bool)
    ensures
        r == calendar_icon(*icon),
{
    let b = blob_of(icon);
    chars_contain(&b, &chars_of("calendar")) || chars_contain(&b, &chars_of("date")) || chars_contain(
        &b,
        &chars_of("caldav"),
    )
}

/// Which icons a custom menu is configured for.
#[derive(Debug, Clone)]
pub struct CustomMenuMatch {
    /// Whether the custom menu is on.
    pub enabled: bool,
    /// Whether it has any item.
    pub has_items: bool,
    /// Application ids it applies to, compared ignoring ASCII case.
    pub app_ids: Vec<String>,
    /// Fragments of icon names it applies to, compared ignoring ASCII case.
    pub icon_name_patterns: Vec<String>,
}

/// Whether the custom menu applies to the icon: it is on and has items, and
/// one of its application ids is the icon's id, or one of its patterns
/// occurs in the icon's name (both ignoring ASCII case).
pub open spec fn custom_menu_icon(icon: TrayIcon, config: CustomMenuMatch) -> bool {
    let name = ascii_lower(
        match icon.icon_name {
            Some(n) => n@,
            None => Seq::empty(),
        },
    );
    &&& config.enabled
    &&& config.has_items
    &&& {
        ||| exists|i: int|
            0 <= i < config.app_ids@.len() && eq_ignore_ascii_case(#[trigger] config.app_ids@[i]@, icon.id@)
        ||| exists|i: int|
            0 <= i < config.icon_name_patterns@.len() && has_infix(
                name,
                ascii_lower(#[trigger] config.icon_name_patterns@[i]@),
            )
    }
}

/// Whether the custom menu applies to the icon.
pub fn is_custom_menu_icon(icon: &TrayIcon, config: &CustomMenuMatch) -> (r: bool)
    ensures
        r == custom_menu_icon(*icon, *config),
{
    if !config.enabled || !config.has_items {
        return false;
    }
    let id = chars_of(icon.id.as_str());
    let mut i: usize = 0;
    while i < config.app_ids.len()
        invariant
            i <= config.app_ids@.len(),
            config.enabled && config.has_items,
            id@ == icon.id@,
            forall|j: int| 0 <= j < i ==> !eq_ignore_ascii_case(#[trigger] config.app_ids@[j]@, icon.id@),
        decreases config.app_ids.len() - i,
    {
        let a = chars_of(config.app_ids[i].as_str());
        if chars_eq_ignore_case(&a, &id) {
            assert(eq_ignore_ascii_case(config.app_ids@[i as int]@, icon.id@));
            return true;
        }
        i = i + 1;
    }
    let name = match &icon.icon_name {
        Some(n) => lower_chars(&chars_of(n.as_str())),
        None => {
            let empty: Vec<char> = Vec::new();
            assert(ascii_lower(empty@) =~= Seq::<char>::empty());
            lower_chars(&empty)
        },
    };
    let mut k: usize = 0;
    while k < config.icon_name_patterns.len()
        invariant
            k <= config.icon_name_patterns@.len(),
            config.enabled && config.has_items,
            name@ == ascii_lower(
                match icon.icon_name {
                    Some(n) => n@,
                    None => Seq::empty(),
                },
            ),
            forall|j: int|
                0 <= j < k ==> !has_infix(name@, ascii_lower(#[trigger] config.icon_name_patterns@[j]@)),
        decreases config.icon_name_patterns.len() - k,
    {
        let p = lower_chars(&chars_of(config.icon_name_patterns[k].as_str()));
        if chars_contain(&name, &p) {
            assert(has_infix(name@, ascii_lower(config.icon_name_patterns@[k as int]@)));
            return true;
        }
        k = k + 1;
    }
    false
}

} // verus!
