//! The header of the tray's specialised views (Wi-Fi, storage, calendar):
//! a title, a line on the state of the view's data, and an icon name.

use vstd::prelude::*;
use crate::tray_core::NetworkSnapshot;
use crate::text::{decimal, owned, push_decimal, push_str, string_of};

verus! {

/// How many entries each section of the storage view has.
#[derive(Debug, Clone, Copy, PartialEq, Eq, Structural)]
pub struct MountCounts {
    pub local_devices: usize,
    pub sshfs_profiles: usize,
    pub loop_mounts: usize,
    pub encrypted_volumes: usize,
}

/// What the calendar view has loaded.
#[derive(Debug, Clone, Copy, PartialEq, Eq, Structural)]
pub struct CalendarSummary {
    pub accounts: usize,
    pub events: usize,
    /// Whether some account failed to sync.
    pub stale: bool,
}

/// A specialised view with the state of its data.
#[derive(Debug)]
pub enum SpecializedView {
    Network { data: Option<NetworkSnapshot>, loading: bool, error: Option<String> },
    Mount { data: Option<MountCounts>, loading: bool, error: Option<String> },
    Calendar { data: Option<CalendarSummary>, loading: bool, error: Option<String> },
    /// Any other view.
    Other,
}

/// The state line of the Wi-Fi view.
pub open spec fn network_line(data: Option<NetworkSnapshot>, loading: bool, error: Option<String>) -> Seq<char> {
    if loading {
        "Scanning wireless networks…"@
    } else if let Some(e) = error {
        "Network data unavailable · "@ + e@
    } else if let Some(s) = data {
        match s.connected_ssid {
            Some(ssid) => "Connected to "@ + ssid@ + " on "@ + s.interface@,
            None => if s.enabled {
                s.interface@ + " · not connected"@
            } else {
                "Wireless radio disabled"@
            },
        }
    } else {
        "No network snapshot"@
    }
}

/// The state line of the storage view.
pub open spec fn mount_line(data: Option<MountCounts>, loading: bool, error: Option<String>) -> Seq<char> {
    if loading {
        "Discovering storage and remote profiles…"@
    } else if let Some(e) = error {
        "Storage refresh failed · "@ + e@
    } else if let Some(c) = data {
        decimal(c.local_devices as nat) + " local · "@ + decimal(c.sshfs_profiles as nat) + " SSHFS · "@ + decimal(
            c.loop_mounts as nat,
        ) + " loop · "@ + decimal(c.encrypted_volumes as nat) + " encrypted"@
    } else {
        "No storage snapshot"@
    }
}

/// The state line of the calendar view.
pub open spec fn calendar_line(data: Option<CalendarSummary>, loading: bool, error: Option<String>) -> Seq<char> {
    if loading {
        "Synchronizing calendar accounts…"@
    } else if let Some(e) = error {
        "Calendar refresh failed · "@ + e@
    } else if let Some(c) = data {
        decimal(c.accounts as nat) + " account(s) · "@ + decimal(c.events as nat) + " upcoming event(s)"@ + if c.stale {
            " · partial data"@
        } else {
            Seq::empty()
        }
    } else {
        "No calendar snapshot"@
    }
}

/// The header of a view: its title, its state line and its icon name.
pub open spec fn view_header(v: SpecializedView) -> (Seq<char>, Seq<char>, Seq<char>) {
    match v {
        SpecializedView::Network { data, loading, error } => (
            "Wi-Fi"@,
            network_line(data, loading, error),
            "network-wireless"@,
        ),
        SpecializedView::Mount { data, loading, error } => (
            "Storage"@,
            mount_line(data, loading, error),
            "drive-harddisk"@,
        ),
        SpecializedView::Calendar { data, loading, error } => (
            "Calendar"@,
            calendar_line(data, loading, error),
            "x-office-calendar"@,
        ),
        SpecializedView::Other => ("Menu"@, Seq::empty(), "applications-system"@),
    }
}

fn network_text(data: &Option<NetworkSnapshot>, loading: bool, error: &Option<String>) -> (r: String)
    ensures
        r@ == network_line(*data, loading, *error),
{
    if loading {
        return owned("Scanning wireless networks…");
    }
    let mut v: Vec<char> = Vec::new();
    match error {
        Some(e) => {
            push_str(&mut v, "Network data unavailable · ");
            push_str(&mut v, e.as_str());
        },
        None => match data {
            Some(s) => match &s.connected_ssid {
                Some(ssid) => {
                    push_str(&mut v, "Connected to ");
                    push_str(&mut v, ssid.as_str());
                    push_str(&mut v, " on ");
                    push_str(&mut v, s.interface.as_str());
                },
                None => if s.enabled {
                    push_str(&mut v, s.interface.as_str());
                    push_str(&mut v, " · not connected");
                } else {
                    push_str(&mut v, "Wireless radio disabled");
                },
            },
            None => push_str(&mut v, "No network snapshot"),
        },
    }
    string_of(&v)
}

fn mount_text(data: &Option<MountCounts>, loading: bool, error: &Option<String>) -> (r: String)
    ensures
        r@ == mount_line(*data, loading, *error),
{
    if loading {
        return owned("Discovering storage and remote profiles…");
    }
    let mut v: Vec<char> = Vec::new();
    match error {
        Some(e) => {
            push_str(&mut v, "Storage refresh failed · ");
            push_str(&mut v, e.as_str());
        },
        None => match data {
            Some(c) => {
                push_decimal(&mut v, c.local_devices as u128);
                push_str(&mut v, " local · ");
                push_decimal(&mut v, c.sshfs_profiles as u128);
                push_str(&mut v, " SSHFS · ");
                push_decimal(&mut v, c.loop_mounts as u128);
                push_str(&mut v, " loop · ");
                push_decimal(&mut v, c.encrypted_volumes as u128);
                push_str(&mut v, " encrypted");
            },
            None => push_str(&mut v, "No storage snapshot"),
        },
    }
    string_of(&v)
}

fn calendar_text(data: &Option<CalendarSummary>, loading: bool, error: &Option<String>) -> (r: String)
    ensures
        r@ == calendar_line(*data, loading, *error),
{
    if loading {
        return owned("Synchronizing calendar accounts…");
    }
    let mut v: Vec<char> = Vec::new();
    match error {
        Some(e) => {
            push_str(&mut v, "Calendar refresh failed · ");
            push_str(&mut v, e.as_str());
        },
        None => match data {
            Some(c) => {
                push_decimal(&mut v, c.accounts as u128);
                push_str(&mut v, " account(s) · ");
                push_decimal(&mut v, c.events as u128);
                push_str(&mut v, " upcoming event(s)");
                if c.stale {
                    push_str(&mut v, " · partial data");
                }
                proof {
                    if !c.stale {
                        assert(v@ =~= v@ + Seq::<char>::empty());
                    }
                }
            },
            None => push_str(&mut v, "No calendar snapshot"),
        },
    }
    string_of(&v)
}

/// The header of a specialised view.
pub fn specialized_view_metadata(view: &SpecializedView) -> (r: (String, String, &'static str))
    ensures
        (r.0@, r.1@, r.2@) == view_header(*view),
{
    match view {
        SpecializedView::Network { data, loading, error } => (
            owned("Wi-Fi"),
            network_text(data, *loading, error),
            "network-wireless",
        ),
        SpecializedView::Mount { data, loading, error } => (
            owned("Storage"),
            mount_text(data, *loading, error),
            "drive-harddisk",
        ),
        SpecializedView::Calendar { data, loading, error } => (
            owned("Calendar"),
            calendar_text(data, *loading, error),
            "x-office-calendar",
        ),
        SpecializedView::Other => (owned("Menu"), String::new(), "applications-system"),
    }
}

} // verus!
