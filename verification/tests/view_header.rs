use unilii::tray_core::NetworkSnapshot;
use unilii::view_header::{specialized_view_metadata, CalendarSummary, MountCounts, SpecializedView};

fn snapshot(ssid: Option<&str>, enabled: bool) -> NetworkSnapshot {
    NetworkSnapshot {
        enabled,
        state: "connected".to_string(),
        interface: "wlan0".to_string(),
        connected_ssid: ssid.map(str::to_string),
        known_networks: Vec::new(),
        networks: Vec::new(),
    }
}

fn header(view: SpecializedView) -> (String, String, String) {
    let (title, line, icon) = specialized_view_metadata(&view);
    (title, line, icon.to_string())
}

#[test]
fn network_header_reports_connection() {
    let network = |data, loading, error| SpecializedView::Network { data, loading, error };
    assert_eq!(
        header(network(Some(snapshot(Some("home"), true)), false, None)),
        ("Wi-Fi".to_string(), "Connected to home on wlan0".to_string(), "network-wireless".to_string())
    );
    assert_eq!(header(network(Some(snapshot(None, true)), false, None)).1, "wlan0 · not connected");
    assert_eq!(header(network(Some(snapshot(None, false)), false, None)).1, "Wireless radio disabled");
    assert_eq!(header(network(None, true, Some("x".to_string()))).1, "Scanning wireless networks…");
    assert_eq!(header(network(None, false, Some("nmcli".to_string()))).1, "Network data unavailable · nmcli");
    assert_eq!(header(network(None, false, None)).1, "No network snapshot");
}

#[test]
fn storage_and_calendar_headers_count_entries() {
    let counts = MountCounts { local_devices: 2, sshfs_profiles: 1, loop_mounts: 0, encrypted_volumes: 3 };
    assert_eq!(
        header(SpecializedView::Mount { data: Some(counts), loading: false, error: None }),
        ("Storage".to_string(), "2 local · 1 SSHFS · 0 loop · 3 encrypted".to_string(), "drive-harddisk".to_string())
    );
    let summary = CalendarSummary { accounts: 1, events: 4, stale: true };
    assert_eq!(
        header(SpecializedView::Calendar { data: Some(summary), loading: false, error: None }).1,
        "1 account(s) · 4 upcoming event(s) · partial data"
    );
    assert_eq!(
        header(SpecializedView::Calendar { data: Some(CalendarSummary { stale: false, ..summary }), loading: false, error: None }).1,
        "1 account(s) · 4 upcoming event(s)"
    );
    assert_eq!(
        header(SpecializedView::Calendar { data: None, loading: false, error: Some("401".to_string()) }).1,
        "Calendar refresh failed · 401"
    );
    assert_eq!(header(SpecializedView::Other), ("Menu".to_string(), String::new(), "applications-system".to_string()));
}
