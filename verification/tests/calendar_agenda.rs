use unilii::calendar_agenda::{calendar_snapshot, calendar_status, sort_agenda, CalendarAccountError, CalendarAgendaItem};

fn item(start: &str, title: &str, account: &str) -> CalendarAgendaItem {
    CalendarAgendaItem {
        account_id: account.to_string(),
        title: title.to_string(),
        start_rfc3339: start.to_string(),
        location: None,
    }
}

#[test]
fn agenda_orders_by_start_then_title_and_keeps_ties() {
    let items = vec![
        item("2024-05-02T09:00:00Z", "b", "a1"),
        item("2024-05-01T09:00:00Z", "z", "a1"),
        item("2024-05-02T09:00:00Z", "a", "a2"),
        item("2024-05-02T09:00:00Z", "b", "a3"),
    ];
    let sorted = sort_agenda(items);
    let keys: Vec<(String, String, String)> =
        sorted.iter().map(|i| (i.start_rfc3339.clone(), i.title.clone(), i.account_id.clone())).collect();
    assert_eq!(
        keys,
        vec![
            ("2024-05-01T09:00:00Z".to_string(), "z".to_string(), "a1".to_string()),
            ("2024-05-02T09:00:00Z".to_string(), "a".to_string(), "a2".to_string()),
            ("2024-05-02T09:00:00Z".to_string(), "b".to_string(), "a1".to_string()),
            ("2024-05-02T09:00:00Z".to_string(), "b".to_string(), "a3".to_string()),
        ]
    );
}

#[test]
fn agenda_keeps_at_most_48_events() {
    let items: Vec<CalendarAgendaItem> = (0..60).rev().map(|n| item(&format!("{n:03}"), "t", "a")).collect();
    let sorted = sort_agenda(items);
    assert_eq!(sorted.len(), 48);
    assert_eq!(sorted[0].start_rfc3339, "000");
    assert_eq!(sorted[47].start_rfc3339, "047");
}

#[test]
fn status_and_snapshot() {
    assert_eq!(calendar_status(3, 2, 0), "Synced 3 event(s) from 2 account(s)");
    assert_eq!(calendar_status(3, 2, 1), "Partial sync: 3 event(s), 1 account error(s)");
    let snapshot = calendar_snapshot(
        vec!["a".to_string(), "b".to_string()],
        vec![item("2", "x", "a"), item("1", "y", "a")],
        vec![CalendarAccountError { account_id: "b".to_string(), message: "offline".to_string() }],
    );
    assert!(snapshot.stale);
    assert_eq!(snapshot.events[0].title, "y");
    assert_eq!(snapshot.status, "Partial sync: 2 event(s), 1 account error(s)");
}
