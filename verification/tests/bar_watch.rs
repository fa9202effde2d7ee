use unilii::bar_watch::{reload_report, tick_line, watch_should_stop, watch_sleep, BarReloadStatus};

#[test]
fn reload_outcomes_report_as_the_watch_loop_prints_them() {
    assert_eq!(reload_report(Ok(BarReloadStatus::Reloaded), None), Some("reload: reloaded".to_string()));
    assert_eq!(
        reload_report(Ok(BarReloadStatus::Failed), Some("unknown module 'x'")),
        Some("reload: failed: unknown module 'x'".to_string())
    );
    assert_eq!(
        reload_report(Ok(BarReloadStatus::Failed), None),
        Some("reload: failed: unknown reload error".to_string())
    );
    assert_eq!(reload_report(Ok(BarReloadStatus::Unchanged), Some("old")), None);
    assert_eq!(
        reload_report(Err("permission denied".to_string()), None),
        Some("reload: failed: permission denied".to_string())
    );
}

#[test]
fn ticks_stop_at_the_limit_and_sleep_at_most_the_interval() {
    assert_eq!(tick_line(3), "tick 3");
    assert!(!watch_should_stop(2, Some(3)));
    assert!(watch_should_stop(3, Some(3)));
    assert!(!watch_should_stop(1_000, None));
    assert_eq!(watch_sleep(Some(250), 1_000), 250);
    assert_eq!(watch_sleep(Some(5_000), 1_000), 1_000);
    assert_eq!(watch_sleep(None, 1_000), 1_000);
    assert_eq!(watch_sleep(Some(0), 1_000), 0);
}
