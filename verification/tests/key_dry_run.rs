use unilii::key_dry_run::{parse_i32, parse_key_dry_run_events, KeyDryRunEvent};

#[test]
fn parses_key_dry_run_events_with_implicit_timestamps() {
    let events = parse_key_dry_run_events("KEY_LEFTMETA:1,KEY_ENTER:1,KEY_ENTER:0").expect("events should parse");
    assert_eq!(events.len(), 3);
    assert_eq!(events[0].at_ms, 0);
    assert_eq!(events[1].at_ms, 10);
    assert_eq!(events[2].at_ms, 20);
}

#[test]
fn parses_key_dry_run_events_with_explicit_timestamps() {
    let events = parse_key_dry_run_events("KEY_LEFTMETA:1@0,KEY_ENTER:1@120").expect("events should parse");
    assert_eq!(events.len(), 2);
    assert_eq!(events[0].at_ms, 0);
    assert_eq!(events[1].at_ms, 120);
}

#[test]
fn events_keep_keys_values_and_mixed_timestamps() {
    let events = parse_key_dry_run_events(" KEY_A : -1 @5 ,, KEY_B:+2, KEY_C:0@7").expect("events");
    assert_eq!(
        events,
        vec![
            KeyDryRunEvent { key: "KEY_A".to_string(), value: -1, at_ms: 5 },
            KeyDryRunEvent { key: "KEY_B".to_string(), value: 2, at_ms: 0 },
            KeyDryRunEvent { key: "KEY_C".to_string(), value: 0, at_ms: 7 },
        ]
    );
}

#[test]
fn dry_run_errors_name_the_token() {
    assert_eq!(parse_key_dry_run_events(" , "), Err("no events provided".to_string()));
    assert_eq!(parse_key_dry_run_events("KEY_A"), Err("event 'KEY_A' must be KEY:VALUE".to_string()));
    assert_eq!(
        parse_key_dry_run_events("KEY_A:1@x"),
        Err("invalid timestamp 'x': invalid digit found in string".to_string())
    );
    assert_eq!(
        parse_key_dry_run_events("KEY_A: z"),
        Err("invalid value ' z' in 'KEY_A: z': invalid digit found in string".to_string())
    );
    assert_eq!(
        parse_key_dry_run_events("KEY_A:1@ 5"),
        Err("invalid timestamp ' 5': invalid digit found in string".to_string())
    );
}

#[test]
fn signed_parsing_follows_the_range() {
    assert_eq!(parse_i32("-2147483648"), Some(i32::MIN));
    assert_eq!(parse_i32("2147483647"), Some(i32::MAX));
    assert_eq!(parse_i32("2147483648"), None);
    assert_eq!(parse_i32("+7"), Some(7));
    assert_eq!(parse_i32("-"), None);
    assert_eq!(parse_i32("+-1"), None);
    assert_eq!(parse_i32(""), None);
}

#[test]
fn value_and_timestamp_errors_carry_the_standard_parse_messages() {
    for raw in ["12x", "99999999999", "-99999999999", "+", "", "-", "x1", "2147483648", "-2147483649"] {
        let token = format!("KEY_A:{raw}");
        let expected = format!(
            "invalid value '{raw}' in '{token}': {}",
            raw.parse::<i32>().unwrap_err()
        );
        assert_eq!(parse_key_dry_run_events(&token), Err(expected));
    }
    for at in ["", "+", "-5", "18446744073709551616", "9a"] {
        let token = format!("KEY_A:1@{at}");
        let expected = format!("invalid timestamp '{at}': {}", at.parse::<u64>().unwrap_err());
        assert_eq!(parse_key_dry_run_events(&token), Err(expected));
    }
    assert_eq!(
        parse_key_dry_run_events("KEY_A:99999999999"),
        Err("invalid value '99999999999' in 'KEY_A:99999999999': number too large to fit in target type".to_string())
    );
    assert_eq!(
        parse_key_dry_run_events("KEY_A:-99999999999"),
        Err("invalid value '-99999999999' in 'KEY_A:-99999999999': number too small to fit in target type".to_string())
    );
}
