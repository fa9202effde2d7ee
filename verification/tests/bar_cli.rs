use unilii::bar_cli::{parse_args, parse_u64, BarCli};

#[test]
fn parses_default_config_flag() {
    let cli = parse_args(vec!["--print-default-config".to_string()]).unwrap();
    assert!(cli.print_default_config);
}

#[test]
fn parses_watch_loop_flags() {
    let cli = parse_args(vec![
        "--watch".to_string(),
        "--ticks".to_string(),
        "3".to_string(),
        "--tick-interval-ms".to_string(),
        "0".to_string(),
    ])
    .unwrap();
    assert!(cli.watch);
    assert_eq!(cli.ticks, Some(3));
    assert_eq!(cli.tick_interval_ms, 0);
}

#[test]
fn rejects_missing_config_path() {
    let err = parse_args(vec!["--config".to_string()]).unwrap_err();
    assert!(err.contains("requires a path argument"));
}

#[test]
fn rejects_missing_ticks_argument() {
    let err = parse_args(vec!["--ticks".to_string()]).unwrap_err();
    assert!(err.contains("requires a numeric argument"));
}

#[test]
fn parses_runtime_contract_flag() {
    let cli = parse_args(vec!["--runtime-contract".to_string()]).unwrap();
    assert!(cli.runtime_contract);
}

#[test]
fn parses_config_path_and_check_flag() {
    let cli = parse_args(vec![
        "-c".to_string(),
        "templates/bar.toml".to_string(),
        "--check-config".to_string(),
    ])
    .unwrap();
    assert_eq!(cli.config, Some(std::path::PathBuf::from("templates/bar.toml")));
    assert!(cli.check_config);
}

#[test]
fn empty_arguments_give_the_defaults() {
    let cli = parse_args(vec![]).unwrap();
    assert_eq!(cli, BarCli::default());
    assert_eq!(cli.tick_interval_ms, 1000);
    assert_eq!(cli.ticks, None);
    assert!(!cli.help);
}

#[test]
fn help_and_generate_config_aliases() {
    let cli = parse_args(vec!["-h".to_string(), "generate-config".to_string()]).unwrap();
    assert!(cli.help);
    assert!(cli.print_default_config);
}

#[test]
fn unknown_argument_is_named_in_the_error() {
    let err = parse_args(vec!["--watch".to_string(), "--bogus".to_string()]).unwrap_err();
    assert_eq!(err, "unknown argument '--bogus'");
}

#[test]
fn malformed_numbers_are_rejected_with_option_specific_messages() {
    let err = parse_args(vec!["--ticks".to_string(), "-1".to_string()]).unwrap_err();
    assert_eq!(err, "--ticks requires a positive integer");
    let err = parse_args(vec!["--tick-interval-ms".to_string(), "x".to_string()]).unwrap_err();
    assert_eq!(err, "--tick-interval-ms requires a non-negative integer");
    let err = parse_args(vec!["--tick-interval-ms".to_string()]).unwrap_err();
    assert_eq!(err, "--tick-interval-ms requires a numeric argument");
}

#[test]
fn decimal_parsing_matches_str_parse() {
    for s in ["0", "7", "+42", "18446744073709551615", "18446744073709551616", "", "+", "-3", " 1", "1 ", "12a", "007"] {
        assert_eq!(parse_u64(s), s.parse::<u64>().ok(), "input {s:?}");
    }
}
