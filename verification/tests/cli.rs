use unilii::cli::{verbose_to_level, verbosity, Cli, Commands, RunOptions, Verbosity};

#[test]
fn default_cli_works() {
    let cli = Cli::default();
    assert!(cli.config.is_none());
    assert_eq!(cli.verbose, 0);
    assert!(cli.command.is_none());
}

#[test]
fn run_parses_no_hotkeyd_handoff() {
    let command = clap::Command::new("unilii").subcommand(
        clap::Command::new("run").arg(
            clap::Arg::new("no-hotkeyd").long("no-hotkeyd").action(clap::ArgAction::SetTrue),
        ),
    );
    let matches = command.try_get_matches_from(["unilii", "run", "--no-hotkeyd"]).expect("CLI should parse");
    let run = matches.subcommand_matches("run").expect("run subcommand");
    let cli = Cli {
        config: None,
        verbose: 0,
        command: Some(Commands::Run {
            no_tray: false,
            no_network_menu: false,
            nmcli_path: "nmcli".to_string(),
            tray_poll_ms: 1500,
            debug_focus: false,
            no_hotkeyd: run.get_flag("no-hotkeyd"),
        }),
    };
    let options = cli.command.unwrap().run_options().unwrap();
    assert!(options.no_hotkeyd);
}

#[test]
fn verbose_levels() {
    assert_eq!(verbose_to_level(0), tracing::Level::INFO);
    assert_eq!(verbose_to_level(1), tracing::Level::DEBUG);
    assert_eq!(verbose_to_level(2), tracing::Level::TRACE);
    assert_eq!(verbose_to_level(10), tracing::Level::TRACE);
}

#[test]
fn run_options_default() {
    let opts = RunOptions::default();
    assert!(!opts.no_tray);
    assert!(!opts.no_network_menu);
    assert_eq!(opts.nmcli_path, "nmcli");
    assert_eq!(opts.tray_poll_ms, 1500);
    assert!(!opts.debug_focus);
    assert!(!opts.no_hotkeyd);
}

#[test]
fn only_run_has_run_options() {
    assert!(Commands::Version.run_options().is_none());
    assert!(!Commands::ListModules.is_run());
    let run = Commands::Run {
        no_tray: true,
        no_network_menu: false,
        nmcli_path: "/usr/bin/nmcli".to_string(),
        tray_poll_ms: 10,
        debug_focus: true,
        no_hotkeyd: false,
    };
    assert!(run.is_run());
    let options = run.run_options().unwrap();
    assert!(options.no_tray && options.debug_focus && !options.no_hotkeyd);
    assert_eq!(options.nmcli_path, "/usr/bin/nmcli");
    assert_eq!(options.tray_poll_ms, 10);
    assert_eq!(verbosity(3), Verbosity::Trace);
}
