//! Command-line model of the desktop bar: the parsed arguments, the run
//! options and the logging level chosen by the verbosity count.

use vstd::prelude::*;
use std::path::PathBuf;
use crate::text::owned;

verus! {

/// A filesystem path given on the command line.
#[verifier::external_type_specification]
#[verifier::external_body]
pub struct ExPathBuf(std::path::PathBuf);

/// Copying a path.
///
/// Trusted: `PathBuf::clone` returns a path equal to the original.
pub assume_specification[ <std::path::PathBuf as Clone>::clone ](p: &std::path::PathBuf) -> (r: std::path::PathBuf)
    ensures
        r == *p,
;

/// Severity threshold of the logger.
#[verifier::external_type_specification]
#[verifier::external_body]
pub struct ExLevel(tracing::Level);

/// Parsed command line of the bar.
#[derive(Debug, Clone, Default)]
pub struct Cli {
    pub config: Option<PathBuf>,
    pub verbose: u8,
    pub command: Option<Commands>,
}

/// Subcommands of the bar.
#[derive(Debug, Clone)]
pub enum Commands {
    Run {
        no_tray: bool,
        no_network_menu: bool,
        nmcli_path: String,
        tray_poll_ms: u64,
        debug_focus: bool,
        no_hotkeyd: bool,
    },
    ListModules,
    ShowConfig,
    InitConfig { output: Option<PathBuf>, force: bool },
    ValidateConfig { config: Option<PathBuf> },
    InitBarConfig { output: Option<PathBuf>, force: bool },
    ValidateBarConfig { config: Option<PathBuf> },
    Version,
    KeyDryRun { config: Option<PathBuf>, sxhkd: Option<PathBuf>, events: String },
}

/// Options for running the status bar.
#[derive(Debug, Clone)]
pub struct RunOptions {
    pub no_tray: bool,
    pub no_network_menu: bool,
    pub nmcli_path: String,
    pub tray_poll_ms: u64,
    pub debug_focus: bool,
    pub no_hotkeyd: bool,
}

impl Default for RunOptions {
    fn default() -> (o: Self)
        ensures
            !o.no_tray,
            !o.no_network_menu,
            o.nmcli_path@ == "nmcli"@,
            o.tray_poll_ms == 1500,
            !o.debug_focus,
            !o.no_hotkeyd,
    {
        RunOptions {
            no_tray: false,
            no_network_menu: false,
            nmcli_path: owned("nmcli"),
            tray_poll_ms: 1500,
            debug_focus: false,
            no_hotkeyd: false,
        }
    }
}

impl Commands {
    /// Whether this is the run command.
    pub fn is_run(&self) -> (r: bool)
        ensures
            r == (*self is Run),
    {
        match self {
            Commands::Run { .. } => true,
            _ => false,
        }
    }

    /// The run options of the run command; none for other commands.
    pub fn run_options(&self) -> (r: Option<RunOptions>)
        ensures
            match *self {
                Commands::Run { no_tray, no_network_menu, nmcli_path, tray_poll_ms, debug_focus, no_hotkeyd } =>
                    r == Some(RunOptions { no_tray, no_network_menu, nmcli_path, tray_poll_ms, debug_focus, no_hotkeyd }),
                _ => r is None,
            },
    {
        match self {
            Commands::Run { no_tray, no_network_menu, nmcli_path, tray_poll_ms, debug_focus, no_hotkeyd } => Some(
                RunOptions {
                    no_tray: *no_tray,
                    no_network_menu: *no_network_menu,
                    nmcli_path: nmcli_path.clone(),
                    tray_poll_ms: *tray_poll_ms,
                    debug_focus: *debug_focus,
                    no_hotkeyd: *no_hotkeyd,
                },
            ),
            _ => None,
        }
    }
}

/// Logging verbosity chosen by the number of `-v` flags.
#[derive(Debug, Clone, Copy, PartialEq, Eq)]
pub enum Verbosity {
    Info,
    Debug,
    Trace,
}

/// The verbosity for a count of `-v` flags: none is info, one is debug,
/// more is trace.
pub open spec fn verbosity_for(verbose: u8) -> Verbosity {
    if verbose == 0 {
        Verbosity::Info
    } else if verbose == 1 {
        Verbosity::Debug
    } else {
        Verbosity::Trace
    }
}

pub fn verbosity(verbose: u8) -> (v: Verbosity)
    ensures
        v == verbosity_for(verbose),
{
    match verbose {
        0 => Verbosity::Info,
        1 => Verbosity::Debug,
        _ => Verbosity::Trace,
    }
}

/// The `tracing` level that stands for a verbosity.
pub uninterp spec fn tracing_level(v: Verbosity) -> tracing::Level;

/// The `tracing` level of a verbosity.
///
/// Trusted: returns `tracing::Level::INFO`, `DEBUG` or `TRACE`, one constant
/// per verbosity; the claim is that the result is `tracing_level(v)`.
#[verifier::external_body]
fn level_of(v: Verbosity) -> (l: tracing::Level)
    ensures
        l == tracing_level(v),
{
    match v {
        Verbosity::Info => tracing::Level::INFO,
        Verbosity::Debug => tracing::Level::DEBUG,
        Verbosity::Trace => tracing::Level::TRACE,
    }
}

/// The tracing level for a count of `-v` flags.
pub fn verbose_to_level(verbose: u8) -> (l: tracing::Level)
    ensures
        l == tracing_level(verbosity_for(verbose)),
{
    level_of(verbosity(verbose))
}

} // verus!
