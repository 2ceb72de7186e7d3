//! Command-line surface and the shutdown policy.
//!
//! The front end parses the arguments, starts the manager and waits for
//! OS signals; the decisions themselves — which subcommand runs and
//! which kind of stop a signal demands — are taken here.

use crate::error::AppError;
use vstd::prelude::*;
use vstd::string::StringExecFns;

verus! {

/// The parsed command line.
#[derive(Debug)]
pub struct AppCli {
    pub command: Option<SubCommands>,
}

/// The available subcommands.
#[derive(Debug)]
pub enum SubCommands {
    /// Start the server.
    Start(StartServerArgs),
}

/// Arguments of the `start` subcommand: the configuration file path and
/// whether a SIGINT is honoured with a graceful stop.
#[derive(Debug)]
pub struct StartServerArgs {
    pub path: String,
    pub graceful_shutdown: bool,
}

/// The OS termination signals the process reacts to.
#[derive(Debug, Clone, Copy, PartialEq, Eq, Structural)]
pub enum TermSignal {
    Interrupt,
    Terminate,
}

/// Which kind of stop a signal demands.
#[derive(Debug, Clone, Copy, PartialEq, Eq, Structural)]
pub enum StopMode {
    Graceful,
    Forced,
}

/// How many seconds the process lingers after stopping, before it exits.
pub const EXIT_GRACE_PERIOD_SECS: u64 = 1;

/// The default configuration file path of the `start` subcommand.
pub fn default_settings_path() -> (r: String)
    ensures
        r@ == "conf/settings.toml"@,
{
    String::from_str("conf/settings.toml")
}

/// The shutdown policy: an interrupt honours the graceful flag, a
/// terminate signal always forces the stop.
pub fn shutdown_decision(signal: TermSignal, graceful_shutdown: bool) -> (r: StopMode)
    ensures
        signal is Interrupt && graceful_shutdown ==> r is Graceful,
        signal is Interrupt && !graceful_shutdown ==> r is Forced,
        signal is Terminate ==> r is Forced,
{
    match signal {
        TermSignal::Interrupt => {
            if graceful_shutdown {
                StopMode::Graceful
            } else {
                StopMode::Forced
            }
        },
        TermSignal::Terminate => StopMode::Forced,
    }
}

/// Picks the action of a parsed command line: the `start` arguments, or
/// a configuration error when no subcommand was given.
pub fn select_command(cli: AppCli) -> (r: Result<StartServerArgs, AppError>)
    ensures
        cli.command matches Some(SubCommands::Start(a)) ==> (r matches Ok(b) && b == a),
        cli.command is None ==> (r matches Err(e) && e matches AppError::Configuration(m) && m@
            == "not starting server"@),
{
    match cli.command {
        Some(SubCommands::Start(args)) => Ok(args),
        None => Err(AppError::Configuration(String::from_str("not starting server"))),
    }
}

} // verus!
