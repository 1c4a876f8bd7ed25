//! The command line: which subcommand the first argument names.

use vstd::prelude::*;
use crate::text::same_text;

verus! {

/// A subcommand of the executable.
#[derive(Debug, Clone, Copy, PartialEq, Eq)]
pub enum Command {
    /// `install`: register the Windows service.
    Install,
    /// `uninstall`: remove the Windows service.
    Uninstall,
    /// `run`: start the service (used by the service control manager).
    Run,
    /// `pair`: pair with the TV interactively.
    Pair,
    /// `test [IP]`: probe the TV's WebSocket ports.
    Test,
    /// `turn-off`: turn the TV off now.
    TurnOff,
    /// `turn-on`: send a Wake-on-LAN packet now.
    TurnOn,
    /// `test-power`: turn the TV off, wait, and wake it.
    TestPower,
    /// Anything else, or nothing: print the usage.
    Usage,
}

/// The subcommand that a first argument names.
pub open spec fn command_named(arg: Option<Seq<char>>) -> Command {
    match arg {
        Some(a) => if a == "install"@ {
            Command::Install
        } else if a == "uninstall"@ {
            Command::Uninstall
        } else if a == "run"@ {
            Command::Run
        } else if a == "pair"@ {
            Command::Pair
        } else if a == "test"@ {
            Command::Test
        } else if a == "turn-off"@ {
            Command::TurnOff
        } else if a == "turn-on"@ {
            Command::TurnOn
        } else if a == "test-power"@ {
            Command::TestPower
        } else {
            Command::Usage
        },
        None => Command::Usage,
    }
}

/// Reads the subcommand from the first argument, if any.
pub fn parse_command(arg: Option<&str>) -> (r: Command)
    ensures
        r == command_named(
            match arg {
                Some(a) => Some(a@),
                None => None,
            },
        ),
{
    match arg {
        None => Command::Usage,
        Some(a) => {
            if same_text(a, "install") {
                Command::Install
            } else if same_text(a, "uninstall") {
                Command::Uninstall
            } else if same_text(a, "run") {
                Command::Run
            } else if same_text(a, "pair") {
                Command::Pair
            } else if same_text(a, "test") {
                Command::Test
            } else if same_text(a, "turn-off") {
                Command::TurnOff
            } else if same_text(a, "turn-on") {
                Command::TurnOn
            } else if same_text(a, "test-power") {
                Command::TestPower
            } else {
                Command::Usage
            }
        },
    }
}

/// The address that `test` probes: the one given on the command line, else
/// the configured TV's, else `10.0.0.144`.
pub fn probe_target(arg: Option<String>, configured_ip: Option<String>) -> (r: String)
    ensures
        r@ == match arg {
            Some(a) => a@,
            None => match configured_ip {
                Some(c) => c@,
                None => "10.0.0.144"@,
            },
        },
{
    match arg {
        Some(a) => a,
        None => match configured_ip {
            Some(c) => c,
            None => "10.0.0.144".to_owned(),
        },
    }
}

} // verus!
