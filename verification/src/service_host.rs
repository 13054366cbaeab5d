//! The core as a service of the system, and its command line.

use vstd::prelude::*;

use crate::text::same_text;

verus! {

/// The name of the service.
pub const SERVICE_NAME: &'static str = "BypassToolCore";

/// The name of the service that users see.
pub const SERVICE_DISPLAY: &'static str = "Bypass Tool Core";

/// How long starting may take, in seconds.
pub const START_HINT_SECS: u64 = 5;

/// How long stopping may take, in seconds.
pub const STOP_HINT_SECS: u64 = 1;

/// What the program is to do.
#[derive(Debug, Clone, Copy, PartialEq, Eq, Structural)]
pub enum Command {
    /// Install the service.
    Install,
    /// Remove the service.
    Uninstall,
    /// Run in the foreground.
    Console,
    /// Run as a service.
    Service,
}

/// What the program is to do, by its first argument.
pub open spec fn command_of(arg: Option<Seq<char>>) -> Command {
    match arg {
        Some(a) => if a == "--install-service"@ {
            Command::Install
        } else if a == "--uninstall-service"@ {
            Command::Uninstall
        } else if a == "--console"@ {
            Command::Console
        } else {
            Command::Service
        },
        None => Command::Service,
    }
}

/// What the program is to do. The arguments begin with the program itself.
pub fn parse_command(args: &Vec<String>) -> (c: Command)
    ensures
        c == command_of(
            if args@.len() > 1 {
                Some(args@[1]@)
            } else {
                None
            },
        ),
{
    if args.len() <= 1 {
        return Command::Service;
    }
    let a = args[1].as_str();
    if same_text(a, "--install-service") {
        Command::Install
    } else if same_text(a, "--uninstall-service") {
        Command::Uninstall
    } else if same_text(a, "--console") {
        Command::Console
    } else {
        Command::Service
    }
}

/// What the system tells a service.
#[derive(Debug, Clone, Copy, PartialEq, Eq, Structural)]
pub enum ServiceSignal {
    Stop,
    Shutdown,
    Interrogate,
    /// Anything else.
    Other,
}

/// How the service takes a signal.
#[derive(Debug, Clone, Copy, PartialEq, Eq, Structural)]
pub struct SignalAnswer {
    /// Whether the service is to stop.
    pub stop: bool,
    /// Whether the signal is one that the service knows.
    pub known: bool,
}

/// How the service takes a signal: it stops when it is told to or when the system goes
/// down, and says of anything unknown that it does not know it.
pub fn on_signal(signal: ServiceSignal) -> (a: SignalAnswer)
    ensures
        a.stop == (signal == ServiceSignal::Stop || signal == ServiceSignal::Shutdown),
        a.known == (signal != ServiceSignal::Other),
{
    match signal {
        ServiceSignal::Stop => SignalAnswer { stop: true, known: true },
        ServiceSignal::Shutdown => SignalAnswer { stop: true, known: true },
        ServiceSignal::Interrogate => SignalAnswer { stop: false, known: true },
        ServiceSignal::Other => SignalAnswer { stop: false, known: false },
    }
}

} // verus!
