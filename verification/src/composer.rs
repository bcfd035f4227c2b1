//! What an application is made of when it starts.
//!
//! [`compose`] decides it once, before the event loop begins: which sinks
//! there are, where the severity threshold stands, which plugins are registered and in what
//! order, and which commands can be invoked from the user interface. The
//! caller carries the result into the runtime; if any part of that fails, the
//! process ends with a diagnostic instead of running half-wired.

use vstd::prelude::*;

use crate::facade::LoggingFacade;
use crate::gate::{SeverityGate, INITIAL_LEVEL};
use crate::sink::{SinkKind, SinkRegistry};

verus! {

/// A capability of the runtime that is registered at startup and not looked
/// into any further.
#[derive(Clone, Copy, Debug, PartialEq, Eq, Structural, Hash)]
pub enum Plugin {
    Logging,
    Updater,
    WindowState,
    OsInfo,
    FileSystem,
    Http,
    Process,
    Shell,
}

/// An operation that the user interface can invoke by name.
#[derive(Clone, Copy, Debug, PartialEq, Eq, Structural, Hash)]
pub enum Command {
    SetLogLevel,
    ShowMainWindow,
}

impl Command {
    /// The name under which the command is invoked.
    pub open spec fn name(self) -> Seq<char> {
        match self {
            Command::SetLogLevel => "set_log_level"@,
            Command::ShowMainWindow => "show_main_window"@,
        }
    }

    /// The name under which the command is invoked.
    pub fn as_str(self) -> (s: &'static str)
        ensures
            s@ == self.name(),
    {
        match self {
            Command::SetLogLevel => "set_log_level",
            Command::ShowMainWindow => "show_main_window",
        }
    }
}

/// The plugins of an application, in the order of their registration.
/// Logging comes first, so that what the others log at startup is not lost.
pub open spec fn startup_plugins() -> Seq<Plugin> {
    seq![
        Plugin::Logging,
        Plugin::Updater,
        Plugin::WindowState,
        Plugin::OsInfo,
        Plugin::FileSystem,
        Plugin::Http,
        Plugin::Process,
        Plugin::Shell,
    ]
}

/// The commands of an application.
pub open spec fn startup_commands() -> Seq<Command> {
    seq![Command::SetLogLevel, Command::ShowMainWindow]
}

/// An application as composed at startup.
#[derive(Debug)]
pub struct Shell {
    pub logging: LoggingFacade,
    pub plugins: Vec<Plugin>,
    pub commands: Vec<Command>,
}

/// Composes the application: the three sinks behind a gate at the initial
/// level, then the plugins and the commands.
pub fn compose() -> (shell: Shell)
    ensures
        shell.logging.gate@ == INITIAL_LEVEL,
        shell.logging.sinks@ == seq![SinkKind::StandardStream, SinkKind::Directory, SinkKind::Ui],
        shell.plugins@ == startup_plugins(),
        shell.commands@ == startup_commands(),
{
    let sinks = SinkRegistry::standard();
    let gate = SeverityGate::new(INITIAL_LEVEL);
    let logging = LoggingFacade::new(gate, sinks);
    let mut plugins: Vec<Plugin> = Vec::new();
    plugins.push(Plugin::Logging);
    plugins.push(Plugin::Updater);
    plugins.push(Plugin::WindowState);
    plugins.push(Plugin::OsInfo);
    plugins.push(Plugin::FileSystem);
    plugins.push(Plugin::Http);
    plugins.push(Plugin::Process);
    plugins.push(Plugin::Shell);
    let mut commands: Vec<Command> = Vec::new();
    commands.push(Command::SetLogLevel);
    commands.push(Command::ShowMainWindow);
    Shell { logging, plugins, commands }
}

} // verus!
