//! Failures that a command reports to whoever invoked it.

use vstd::prelude::*;
use vstd::string::StringExecFns;

verus! {

/// Why a command did not do what was asked. Each failure is local to the
/// call that returns it; none of them stops the process.
#[derive(Debug, PartialEq, Eq)]
pub enum CommandError {
    /// The requested severity name, kept as it was given, is not the name of
    /// a level in any letter case.
    InvalidLevel(String),
    /// No main window was there when the command looked for it.
    WindowNotFound,
}

impl CommandError {
    /// The short message shown to the user for this failure.
    pub open spec fn message_text(self) -> Seq<char> {
        match self {
            CommandError::InvalidLevel(_) => "Invalid log level"@,
            CommandError::WindowNotFound => "Main window not found"@,
        }
    }

    /// The short message shown to the user for this failure.
    pub fn message(&self) -> (text: String)
        ensures
            text@ == self.message_text(),
    {
        match self {
            CommandError::InvalidLevel(_) => String::from_str("Invalid log level"),
            CommandError::WindowNotFound => String::from_str("Main window not found"),
        }
    }
}

} // verus!
