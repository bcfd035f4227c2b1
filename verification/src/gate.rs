//! The severity threshold that every log record is held against.

use vstd::prelude::*;

use crate::level::SeverityLevel;

verus! {

/// The level a gate starts at when nothing else is asked for.
pub const INITIAL_LEVEL: SeverityLevel = SeverityLevel::Info;

/// Whether a record of severity `level` passes a gate set to `threshold`.
pub open spec fn passes(threshold: SeverityLevel, level: SeverityLevel) -> bool {
    level.rank() >= threshold.rank()
}

/// Calls `log::set_max_level` with the filter of the same name as `level`,
/// which stores it as the `log` crate's process-wide maximum level. Trusted
/// only to return: it hands nothing back, so nothing is claimed of it.
#[verifier::external_body]
fn install_max_level(level: SeverityLevel) {
    log::set_max_level(
        match level {
            SeverityLevel::Trace => log::LevelFilter::Trace,
            SeverityLevel::Debug => log::LevelFilter::Debug,
            SeverityLevel::Info => log::LevelFilter::Info,
            SeverityLevel::Warn => log::LevelFilter::Warn,
            SeverityLevel::Error => log::LevelFilter::Error,
        },
    );
}

/// The minimum severity that is let through. The level can only be read and
/// replaced whole, through `get` and `set`; whoever shares a gate between
/// threads puts it behind a lock, and exclusive access to it then makes each
/// change atomic for every reader.
///
/// Each change is also passed on to the `log` crate, so that its macros drop
/// what it would drop.
#[derive(Debug)]
pub struct SeverityGate {
    level: SeverityLevel,
}

impl View for SeverityGate {
    type V = SeverityLevel;

    /// The threshold currently in force.
    closed spec fn view(&self) -> SeverityLevel {
        self.level
    }
}

impl SeverityGate {
    /// A gate set to `initial`.
    pub fn new(initial: SeverityLevel) -> (gate: SeverityGate)
        ensures
            gate@ == initial,
    {
        install_max_level(initial);
        SeverityGate { level: initial }
    }

    /// The threshold currently in force.
    pub fn get(&self) -> (level: SeverityLevel)
        ensures
            level == self@,
    {
        self.level
    }

    /// Replaces the threshold. The earlier one is gone: to have it back it
    /// has to be set again.
    pub fn set(&mut self, level: SeverityLevel)
        ensures
            final(self)@ == level,
    {
        install_max_level(level);
        self.level = level;
    }

    /// Whether a record of severity `level` passes this gate.
    pub fn admits(&self, level: SeverityLevel) -> (r: bool)
        ensures
            r == passes(self@, level),
    {
        level.at_least(self.level)
    }
}

} // verus!
