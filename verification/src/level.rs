//! Severity levels and the names they are known by.

use vstd::prelude::*;

use crate::text::same_text;

verus! {

/// How important a log record is. The variants are declared from the least
/// to the most severe, so the derived order agrees with [`SeverityLevel::rank`].
#[derive(Clone, Copy, Debug, PartialEq, Eq, Structural, PartialOrd, Ord, Hash)]
pub enum SeverityLevel {
    Trace,
    Debug,
    Info,
    Warn,
    Error,
}

impl SeverityLevel {
    /// Position in the total order `Trace < Debug < Info < Warn < Error`.
    pub open spec fn rank(self) -> nat {
        match self {
            SeverityLevel::Trace => 0,
            SeverityLevel::Debug => 1,
            SeverityLevel::Info => 2,
            SeverityLevel::Warn => 3,
            SeverityLevel::Error => 4,
        }
    }

    /// The lower-case name of the level.
    pub open spec fn name(self) -> Seq<char> {
        match self {
            SeverityLevel::Trace => seq!['t', 'r', 'a', 'c', 'e'],
            SeverityLevel::Debug => seq!['d', 'e', 'b', 'u', 'g'],
            SeverityLevel::Info => seq!['i', 'n', 'f', 'o'],
            SeverityLevel::Warn => seq!['w', 'a', 'r', 'n'],
            SeverityLevel::Error => seq!['e', 'r', 'r', 'o', 'r'],
        }
    }

    /// Whether `self` is at least as severe as `threshold`.
    pub fn at_least(self, threshold: SeverityLevel) -> (r: bool)
        ensures
            r == (self.rank() >= threshold.rank()),
    {
        match threshold {
            SeverityLevel::Trace => true,
            SeverityLevel::Debug => !matches!(self, SeverityLevel::Trace),
            SeverityLevel::Info => matches!(
                self,
                SeverityLevel::Info | SeverityLevel::Warn | SeverityLevel::Error
            ),
            SeverityLevel::Warn => matches!(self, SeverityLevel::Warn | SeverityLevel::Error),
            SeverityLevel::Error => matches!(self, SeverityLevel::Error),
        }
    }

    /// The level that goes by exactly the name `name`, if there is one.
    /// Letter case counts here: `"Info"` names no level.
    pub fn from_name(name: &str) -> (r: Option<SeverityLevel>)
        ensures
            r == level_named(name@),
    {
        proof {
            reveal_strlit("trace");
            reveal_strlit("debug");
            reveal_strlit("info");
            reveal_strlit("warn");
            reveal_strlit("error");
            assert("trace"@ =~= SeverityLevel::Trace.name());
            assert("debug"@ =~= SeverityLevel::Debug.name());
            assert("info"@ =~= SeverityLevel::Info.name());
            assert("warn"@ =~= SeverityLevel::Warn.name());
            assert("error"@ =~= SeverityLevel::Error.name());
        }
        if same_text(name, "trace") {
            Some(SeverityLevel::Trace)
        } else if same_text(name, "debug") {
            Some(SeverityLevel::Debug)
        } else if same_text(name, "info") {
            Some(SeverityLevel::Info)
        } else if same_text(name, "warn") {
            Some(SeverityLevel::Warn)
        } else if same_text(name, "error") {
            Some(SeverityLevel::Error)
        } else {
            None
        }
    }

    /// The name of the level as text.
    pub fn as_str(self) -> (s: &'static str)
        ensures
            s@ == self.name(),
    {
        proof {
            reveal_strlit("trace");
            reveal_strlit("debug");
            reveal_strlit("info");
            reveal_strlit("warn");
            reveal_strlit("error");
        }
        match self {
            SeverityLevel::Trace => "trace",
            SeverityLevel::Debug => "debug",
            SeverityLevel::Info => "info",
            SeverityLevel::Warn => "warn",
            SeverityLevel::Error => "error",
        }
    }
}

/// The level whose name is exactly `name`; `None` where no level has that name.
pub open spec fn level_named(name: Seq<char>) -> Option<SeverityLevel> {
    if name == SeverityLevel::Trace.name() {
        Some(SeverityLevel::Trace)
    } else if name == SeverityLevel::Debug.name() {
        Some(SeverityLevel::Debug)
    } else if name == SeverityLevel::Info.name() {
        Some(SeverityLevel::Info)
    } else if name == SeverityLevel::Warn.name() {
        Some(SeverityLevel::Warn)
    } else if name == SeverityLevel::Error.name() {
        Some(SeverityLevel::Error)
    } else {
        None
    }
}

} // verus!
