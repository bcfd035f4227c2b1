//! The command that re-tunes the severity gate from a level name.

use vstd::prelude::*;
use vstd::string::StringExecFns;
use vstd::utf8::is_ascii_chars;

use crate::error::CommandError;
use crate::gate::SeverityGate;
use crate::level::{level_named, SeverityLevel};
use crate::text::{ascii_lower, ascii_lowercase, lowercase_of, to_lowercase};

verus! {

/// The level that the request `requested` asks for: the one named by its
/// lower-case form. `None` where that form names no level.
pub open spec fn parsed_level(requested: Seq<char>) -> Option<SeverityLevel> {
    level_named(lowercase_of(requested))
}

/// Reads a level name in any letter case.
pub fn parse_log_level(level: &str) -> (res: Result<SeverityLevel, String>)
    ensures
        match parsed_level(level@) {
            Some(l) => res == Ok::<SeverityLevel, String>(l),
            None => res matches Err(message) && message@ == "Invalid log level"@,
        },
{
    let lowered = to_lowercase(level);
    match SeverityLevel::from_name(lowered.as_str()) {
        Some(l) => Ok(l),
        None => Err(String::from_str("Invalid log level")),
    }
}

/// Sets the threshold to the level that `level` names, in any letter case. A
/// name that is not recognized leaves the threshold as it was and comes back
/// in the error.
pub fn set_log_level(gate: &mut SeverityGate, level: String) -> (res: Result<(), CommandError>)
    ensures
        match parsed_level(level@) {
            Some(l) => res is Ok && final(gate)@ == l,
            None => {
                &&& res matches Err(CommandError::InvalidLevel(rejected))
                &&& rejected@ == level@
                &&& *final(gate) == *old(gate)
            },
        },
{
    match parse_log_level(level.as_str()) {
        Ok(l) => {
            gate.set(l);
            Ok(())
        },
        Err(_) => Err(CommandError::InvalidLevel(level)),
    }
}

/// Every character of a level's name is a lower-case ASCII letter.
proof fn lemma_names_are_lower_case(level: SeverityLevel)
    ensures
        forall|i: int| 0 <= i < level.name().len() ==> 'a' <= #[trigger] level.name()[i] <= 'z',
{
    let name = level.name();
    assert forall|i: int| 0 <= i < name.len() implies 'a' <= #[trigger] name[i] <= 'z' by {
        if i == 0 {
        } else if i == 1 {
        } else if i == 2 {
        } else if i == 3 {
        } else {
            assert(i == 4);
        }
    }
}

/// No two levels share a name.
proof fn lemma_names_differ(a: SeverityLevel, b: SeverityLevel)
    requires
        a != b,
    ensures
        a.name() != b.name(),
{
    assert(a.name()[0] != b.name()[0]);
}

/// A level's name in any letter case asks for that level: text whose ASCII
/// capitals, put in lower case, spell the name of `level` is read as `level`.
pub proof fn lemma_any_casing_is_recognized(requested: Seq<char>, level: SeverityLevel)
    requires
        ascii_lowercase(requested) == level.name(),
    ensures
        parsed_level(requested) == Some(level),
{
    lemma_names_are_lower_case(level);
    assert forall|i: int| 0 <= i < requested.len() implies '\0' <= #[trigger] requested[i]
        <= '\u{7f}' by {
        assert(level.name()[i] == ascii_lower(requested[i]));
    }
    assert(is_ascii_chars(requested));
    if level != SeverityLevel::Trace {
        lemma_names_differ(level, SeverityLevel::Trace);
    }
    if level != SeverityLevel::Debug {
        lemma_names_differ(level, SeverityLevel::Debug);
    }
    if level != SeverityLevel::Info {
        lemma_names_differ(level, SeverityLevel::Info);
    }
    if level != SeverityLevel::Warn {
        lemma_names_differ(level, SeverityLevel::Warn);
    }
}

/// ASCII text that spells no level's name in any letter case asks for no
/// level.
pub proof fn lemma_other_ascii_text_is_rejected(requested: Seq<char>)
    requires
        is_ascii_chars(requested),
        forall|level: SeverityLevel| ascii_lowercase(requested) != #[trigger] level.name(),
    ensures
        parsed_level(requested) is None,
{
    assert(ascii_lowercase(requested) != SeverityLevel::Trace.name());
    assert(ascii_lowercase(requested) != SeverityLevel::Debug.name());
    assert(ascii_lowercase(requested) != SeverityLevel::Info.name());
    assert(ascii_lowercase(requested) != SeverityLevel::Warn.name());
    assert(ascii_lowercase(requested) != SeverityLevel::Error.name());
}

} // verus!
