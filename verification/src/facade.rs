//! The logging facade: one record in, the list of sinks it has to reach out.

use vstd::prelude::*;

use crate::gate::{passes, SeverityGate};
use crate::level::SeverityLevel;
use crate::sink::{SinkKind, SinkRegistry};

verus! {

/// One emitted event. It lives for the length of a call to
/// [`LoggingFacade::emit`]; time and origin are added where it is written.
#[derive(Debug)]
pub struct LogRecord {
    pub level: SeverityLevel,
    pub message: String,
}

/// The sinks that a record of severity `level` goes to when the threshold stands
/// at `threshold` and `sinks` are registered: all of them, or none.
pub open spec fn deliveries_for(
    threshold: SeverityLevel,
    sinks: Seq<SinkKind>,
    level: SeverityLevel,
) -> Seq<SinkKind> {
    if passes(threshold, level) {
        sinks
    } else {
        Seq::empty()
    }
}

/// How many times `sink` is invoked when a record is handed to `deliveries`.
pub open spec fn invocations(deliveries: Seq<SinkKind>, sink: SinkKind) -> nat {
    deliveries.to_multiset().count(sink)
}

/// In a list without repetition every sink that occurs is invoked once, and
/// no other sink is invoked at all.
pub proof fn lemma_invoked_once(deliveries: Seq<SinkKind>, sink: SinkKind)
    requires
        deliveries.no_duplicates(),
    ensures
        invocations(deliveries, sink) == if deliveries.contains(sink) {
            1nat
        } else {
            0nat
        },
{
    deliveries.to_multiset_ensures();
    deliveries.lemma_multiset_has_no_duplicates();
}

/// A severity gate together with the sinks behind it.
#[derive(Debug)]
pub struct LoggingFacade {
    pub gate: SeverityGate,
    pub sinks: SinkRegistry,
}

impl LoggingFacade {
    /// A facade that filters by `gate` and fans out to `sinks`.
    pub fn new(gate: SeverityGate, sinks: SinkRegistry) -> (facade: LoggingFacade)
        ensures
            facade.gate == gate,
            facade.sinks == sinks,
    {
        LoggingFacade { gate, sinks }
    }

    /// Decides where `record` goes. A record below the threshold goes nowhere,
    /// which is ordinary filtering and no failure. Any other record goes to
    /// every registered sink, once each; the caller hands it to all of them,
    /// whether or not one of them fails to write it.
    pub fn emit(&self, record: &LogRecord) -> (deliveries: Vec<SinkKind>)
        ensures
            deliveries@ == deliveries_for(self.gate@, self.sinks@, record.level),
            !passes(self.gate@, record.level) ==> forall|sink: SinkKind|
                invocations(deliveries@, sink) == 0,
            passes(self.gate@, record.level) ==> forall|sink: SinkKind|
                self.sinks@.contains(sink) ==> invocations(deliveries@, sink) == 1,
            passes(self.gate@, record.level) ==> forall|sink: SinkKind|
                !self.sinks@.contains(sink) ==> invocations(deliveries@, sink) == 0,
    {
        let deliveries = if self.gate.admits(record.level) {
            self.sinks.sinks()
        } else {
            Vec::new()
        };
        proof {
            assert forall|sink: SinkKind|
                invocations(deliveries@, sink) == if deliveries@.contains(sink) {
                    1nat
                } else {
                    0nat
                } by {
                lemma_invoked_once(deliveries@, sink);
            }
        }
        deliveries
    }
}

} // verus!
