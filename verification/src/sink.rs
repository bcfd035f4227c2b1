//! The destinations of log records and the registry that holds them.

use vstd::prelude::*;

verus! {

/// A destination that can take a formatted log record. The kinds are fixed:
/// there is no way to add one at run time.
#[derive(Clone, Copy, Debug, PartialEq, Eq, Structural, Hash)]
pub enum SinkKind {
    /// The standard output stream of the process.
    StandardStream,
    /// A rotating file in the platform's log directory, under the
    /// application's default file name.
    Directory,
    /// The embedded user interface, which shows the record in the application.
    Ui,
}

/// The set of active sinks, in the order in which they were registered. No
/// sink is held twice.
#[derive(Debug)]
pub struct SinkRegistry {
    sinks: Vec<SinkKind>,
}

impl View for SinkRegistry {
    type V = Seq<SinkKind>;

    /// The registered sinks, earliest first.
    closed spec fn view(&self) -> Seq<SinkKind> {
        self.sinks@
    }
}

impl SinkRegistry {
    #[verifier::type_invariant]
    spec fn distinct(self) -> bool {
        self.sinks@.no_duplicates()
    }

    /// A registry without sinks.
    pub fn new() -> (registry: SinkRegistry)
        ensures
            registry@ == Seq::<SinkKind>::empty(),
    {
        SinkRegistry { sinks: Vec::new() }
    }

    /// The registry an application starts with: standard stream, log
    /// directory and user interface.
    pub fn standard() -> (registry: SinkRegistry)
        ensures
            registry@ == seq![SinkKind::StandardStream, SinkKind::Directory, SinkKind::Ui],
    {
        let mut sinks: Vec<SinkKind> = Vec::new();
        sinks.push(SinkKind::StandardStream);
        sinks.push(SinkKind::Directory);
        sinks.push(SinkKind::Ui);
        SinkRegistry { sinks }
    }

    /// How many sinks are registered.
    pub fn len(&self) -> (n: usize)
        ensures
            n == self@.len(),
    {
        self.sinks.len()
    }

    /// Whether `sink` is registered.
    pub fn contains(&self, sink: SinkKind) -> (found: bool)
        ensures
            found == self@.contains(sink),
    {
        let mut i: usize = 0;
        while i < self.sinks.len()
            invariant
                i <= self.sinks@.len(),
                forall|j: int| 0 <= j < i ==> self.sinks@[j] != sink,
            decreases self.sinks@.len() - i,
        {
            if self.sinks[i] == sink {
                return true;
            }
            i += 1;
        }
        false
    }

    /// Registers `sink` unless it is registered already, and says whether it
    /// was added.
    pub fn register(&mut self, sink: SinkKind) -> (added: bool)
        ensures
            added == !old(self)@.contains(sink),
            final(self)@ == if added {
                old(self)@.push(sink)
            } else {
                old(self)@
            },
    {
        if self.contains(sink) {
            return false;
        }
        proof {
            use_type_invariant(&*self);
        }
        let mut sinks: Vec<SinkKind> = Vec::new();
        std::mem::swap(&mut sinks, &mut self.sinks);
        sinks.push(sink);
        self.sinks = sinks;
        true
    }

    /// The registered sinks, earliest first, each of them once.
    pub fn sinks(&self) -> (sinks: Vec<SinkKind>)
        ensures
            sinks@ == self@,
            sinks@.no_duplicates(),
    {
        proof {
            use_type_invariant(&*self);
        }
        self.sinks.clone()
    }
}

} // verus!
