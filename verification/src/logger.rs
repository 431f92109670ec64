//! The global logger acquire/release protocol.
//!
//! One sink exists per process, and log statements may run concurrently —
//! threads and nested interrupt levels alike. The protocol hands exclusive,
//! temporary ownership of that sink to whichever call site is currently
//! emitting a record, without locks and without blocking: an `acquire`
//! while the sink is held returns nothing, and the caller abandons the log
//! statement with no side effects. Logging is lossy under contention by
//! design, and a record therefore either appears on the sink whole, written
//! within one uninterrupted acquired session, or not at all.

use crate::fmt::Formatter;
use vstd::prelude::*;
use vstd::seq_lib::*;

verus! {

/// Global logger acquire/release mechanism.
///
/// The contract every implementation answers for:
/// - `acquire` grants the sink only from the idle state, and at most one
///   grant is outstanding until it is released;
/// - an `acquire` while the sink is held returns nothing and changes
///   nothing, so a log statement re-entered from the sink's own write path
///   observes the held state and bails out;
/// - `release` takes back the very handle that `acquire` gave out, grown
///   only by the bytes the session wrote, and makes it the sink's new
///   contents.
pub trait Logger {
    /// Whether the sink is currently held by a log statement.
    spec fn acquired(&self) -> bool;

    /// The bytes accepted by the sink so far.
    spec fn sink(&self) -> Seq<u8>;

    /// The sink contents at the moment of the last grant.
    spec fn session_start(&self) -> Seq<u8>;

    /// Asks for exclusive ownership of the sink. From the idle state this
    /// grants a formatter holding everything the sink has accepted so far;
    /// while the sink is held it grants nothing and leaves every part of
    /// the state as it was.
    fn acquire(&mut self) -> (r: Option<Formatter>)
        ensures
            old(self).acquired() ==> r is None && final(self).acquired() && final(self).sink()
                == old(self).sink() && final(self).session_start() == old(self).session_start(),
            !old(self).acquired() ==> final(self).acquired() && final(self).sink() == old(
                self,
            ).sink() && final(self).session_start() == old(self).sink() && (r matches Some(f)
                && f@ == old(self).sink()),
    ;

    /// Gives the sink back. The formatter must be the one that `acquire`
    /// granted, carrying the session's writes appended to what the sink
    /// already held; handing back anything else breaks the protocol's
    /// safety contract and is ruled out here rather than checked at
    /// run time.
    fn release(&mut self, fmt: Formatter)
        requires
            old(self).acquired(),
            old(self).session_start().is_prefix_of(fmt@),
        ensures
            !final(self).acquired(),
            final(self).sink() == fmt@,
    ;
}

/// The process-wide logger state machine: the one owner of the global
/// sink. Two states — idle, with the sink's bytes at rest inside, and
/// acquired, with the bytes out in the hands of exactly one formatter.
pub struct GlobalLoggerState {
    sink: Option<Vec<u8>>,
    session: Ghost<Seq<u8>>,
}

impl GlobalLoggerState {
    /// The idle state machine over an empty sink, as the process
    /// establishes it at start; there is no teardown.
    pub fn new() -> (s: GlobalLoggerState)
        ensures
            !s.acquired(),
            s.sink() == Seq::<u8>::empty(),
    {
        GlobalLoggerState { sink: Some(Vec::new()), session: Ghost(Seq::empty()) }
    }

    /// Whether a log statement currently holds the sink.
    pub fn is_acquired(&self) -> (b: bool)
        ensures
            b == self.acquired(),
    {
        self.sink.is_none()
    }

    /// The bytes the sink has accepted, readable while nobody holds it.
    pub fn bytes(&self) -> (b: &[u8])
        requires
            !self.acquired(),
        ensures
            b@ == self.sink(),
    {
        match &self.sink {
            Some(buf) => buf.as_slice(),
            None => vstd::pervasive::unreached(),
        }
    }
}

impl Logger for GlobalLoggerState {
    closed spec fn acquired(&self) -> bool {
        self.sink is None
    }

    closed spec fn sink(&self) -> Seq<u8> {
        match self.sink {
            Some(buf) => buf@,
            None => self.session@,
        }
    }

    closed spec fn session_start(&self) -> Seq<u8> {
        self.session@
    }

    fn acquire(&mut self) -> (r: Option<Formatter>) {
        match self.sink.take() {
            Some(buf) => {
                self.session = Ghost(buf@);
                Some(Formatter::from_buffer(buf))
            },
            None => None,
        }
    }

    fn release(&mut self, fmt: Formatter) {
        self.sink = Some(fmt.into_buffer());
    }
}

} // verus!
