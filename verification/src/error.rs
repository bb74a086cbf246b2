//! What can go wrong, and how it shows.
//!
//! Nothing here is recoverable: there is no supervisor to return to, so an
//! error either stops the bring-up where it stands or stops the core in the
//! debugger.

use crate::capability::Capability;
use vstd::prelude::*;

verus! {

/// The two failures of the bring-up.
#[derive(Clone, Copy, Debug, PartialEq, Eq, Structural)]
pub enum BringUpError {
    /// A capability could not be had: it was taken before, or the hardware
    /// behind it is not there.
    ResourceUnavailable(Capability),
    /// An interrupt fired that no handler of the application serves.
    UnhandledInterrupt,
}

/// How an error becomes visible.
#[derive(Clone, Copy, Debug, PartialEq, Eq, Structural)]
pub enum Signal {
    /// The bring-up stops at once; no later step runs.
    Halt,
    /// Execution stops at a breakpoint and control passes to the debugger.
    DebugTrap,
}

impl BringUpError {
    /// How this error shows, as a specification.
    pub open spec fn signal_of(self) -> Signal {
        match self {
            BringUpError::ResourceUnavailable(_) => Signal::Halt,
            BringUpError::UnhandledInterrupt => Signal::DebugTrap,
        }
    }

    /// How this error shows: a missing resource halts the bring-up, an
    /// unhandled interrupt traps into the debugger.
    pub fn signal(self) -> (signal: Signal)
        ensures
            signal == self.signal_of(),
    {
        match self {
            BringUpError::ResourceUnavailable(_) => Signal::Halt,
            BringUpError::UnhandledInterrupt => Signal::DebugTrap,
        }
    }
}

} // verus!
