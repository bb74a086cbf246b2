//! The interrupt portion of the vector table.
//!
//! The core indexes this table by interrupt line whenever an interrupt
//! fires, so every one of its slots holds a handler from the moment it is
//! built. The application serves no interrupt itself: every slot holds the
//! one shared default handler, which reports the interrupt as unhandled and
//! so traps into the debugger.

use crate::error::{BringUpError, Signal};
use vstd::prelude::*;

verus! {

/// Number of interrupt lines that the core can dispatch, and so the number
/// of slots of the table.
pub const INTERRUPT_COUNT: usize = 240;

/// What a slot of the table points to.
#[derive(Clone, Copy, Debug, PartialEq, Eq, Structural)]
pub enum Handler {
    /// The shared catch-all handler.
    Default,
}

impl Handler {
    /// What running this handler raises, as a specification.
    pub open spec fn raises(self) -> BringUpError {
        match self {
            Handler::Default => BringUpError::UnhandledInterrupt,
        }
    }

    /// Runs the handler's policy. The default handler does not return to the
    /// interrupted code: it reports the interrupt as unhandled.
    pub fn invoke(self) -> (raised: BringUpError)
        ensures
            raised == self.raises(),
    {
        match self {
            Handler::Default => BringUpError::UnhandledInterrupt,
        }
    }
}

/// The table itself: one handler per interrupt line, in line order.
pub struct VectorTable {
    entries: [Handler; 240],
}

impl View for VectorTable {
    type V = Seq<Handler>;

    closed spec fn view(&self) -> Seq<Handler> {
        self.entries@
    }
}

impl VectorTable {
    /// Builds the table, complete: the default handler in every slot.
    pub fn new() -> (table: VectorTable)
        ensures
            table@ == Seq::new(INTERRUPT_COUNT as nat, |line: int| Handler::Default),
    {
        let table = VectorTable { entries: [Handler::Default; 240] };
        assert(table@ =~= Seq::new(INTERRUPT_COUNT as nat, |line: int| Handler::Default));
        table
    }

    /// Number of slots: one per interrupt line, whatever the table holds.
    pub fn len(&self) -> (n: usize)
        ensures
            n == INTERRUPT_COUNT,
            n == self@.len(),
    {
        self.entries.len()
    }

    /// The handler that `line` points to, or `None` where the core has no
    /// such line.
    pub fn handler(&self, line: usize) -> (found: Option<Handler>)
        ensures
            found == if line < INTERRUPT_COUNT {
                Some(self@[line as int])
            } else {
                None
            },
    {
        if line < INTERRUPT_COUNT {
            Some(self.entries[line])
        } else {
            None
        }
    }

    /// What happens when `line` fires: its handler runs, and what the handler
    /// raises shows as its signal. `None` where the core has no such line.
    pub fn dispatch(&self, line: usize) -> (signal: Option<Signal>)
        ensures
            signal == if line < INTERRUPT_COUNT {
                Some(self@[line as int].raises().signal_of())
            } else {
                None
            },
    {
        match self.handler(line) {
            Some(handler) => Some(handler.invoke().signal()),
            None => None,
        }
    }
}

/// Every slot of every table holds a handler whose signal is the debug trap:
/// no interrupt line dispatches to anything else, and none returns to the
/// code it interrupted.
pub proof fn lemma_every_line_traps(table: VectorTable, line: int)
    requires
        0 <= line < INTERRUPT_COUNT,
    ensures
        table@.len() == INTERRUPT_COUNT,
        table@[line].raises().signal_of() == Signal::DebugTrap,
{
}

} // verus!
