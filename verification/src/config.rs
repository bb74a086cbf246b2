//! The fixed configuration of the board: nothing of it is read at run time.

use vstd::prelude::*;

verus! {

/// Address of the sensor on the two-wire bus.
pub const SENSOR_ADDRESS: u8 = 0x58;

/// Clock frequency of the two-wire bus, in hertz.
pub const BUS_FREQUENCY_HZ: u32 = 100_000;

/// Letter of the port that carries both bus pins.
pub const BUS_PORT: char = 'B';

/// Number of the bus-clock pin within its port.
pub const SCL_PIN: u8 = 8;

/// Number of the bus-data pin within its port.
pub const SDA_PIN: u8 = 9;

/// Timing class and clock frequency of a two-wire bus.
#[derive(Clone, Copy, Debug, PartialEq, Eq, Structural)]
pub enum BusMode {
    /// Standard mode.
    Standard {
        /// Clock frequency in hertz.
        frequency: u32,
    },
    /// Fast mode.
    Fast {
        /// Clock frequency in hertz.
        frequency: u32,
    },
}

impl BusMode {
    /// The clock frequency of the mode, as a specification.
    pub open spec fn frequency_of(self) -> u32 {
        match self {
            BusMode::Standard { frequency } => frequency,
            BusMode::Fast { frequency } => frequency,
        }
    }

    /// The clock frequency of the mode, in hertz.
    pub fn frequency(self) -> (hertz: u32)
        ensures
            hertz == self.frequency_of(),
    {
        match self {
            BusMode::Standard { frequency } => frequency,
            BusMode::Fast { frequency } => frequency,
        }
    }
}

/// The mode that the sensor's bus is run in: standard mode at
/// [`BUS_FREQUENCY_HZ`].
pub fn bus_mode() -> (mode: BusMode)
    ensures
        mode == (BusMode::Standard { frequency: BUS_FREQUENCY_HZ }),
{
    BusMode::Standard { frequency: BUS_FREQUENCY_HZ }
}

} // verus!
