//! Boot-time bring-up of an STM32F103 board that carries an SGP30 gas sensor
//! on its first two-wire bus.
//!
//! The crate holds the decisions of the bring-up and leaves every register
//! access to its caller: the [`sequencer`] says which step comes next and
//! what a failed step means, the [`vector_table`] says what every interrupt
//! line dispatches to, and the [`board`] stands in for the hardware where the
//! sequence is run off target.

pub mod board;
pub mod capability;
pub mod config;
pub mod error;
pub mod invariants;
pub mod sequencer;
pub mod step;
pub mod vector_table;
