use sgp30_bringup::error::{BringUpError, Signal};
use sgp30_bringup::vector_table::{Handler, VectorTable, INTERRUPT_COUNT};

#[test]
fn table_has_one_slot_per_interrupt_line() {
    assert_eq!(INTERRUPT_COUNT, 240);
    assert_eq!(VectorTable::new().len(), 240);
}

#[test]
fn every_slot_holds_the_default_handler() {
    let table = VectorTable::new();
    for line in 0..INTERRUPT_COUNT {
        assert_eq!(table.handler(line), Some(Handler::Default), "line {}", line);
    }
}

#[test]
fn no_slot_past_the_last_line() {
    let table = VectorTable::new();
    assert_eq!(table.handler(240), None);
    assert_eq!(table.handler(usize::MAX), None);
    assert_eq!(table.dispatch(240), None);
    assert_eq!(table.dispatch(usize::MAX), None);
}

#[test]
fn default_handler_reports_the_interrupt_as_unhandled() {
    assert_eq!(Handler::Default.invoke(), BringUpError::UnhandledInterrupt);
}

#[test]
fn unassigned_interrupt_traps_into_the_debugger() {
    let table = VectorTable::new();
    for line in 0..INTERRUPT_COUNT {
        assert_eq!(table.dispatch(line), Some(Signal::DebugTrap), "line {}", line);
    }
}

#[test]
fn each_error_shows_in_its_own_way() {
    assert_eq!(BringUpError::UnhandledInterrupt.signal(), Signal::DebugTrap);
    assert_eq!(
        BringUpError::ResourceUnavailable(sgp30_bringup::capability::Capability::ChipPeripherals)
            .signal(),
        Signal::Halt
    );
}
