use sgp30_bringup::board::{bring_up, Board};
use sgp30_bringup::capability::Capability;
use sgp30_bringup::error::BringUpError;
use sgp30_bringup::sequencer::{Outcome, Stage};
use sgp30_bringup::step::Step;

#[test]
fn fresh_board_has_everything() {
    assert_eq!(
        Board::fresh(),
        Board { console_attached: true, core_free: true, chip_free: true }
    );
}

#[test]
fn second_acquisition_of_core_peripherals_is_refused() {
    let mut board = Board::fresh();
    assert_eq!(board.perform(Step::AcquireCore), Outcome::Completed);
    assert!(!board.core_free);
    let taken = board;
    assert_eq!(board.perform(Step::AcquireCore), Outcome::Unavailable);
    assert_eq!(board, taken);
    assert_eq!(board.perform(Step::AcquireCore), Outcome::Unavailable);
    assert!(board.chip_free);
}

#[test]
fn second_acquisition_of_chip_peripherals_is_refused() {
    let mut board = Board::fresh();
    assert_eq!(board.perform(Step::AcquireCore), Outcome::Completed);
    assert_eq!(board.perform(Step::AcquireChip), Outcome::Completed);
    assert_eq!(
        board,
        Board { console_attached: true, core_free: false, chip_free: false }
    );
    assert_eq!(board.perform(Step::AcquireChip), Outcome::Unavailable);
    assert_eq!(
        board,
        Board { console_attached: true, core_free: false, chip_free: false }
    );
}

#[test]
fn console_needs_a_debugger() {
    let mut detached = Board { console_attached: false, core_free: true, chip_free: true };
    for step in [
        Step::OpenConsole,
        Step::AnnounceStart,
        Step::AnnouncePeripherals,
        Step::AnnounceSensor,
    ] {
        assert_eq!(detached.perform(step), Outcome::Unavailable);
        assert_eq!(Board::fresh().perform(step), Outcome::Completed);
    }
    assert_eq!(
        detached,
        Board { console_attached: false, core_free: true, chip_free: true }
    );
}

#[test]
fn steps_on_owned_registers_cannot_fail() {
    for step in [
        Step::ConstrainClockControl,
        Step::ConstrainAlternateFunctionIo,
        Step::ConstrainFlashControl,
        Step::SplitPort,
        Step::ConfigureScl,
        Step::ConfigureSda,
        Step::FreezeClocks,
        Step::ConstructBus,
        Step::ConstructTimingSource,
        Step::ConstructSensor,
    ] {
        let mut board = Board { console_attached: false, core_free: false, chip_free: false };
        assert_eq!(board.perform(step), Outcome::Completed);
        assert_eq!(
            board,
            Board { console_attached: false, core_free: false, chip_free: false }
        );
    }
}

#[test]
fn bring_up_on_fresh_board_reaches_device_ready() {
    let mut board = Board::fresh();
    let sequencer = bring_up(&mut board);
    assert!(sequencer.is_ready());
    assert_eq!(sequencer.stage(), Stage::DeviceReady);
    assert_eq!(sequencer.completed(), 16);
    assert_eq!(sequencer.fault(), None);
    assert!(sequencer.holds(Capability::Sensor));
    assert!(!sequencer.holds(Capability::Bus));
    assert!(!sequencer.holds(Capability::TimingSource));
    assert_eq!(
        board,
        Board { console_attached: true, core_free: false, chip_free: false }
    );
}

#[test]
fn second_bring_up_in_the_same_process_finds_peripherals_taken() {
    let mut board = Board::fresh();
    assert!(bring_up(&mut board).is_ready());
    let again = bring_up(&mut board);
    assert!(again.is_halted());
    assert!(!again.is_ready());
    assert_eq!(
        again.fault(),
        Some(BringUpError::ResourceUnavailable(Capability::CorePeripherals))
    );
    assert_eq!(again.completed(), 3);
    assert_eq!(again.stage(), Stage::Reset);
    assert!(!again.holds(Capability::CorePeripherals));
    assert_eq!(
        board,
        Board { console_attached: true, core_free: false, chip_free: false }
    );
}

#[test]
fn bring_up_without_debugger_halts_on_the_console() {
    let mut board = Board { console_attached: false, core_free: true, chip_free: true };
    let sequencer = bring_up(&mut board);
    assert_eq!(
        sequencer.fault(),
        Some(BringUpError::ResourceUnavailable(Capability::Console))
    );
    assert_eq!(sequencer.completed(), 0);
    assert_eq!(
        board,
        Board { console_attached: false, core_free: true, chip_free: true }
    );
}

#[test]
fn bring_up_with_core_taken_halts_and_leaves_chip_alone() {
    let mut board = Board { console_attached: true, core_free: false, chip_free: true };
    let sequencer = bring_up(&mut board);
    assert_eq!(
        sequencer.fault(),
        Some(BringUpError::ResourceUnavailable(Capability::CorePeripherals))
    );
    assert_eq!(sequencer.completed(), 3);
    assert!(sequencer.holds(Capability::Console));
    assert_eq!(
        board,
        Board { console_attached: true, core_free: false, chip_free: true }
    );
}

#[test]
fn bring_up_with_chip_taken_halts_after_taking_core() {
    let mut board = Board { console_attached: true, core_free: true, chip_free: false };
    let sequencer = bring_up(&mut board);
    assert_eq!(
        sequencer.fault(),
        Some(BringUpError::ResourceUnavailable(Capability::ChipPeripherals))
    );
    assert_eq!(sequencer.completed(), 4);
    assert_eq!(sequencer.stage(), Stage::Reset);
    assert!(sequencer.holds(Capability::CorePeripherals));
    assert!(!sequencer.holds(Capability::ChipPeripherals));
    assert_eq!(
        board,
        Board { console_attached: true, core_free: false, chip_free: false }
    );
}
