//! A model of the hardware, as far as the hardware can refuse a step.
//!
//! Three things can be missing when the bring-up asks for them: the host
//! console, when no debugger is attached; and the core and the chip
//! peripherals, each of which can be taken once and never again. The model
//! keeps one flag for each, and answers every step as the hardware would.
//! With it a whole bring-up can be run and examined off target.

use crate::capability::Capability;
use crate::error::BringUpError;
use crate::invariants::lemma_next_stays_valid;
use crate::sequencer::{Outcome, Progress, Sequencer};
use crate::step::{lemma_order_holds_each_step_once, Step, STEP_COUNT};
use vstd::prelude::*;

verus! {

/// What the hardware can still give.
#[derive(Clone, Copy, Debug, PartialEq, Eq, Structural)]
pub struct Board {
    /// A debugger is attached, so the host console can be opened and
    /// written to.
    pub console_attached: bool,
    /// The core peripherals have not been taken yet.
    pub core_free: bool,
    /// The chip peripherals have not been taken yet.
    pub chip_free: bool,
}

impl Board {
    /// How the hardware answers `step`, and what it is afterwards. The
    /// console opens and takes a line while a debugger is attached. Either
    /// set of peripherals is handed out if it is still free, and is then
    /// free no more; asked for again, it is refused. Every other step only
    /// divides up or combines what is owned already, and cannot fail.
    pub open spec fn respond(self, step: Step) -> (Board, Outcome) {
        match step {
            Step::OpenConsole | Step::AnnounceStart | Step::AnnouncePeripherals
            | Step::AnnounceSensor => (
                self,
                if self.console_attached {
                    Outcome::Completed
                } else {
                    Outcome::Unavailable
                },
            ),
            Step::AcquireCore => if self.core_free {
                (Board { core_free: false, ..self }, Outcome::Completed)
            } else {
                (self, Outcome::Unavailable)
            },
            Step::AcquireChip => if self.chip_free {
                (Board { chip_free: false, ..self }, Outcome::Completed)
            } else {
                (self, Outcome::Unavailable)
            },
            _ => (self, Outcome::Completed),
        }
    }

    /// The step on which a bring-up on this board fails, if it fails.
    pub open spec fn refuses(self) -> Option<Step> {
        if !self.console_attached {
            Some(Step::OpenConsole)
        } else if !self.core_free {
            Some(Step::AcquireCore)
        } else if !self.chip_free {
            Some(Step::AcquireChip)
        } else {
            None
        }
    }

    /// How a bring-up on this board ends: done, or halted on the first step
    /// that the board refuses, with every step before it performed.
    pub open spec fn bring_up_result(self) -> Progress {
        match self.refuses() {
            None => Progress { completed: STEP_COUNT as nat, fault: None },
            Some(step) => Progress {
                completed: step.position(),
                fault: Some(BringUpError::ResourceUnavailable(step.subject_of())),
            },
        }
    }

    /// The board after a bring-up on it: the peripherals that the bring-up
    /// got as far as taking are free no more.
    pub open spec fn after_bring_up(self) -> Board {
        Board {
            console_attached: self.console_attached,
            core_free: self.core_free && !self.console_attached,
            chip_free: self.chip_free && !(self.console_attached && self.core_free),
        }
    }

    /// A board just out of reset, with a debugger attached: nothing is
    /// taken.
    pub fn fresh() -> (board: Board)
        ensures
            board == (Board { console_attached: true, core_free: true, chip_free: true }),
    {
        Board { console_attached: true, core_free: true, chip_free: true }
    }

    /// Performs `step` on the model and reports how it went.
    pub fn perform(&mut self, step: Step) -> (outcome: Outcome)
        ensures
            (*final(self), outcome) == old(self).respond(step),
    {
        match step {
            Step::OpenConsole | Step::AnnounceStart | Step::AnnouncePeripherals
            | Step::AnnounceSensor => {
                if self.console_attached {
                    Outcome::Completed
                } else {
                    Outcome::Unavailable
                }
            },
            Step::AcquireCore => {
                if self.core_free {
                    self.core_free = false;
                    Outcome::Completed
                } else {
                    Outcome::Unavailable
                }
            },
            Step::AcquireChip => {
                if self.chip_free {
                    self.chip_free = false;
                    Outcome::Completed
                } else {
                    Outcome::Unavailable
                }
            },
            _ => Outcome::Completed,
        }
    }
}

/// What a bring-up on `start` has made of the board when it stands at
/// `progress`.
spec fn underway(start: Board, board: Board, progress: Progress) -> bool {
    if progress.halted() {
        board == start.after_bring_up() && progress == start.bring_up_result()
    } else {
        &&& board.console_attached == start.console_attached
        &&& board.core_free == (start.core_free && progress.completed <= Step::AcquireCore.position())
        &&& board.chip_free == (start.chip_free && progress.completed <= Step::AcquireChip.position())
        &&& progress.completed > Step::OpenConsole.position() ==> start.console_attached
        &&& progress.completed > Step::AcquireCore.position() ==> start.core_free
        &&& progress.completed > Step::AcquireChip.position() ==> start.chip_free
    }
}

/// Steps and reports still to come, at most.
spec fn remaining(progress: Progress) -> int {
    STEP_COUNT - progress.completed + if progress.pending() is Some {
        1int
    } else {
        0int
    }
}

/// Runs a whole bring-up on `board`: asks the sequencer for each step in
/// turn, performs it on the board and reports the outcome, until the
/// bring-up is done or halted. Returns the sequencer as it then stands.
pub fn bring_up(board: &mut Board) -> (sequencer: Sequencer)
    ensures
        sequencer@ == old(board).bring_up_result(),
        *final(board) == old(board).after_bring_up(),
{
    let ghost start = *board;
    let mut sequencer = Sequencer::new();
    let mut due = sequencer.pending();
    while due.is_some()
        invariant
            sequencer@.valid(),
            due == sequencer@.pending(),
            underway(start, *board, sequencer@),
        decreases remaining(sequencer@),
    {
        let step = due.unwrap();
        let ghost before = sequencer@;
        let outcome = board.perform(step);
        sequencer.advance(outcome);
        proof {
            lemma_order_holds_each_step_once();
            lemma_next_stays_valid(before, outcome);
        }
        due = sequencer.pending();
    }
    sequencer
}

/// Peripherals are handed out once. Whatever a first request got, a second
/// request for the same set is refused, and it changes nothing.
pub proof fn lemma_second_acquisition_is_refused(board: Board, step: Step)
    requires
        step == Step::AcquireCore || step == Step::AcquireChip,
    ensures
        board.respond(step).0.respond(step) == (board.respond(step).0, Outcome::Unavailable),
{
}

/// A refusal by the board halts the bring-up, and the error names what the
/// refused step was about.
pub proof fn lemma_refusal_halts(board: Board, progress: Progress)
    requires
        progress.valid(),
        progress.pending() is Some,
        board.respond(progress.pending().unwrap()).1 == Outcome::Unavailable,
    ensures
        progress.next(board.respond(progress.pending().unwrap()).1).fault == Some(
            BringUpError::ResourceUnavailable(progress.pending().unwrap().subject_of()),
        ),
        board.respond(progress.pending().unwrap()).0 == board,
{
}

/// On a board with a debugger attached and nothing taken, the bring-up
/// runs to the end.
pub proof fn lemma_fresh_board_comes_up(board: Board)
    requires
        board.console_attached,
        board.core_free,
        board.chip_free,
    ensures
        board.bring_up_result().ready(),
        !board.after_bring_up().core_free,
        !board.after_bring_up().chip_free,
{
}

/// A second bring-up on the same board never runs to the end. It halts on
/// what the first one found missing or, where the first got as far as the
/// core peripherals, for want of these: they are taken.
pub proof fn lemma_second_bring_up_halts(board: Board)
    ensures
        board.after_bring_up().bring_up_result().halted(),
        board.console_attached ==> board.after_bring_up().bring_up_result().fault == Some(
            BringUpError::ResourceUnavailable(Capability::CorePeripherals),
        ),
        board.after_bring_up().after_bring_up() == board.after_bring_up(),
{
}

} // verus!
