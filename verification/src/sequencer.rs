//! The bring-up sequencer: which step comes next, and what becomes of the
//! bring-up when a step succeeds or fails.
//!
//! The sequencer touches no hardware. Its caller performs the step it names
//! and reports how that went; the sequencer then moves on or halts. It keeps
//! a ledger of the capabilities in hand, so that a caller can see at any
//! point what it still owns and what it has given away.

use crate::capability::{Capability, CapabilitySet};
use crate::error::BringUpError;
use crate::step::{chain, Step, STEP_COUNT};
use vstd::prelude::*;

verus! {

/// The milestones of the bring-up, in the order in which they are reached.
#[derive(Clone, Copy, Debug, PartialEq, Eq, Structural)]
pub enum Stage {
    /// Nothing is owned yet, or not yet both peripheral sets.
    Reset,
    /// The core and chip peripherals are taken.
    PeripheralsAcquired,
    /// The clock, alternate-function and flash handles exist.
    RegistersConstrained,
    /// Both bus pins are alternate-function open-drain.
    PinsConfigured,
    /// The clock configuration is frozen.
    ClockFrozen,
    /// The bus peripheral exists.
    BusReady,
    /// The delay provider exists.
    TimingReady,
    /// The sensor device exists: the terminal stage.
    DeviceReady,
}

impl Stage {
    /// Place of the stage in the order of milestones.
    pub open spec fn rank(self) -> nat {
        match self {
            Stage::Reset => 0,
            Stage::PeripheralsAcquired => 1,
            Stage::RegistersConstrained => 2,
            Stage::PinsConfigured => 3,
            Stage::ClockFrozen => 4,
            Stage::BusReady => 5,
            Stage::TimingReady => 6,
            Stage::DeviceReady => 7,
        }
    }

    /// The milestone that a step reaches when it completes, if it reaches
    /// one.
    pub open spec fn reached_by(step: Step) -> Option<Stage> {
        match step {
            Step::AcquireChip => Some(Stage::PeripheralsAcquired),
            Step::ConstrainFlashControl => Some(Stage::RegistersConstrained),
            Step::ConfigureSda => Some(Stage::PinsConfigured),
            Step::FreezeClocks => Some(Stage::ClockFrozen),
            Step::ConstructBus => Some(Stage::BusReady),
            Step::ConstructTimingSource => Some(Stage::TimingReady),
            Step::ConstructSensor => Some(Stage::DeviceReady),
            _ => None,
        }
    }

    /// The stage after the first `completed` steps of the order: the
    /// milestone of the latest of them that reaches one.
    pub open spec fn after(completed: nat) -> Stage
        decreases completed,
    {
        if completed == 0 {
            Stage::Reset
        } else {
            match Stage::reached_by(chain()[completed - 1]) {
                Some(stage) => stage,
                None => Stage::after((completed - 1) as nat),
            }
        }
    }
}

/// What the caller reports of the step it was asked to perform.
#[derive(Clone, Copy, Debug, PartialEq, Eq, Structural)]
pub enum Outcome {
    /// The step was performed.
    Completed,
    /// The step could not be performed: what it is about could not be had.
    Unavailable,
}

/// What is in hand after the first `completed` steps of the order.
pub open spec fn held_after(completed: nat) -> Set<Capability>
    decreases completed,
{
    if completed == 0 {
        Set::empty()
    } else {
        chain()[completed - 1].effect(held_after((completed - 1) as nat))
    }
}

/// How far a bring-up has come: the mathematical state of a [`Sequencer`].
pub struct Progress {
    /// Number of steps performed, all of them the first of the order.
    pub completed: nat,
    /// The error that halted the bring-up, if one did.
    pub fault: Option<BringUpError>,
}

impl Progress {
    /// The state at reset.
    pub open spec fn initial() -> Progress {
        Progress { completed: 0, fault: None }
    }

    /// The states that a bring-up can be in: it is within the order, and if
    /// it halted, it halted on the step that was due, for want of what that
    /// step is about.
    pub open spec fn valid(self) -> bool {
        &&& self.completed <= STEP_COUNT
        &&& self.fault matches Some(error) ==> {
            &&& self.completed < STEP_COUNT
            &&& error == BringUpError::ResourceUnavailable(
                chain()[self.completed as int].subject_of(),
            )
        }
    }

    /// The bring-up has stopped on an error.
    pub open spec fn halted(self) -> bool {
        self.fault is Some
    }

    /// Every step is done.
    pub open spec fn ready(self) -> bool {
        self.fault is None && self.completed == STEP_COUNT
    }

    /// The step that is due, unless the bring-up is halted or done.
    pub open spec fn pending(self) -> Option<Step> {
        if self.fault is None && self.completed < STEP_COUNT {
            Some(chain()[self.completed as int])
        } else {
            None
        }
    }

    /// The steps performed so far, in order.
    pub open spec fn performed(self) -> Seq<Step> {
        chain().take(self.completed as int)
    }

    /// The capabilities in hand.
    pub open spec fn held(self) -> Set<Capability> {
        held_after(self.completed)
    }

    /// The latest milestone reached.
    pub open spec fn stage(self) -> Stage {
        Stage::after(self.completed)
    }

    /// The state after the caller has reported `outcome` of the step that
    /// was due. A completed step counts as performed. A failed step halts
    /// the bring-up where it stands, and names what was missing. A bring-up
    /// that is halted or done stays as it is.
    pub open spec fn next(self, outcome: Outcome) -> Progress {
        match self.pending() {
            None => self,
            Some(step) => match outcome {
                Outcome::Completed => Progress { completed: self.completed + 1, fault: None },
                Outcome::Unavailable => Progress {
                    completed: self.completed,
                    fault: Some(BringUpError::ResourceUnavailable(step.subject_of())),
                },
            },
        }
    }

    /// The state after a whole series of reports, taken in order.
    pub open spec fn run(self, outcomes: Seq<Outcome>) -> Progress
        decreases outcomes.len(),
    {
        if outcomes.len() == 0 {
            self
        } else {
            self.next(outcomes[0]).run(outcomes.skip(1))
        }
    }
}

/// The sequencer of one bring-up.
pub struct Sequencer {
    completed: usize,
    fault: Option<BringUpError>,
    held: CapabilitySet,
}

impl View for Sequencer {
    type V = Progress;

    closed spec fn view(&self) -> Progress {
        Progress { completed: self.completed as nat, fault: self.fault }
    }
}

impl Sequencer {
    #[verifier::type_invariant]
    spec fn consistent(self) -> bool {
        &&& self@.valid()
        &&& self.held@ == held_after(self.completed as nat)
    }

    /// A sequencer at reset: no step performed, nothing in hand.
    pub fn new() -> (sequencer: Sequencer)
        ensures
            sequencer@ == Progress::initial(),
    {
        Sequencer { completed: 0, fault: None, held: CapabilitySet::empty() }
    }

    /// The step that the caller is to perform now; `None` once the bring-up
    /// is halted or done.
    pub fn pending(&self) -> (step: Option<Step>)
        ensures
            self@.valid(),
            step == self@.pending(),
    {
        proof {
            use_type_invariant(self);
        }
        match self.fault {
            Some(_) => None,
            None => Step::at(self.completed),
        }
    }

    /// Takes the caller's report of the step that was due.
    pub fn advance(&mut self, outcome: Outcome)
        ensures
            final(self)@ == old(self)@.next(outcome),
    {
        proof {
            use_type_invariant(&*self);
        }
        match self.pending() {
            None => {},
            Some(step) => match outcome {
                Outcome::Completed => {
                    *self = Sequencer {
                        completed: self.completed + 1,
                        fault: None,
                        held: self.held.difference(step.consumes()).union(step.produces()),
                    };
                },
                Outcome::Unavailable => {
                    *self = Sequencer {
                        completed: self.completed,
                        fault: Some(BringUpError::ResourceUnavailable(step.subject())),
                        held: self.held,
                    };
                },
            },
        }
    }

    /// Number of steps performed.
    pub fn completed(&self) -> (count: usize)
        ensures
            count == self@.completed,
            count <= STEP_COUNT,
    {
        proof {
            use_type_invariant(self);
        }
        self.completed
    }

    /// The error that halted the bring-up, if one did.
    pub fn fault(&self) -> (fault: Option<BringUpError>)
        ensures
            fault == self@.fault,
    {
        self.fault
    }

    /// Whether the bring-up has stopped on an error.
    pub fn is_halted(&self) -> (halted: bool)
        ensures
            halted == self@.halted(),
    {
        self.fault.is_some()
    }

    /// Whether every step is done and the sensor device exists.
    pub fn is_ready(&self) -> (ready: bool)
        ensures
            ready == self@.ready(),
    {
        self.fault.is_none() && self.completed == STEP_COUNT
    }

    /// The latest milestone reached.
    pub fn stage(&self) -> (stage: Stage)
        ensures
            stage == self@.stage(),
    {
        proof {
            use_type_invariant(self);
            reveal_with_fuel(Stage::after, 17);
        }
        if self.completed >= 16 {
            Stage::DeviceReady
        } else if self.completed >= 14 {
            Stage::TimingReady
        } else if self.completed >= 13 {
            Stage::BusReady
        } else if self.completed >= 12 {
            Stage::ClockFrozen
        } else if self.completed >= 11 {
            Stage::PinsConfigured
        } else if self.completed >= 8 {
            Stage::RegistersConstrained
        } else if self.completed >= 5 {
            Stage::PeripheralsAcquired
        } else {
            Stage::Reset
        }
    }

    /// Whether `capability` is in hand.
    pub fn holds(&self, capability: Capability) -> (held: bool)
        ensures
            held == self@.held().contains(capability),
    {
        proof {
            use_type_invariant(self);
        }
        self.held.contains(capability)
    }

    /// Whether `step` could run on what is in hand now.
    pub fn can_perform(&self, step: Step) -> (enabled: bool)
        ensures
            enabled == step.enabled(self@.held()),
    {
        proof {
            use_type_invariant(self);
        }
        step.can_run(self.held)
    }

    /// All the capabilities in hand.
    pub fn held(&self) -> (set: CapabilitySet)
        ensures
            set@ == self@.held(),
    {
        proof {
            use_type_invariant(self);
        }
        self.held
    }
}

} // verus!
