//! What holds of every bring-up, whatever its caller reports.
//!
//! Each statement is about an arbitrary valid state, and every state that a
//! run can reach from reset is valid, so each holds at every point of every
//! run.

use crate::capability::Capability;
use crate::error::BringUpError;
use crate::sequencer::{held_after, Outcome, Progress, Stage};
use crate::step::{chain, lemma_order_holds_each_step_once, sink_of, source_of, Step, STEP_COUNT};
use vstd::prelude::*;

verus! {

/// The ledger in closed form: a capability is in hand once the step that
/// brings it into being is among the first `completed`, and for as long as
/// the step that uses it up is not.
spec fn in_hand(completed: nat, capability: Capability) -> bool {
    &&& source_of(capability).position() < completed
    &&& sink_of(capability) matches Some(sink) ==> completed <= sink.position()
}

proof fn lemma_ledger_in_closed_form(completed: nat)
    requires
        completed <= STEP_COUNT,
    ensures
        forall|capability: Capability| #[trigger]
            held_after(completed).contains(capability) == in_hand(completed, capability),
    decreases completed,
{
    if completed > 0 {
        let before = (completed - 1) as nat;
        lemma_ledger_in_closed_form(before);
        lemma_order_holds_each_step_once();
        assert forall|capability: Capability| #[trigger]
            held_after(completed).contains(capability) == in_hand(completed, capability) by {
            assert(held_after(before).contains(capability) == in_hand(before, capability));
        }
    }
}

/// A step has been performed exactly when its place in the order lies
/// before the number of steps performed.
pub proof fn lemma_performed_by_position(progress: Progress, step: Step)
    requires
        progress.valid(),
    ensures
        progress.performed().contains(step) <==> step.position() < progress.completed,
{
    lemma_order_holds_each_step_once();
    if step.position() < progress.completed {
        assert(progress.performed()[step.position() as int] == step);
    }
}

/// A report never leads out of the valid states.
pub proof fn lemma_next_stays_valid(progress: Progress, outcome: Outcome)
    requires
        progress.valid(),
    ensures
        progress.next(outcome).valid(),
{
}

/// Every state of every run is valid, and a run never undoes a step: it
/// only adds to what was performed.
pub proof fn lemma_run_stays_valid(progress: Progress, outcomes: Seq<Outcome>)
    requires
        progress.valid(),
    ensures
        progress.run(outcomes).valid(),
        progress.performed().is_prefix_of(progress.run(outcomes).performed()),
    decreases outcomes.len(),
{
    if outcomes.len() > 0 {
        let after = progress.next(outcomes[0]);
        lemma_run_stays_valid(after, outcomes.skip(1));
    }
}

/// A bring-up that is halted or done takes no further step: it stays as it
/// is whatever is reported. Only these two kinds of state are final.
pub proof fn lemma_final_states_stay(progress: Progress, outcome: Outcome)
    requires
        progress.valid(),
    ensures
        progress.halted() || progress.ready() ==> progress.next(outcome) == progress,
        progress.pending() is None <==> progress.halted() || progress.ready(),
{
}

/// A failed step halts the bring-up at once: the step does not count as
/// performed, nothing is gained, no step is due any more, and the error
/// names what the step was about.
pub proof fn lemma_failure_halts(progress: Progress)
    requires
        progress.valid(),
        progress.pending() is Some,
    ensures
        progress.next(Outcome::Unavailable).fault == Some(
            BringUpError::ResourceUnavailable(progress.pending().unwrap().subject_of()),
        ),
        progress.next(Outcome::Unavailable).pending() is None,
        progress.next(Outcome::Unavailable).performed() == progress.performed(),
        progress.next(Outcome::Unavailable).held() == progress.held(),
{
}

/// A completed step is added to what was performed, and the ledger changes
/// by what that step uses up and brings into being.
pub proof fn lemma_completion_advances(progress: Progress)
    requires
        progress.valid(),
        progress.pending() is Some,
    ensures
        progress.next(Outcome::Completed).performed() == progress.performed().push(
            progress.pending().unwrap(),
        ),
        progress.next(Outcome::Completed).held() == progress.pending().unwrap().effect(
            progress.held(),
        ),
{
}

/// A capability is in hand exactly from the moment its source has been
/// performed until its sink has been.
pub proof fn lemma_held_from_source_to_sink(progress: Progress, capability: Capability)
    requires
        progress.valid(),
    ensures
        progress.held().contains(capability) <==> {
            &&& progress.performed().contains(source_of(capability))
            &&& sink_of(capability) matches Some(sink) ==> !progress.performed().contains(sink)
        },
{
    lemma_ledger_in_closed_form(progress.completed);
    lemma_performed_by_position(progress, source_of(capability));
    if let Some(sink) = sink_of(capability) {
        lemma_performed_by_position(progress, sink);
    }
}

/// The step that is due can always run: everything it reads or uses up was
/// brought into being by an earlier step and is still in hand, and nothing
/// it brings into being exists already.
pub proof fn lemma_pending_step_is_enabled(progress: Progress)
    requires
        progress.valid(),
        progress.pending() is Some,
    ensures
        progress.pending().unwrap().enabled(progress.held()),
{
    lemma_order_holds_each_step_once();
    lemma_ledger_in_closed_form(progress.completed);
}

/// No step is performed twice.
pub proof fn lemma_no_step_twice(progress: Progress)
    requires
        progress.valid(),
    ensures
        progress.performed().no_duplicates(),
{
    lemma_order_holds_each_step_once();
}

/// A step that uses a capability up, or brings one into being, cannot run
/// a second time: once it has been performed it is never enabled again.
pub proof fn lemma_performed_step_cannot_run_again(
    progress: Progress,
    step: Step,
    capability: Capability,
)
    requires
        progress.valid(),
        progress.performed().contains(step),
        step.consumes_of().contains(capability) || step.produces_of().contains(capability),
    ensures
        !step.enabled(progress.held()),
{
    lemma_order_holds_each_step_once();
    lemma_ledger_in_closed_form(progress.completed);
    lemma_performed_by_position(progress, step);
    // What stands in the way: something the step needs and has used up
    // itself, or something it has made and that is never used up.
    let obstacle = match step {
        Step::OpenConsole => Capability::Console,
        Step::AcquireCore => Capability::CorePeripherals,
        Step::AcquireChip => Capability::ChipPeripherals,
        Step::ConstrainClockControl => Capability::ClockRegisters,
        Step::ConstrainAlternateFunctionIo => Capability::AlternateFunctionRegisters,
        Step::ConstrainFlashControl => Capability::FlashRegisters,
        Step::SplitPort => Capability::PortRegisters,
        Step::ConfigureScl => Capability::SclInput,
        Step::ConfigureSda => Capability::SdaInput,
        Step::FreezeClocks => Capability::ClockSetup,
        Step::ConstructBus => Capability::BusRegisters,
        Step::ConstructTimingSource => Capability::SystemTick,
        Step::ConstructSensor => Capability::Bus,
        _ => capability,
    };
    if step.consumes_of().contains(obstacle) {
        assert(step.needs_of().contains(obstacle));
        assert(!progress.held().contains(obstacle));
    } else {
        assert(step.produces_of().contains(obstacle));
        assert(progress.held().contains(obstacle));
    }
}

/// The core peripherals and the chip peripherals are each taken at most
/// once. The step that takes one is due only while it is not in hand, and
/// once taken it stays in hand for good.
pub proof fn lemma_peripherals_taken_once(progress: Progress, outcome: Outcome)
    requires
        progress.valid(),
    ensures
        forall|i: int, j: int|
            0 <= i < j < progress.performed().len() ==> !(progress.performed()[i]
                == Step::AcquireCore && progress.performed()[j] == Step::AcquireCore),
        forall|i: int, j: int|
            0 <= i < j < progress.performed().len() ==> !(progress.performed()[i]
                == Step::AcquireChip && progress.performed()[j] == Step::AcquireChip),
        progress.pending() == Some(Step::AcquireCore) ==> !progress.held().contains(
            Capability::CorePeripherals,
        ),
        progress.pending() == Some(Step::AcquireChip) ==> !progress.held().contains(
            Capability::ChipPeripherals,
        ),
        progress.held().contains(Capability::CorePeripherals) ==> {
            &&& !Step::AcquireCore.enabled(progress.held())
            &&& progress.next(outcome).held().contains(Capability::CorePeripherals)
        },
        progress.held().contains(Capability::ChipPeripherals) ==> {
            &&& !Step::AcquireChip.enabled(progress.held())
            &&& progress.next(outcome).held().contains(Capability::ChipPeripherals)
        },
{
    lemma_order_holds_each_step_once();
    lemma_ledger_in_closed_form(progress.completed);
    lemma_next_stays_valid(progress, outcome);
    lemma_ledger_in_closed_form(progress.next(outcome).completed);
}

/// The clock configuration is frozen at most once, and exactly once in a
/// bring-up that is done. The frozen configuration is in hand exactly when
/// the freeze has been performed, and a step that reads it is due only
/// then.
pub proof fn lemma_clocks_frozen_once_before_use(progress: Progress)
    requires
        progress.valid(),
    ensures
        forall|i: int, j: int|
            0 <= i < j < progress.performed().len() ==> !(progress.performed()[i]
                == Step::FreezeClocks && progress.performed()[j] == Step::FreezeClocks),
        progress.ready() ==> progress.performed().contains(Step::FreezeClocks),
        progress.held().contains(Capability::Clocks) <==> progress.performed().contains(
            Step::FreezeClocks,
        ),
        forall|step: Step|
            progress.pending() == Some(step) && step.needs_of().contains(Capability::Clocks)
                ==> progress.performed().contains(Step::FreezeClocks),
        forall|i: int|
            0 <= i < progress.performed().len() && progress.performed()[i].needs_of().contains(
                Capability::Clocks,
            ) ==> exists|k: int| 0 <= k < i && progress.performed()[k] == Step::FreezeClocks,
{
    lemma_order_holds_each_step_once();
    lemma_ledger_in_closed_form(progress.completed);
    let freeze = Step::FreezeClocks.position() as int;
    if progress.completed > freeze {
        assert(progress.performed()[freeze] == Step::FreezeClocks);
    }
    assert forall|i: int|
        0 <= i < progress.performed().len() && progress.performed()[i].needs_of().contains(
            Capability::Clocks,
        ) implies exists|k: int| 0 <= k < i && progress.performed()[k] == Step::FreezeClocks by {
        assert(chain()[i].position() == i);
        assert(progress.performed()[freeze] == Step::FreezeClocks);
    }
}

/// A pin changes its role one way only. Once a bus pin has been made
/// open-drain, its handle as an input is never in hand again and the
/// conversion cannot run again, and at no time is a pin in hand in both
/// roles.
pub proof fn lemma_pin_roles_one_way(progress: Progress)
    requires
        progress.valid(),
    ensures
        progress.performed().contains(Step::ConfigureScl) ==> {
            &&& !progress.held().contains(Capability::SclInput)
            &&& !Step::ConfigureScl.enabled(progress.held())
        },
        progress.performed().contains(Step::ConfigureSda) ==> {
            &&& !progress.held().contains(Capability::SdaInput)
            &&& !Step::ConfigureSda.enabled(progress.held())
        },
        !(progress.held().contains(Capability::SclInput) && progress.held().contains(
            Capability::SclOpenDrain,
        )),
        !(progress.held().contains(Capability::SdaInput) && progress.held().contains(
            Capability::SdaOpenDrain,
        )),
{
    lemma_ledger_in_closed_form(progress.completed);
    lemma_performed_by_position(progress, Step::ConfigureScl);
    lemma_performed_by_position(progress, Step::ConfigureSda);
    assert(Step::ConfigureScl.needs_of().contains(Capability::SclInput));
    assert(Step::ConfigureSda.needs_of().contains(Capability::SdaInput));
}

/// A bring-up that is done has reached the last stage and owns the sensor
/// device. The bus and the delay provider have gone into the device:
/// neither is in hand any more. No other state is at the last stage.
pub proof fn lemma_ready_owns_the_device(progress: Progress)
    requires
        progress.valid(),
    ensures
        progress.ready() ==> {
            &&& progress.stage() == Stage::DeviceReady
            &&& progress.held().contains(Capability::Sensor)
            &&& !progress.held().contains(Capability::Bus)
            &&& !progress.held().contains(Capability::TimingSource)
        },
        progress.stage() == Stage::DeviceReady ==> progress.ready(),
        progress.held().contains(Capability::Sensor) ==> progress.ready(),
{
    lemma_order_holds_each_step_once();
    lemma_ledger_in_closed_form(progress.completed);
    reveal_with_fuel(Stage::after, 17);
}

/// The stage never goes back, and a report moves it by one milestone at
/// most.
pub proof fn lemma_stage_moves_forward(progress: Progress, outcome: Outcome)
    requires
        progress.valid(),
    ensures
        progress.stage().rank() <= progress.next(outcome).stage().rank() <= progress.stage().rank()
            + 1,
{
    lemma_order_holds_each_step_once();
    reveal_with_fuel(Stage::after, 18);
}

/// When every step is reported as completed, the bring-up is done after
/// exactly as many reports as there are steps.
pub proof fn lemma_unbroken_run_is_ready(outcomes: Seq<Outcome>)
    requires
        outcomes.len() == STEP_COUNT,
        forall|i: int| 0 <= i < outcomes.len() ==> outcomes[i] == Outcome::Completed,
    ensures
        Progress::initial().run(outcomes).ready(),
{
    lemma_unbroken_run(Progress::initial(), outcomes);
}

proof fn lemma_unbroken_run(progress: Progress, outcomes: Seq<Outcome>)
    requires
        progress.valid(),
        !progress.halted(),
        progress.completed + outcomes.len() == STEP_COUNT,
        forall|i: int| 0 <= i < outcomes.len() ==> outcomes[i] == Outcome::Completed,
    ensures
        progress.run(outcomes).ready(),
    decreases outcomes.len(),
{
    if outcomes.len() > 0 {
        lemma_unbroken_run(progress.next(outcomes[0]), outcomes.skip(1));
    }
}

} // verus!
