//! The steps of the bring-up, their fixed order, and what each step does to
//! the capabilities in hand.

use crate::capability::{Capability, CapabilitySet};
use vstd::prelude::*;

verus! {

/// Number of steps from reset to a ready sensor device.
pub const STEP_COUNT: usize = 16;

/// One step of the bring-up: one piece of work on the hardware, done by the
/// caller.
#[derive(Clone, Copy, Debug, PartialEq, Eq, Structural)]
pub enum Step {
    /// Open the host debug-output channel.
    OpenConsole,
    /// Write the greeting to the console.
    AnnounceStart,
    /// Tell the console that the peripherals come next.
    AnnouncePeripherals,
    /// Take the core peripherals, once and for all.
    AcquireCore,
    /// Take the chip peripherals, once and for all.
    AcquireChip,
    /// Turn the raw clock-control block into its typed handles.
    ConstrainClockControl,
    /// Turn the raw alternate-function block into its typed handle.
    ConstrainAlternateFunctionIo,
    /// Turn the raw flash block into its typed handle.
    ConstrainFlashControl,
    /// Split the port into its configuration register and its pins.
    SplitPort,
    /// Make the bus-clock pin alternate-function open-drain.
    ConfigureScl,
    /// Make the bus-data pin alternate-function open-drain.
    ConfigureSda,
    /// Freeze the clock configuration.
    FreezeClocks,
    /// Build the two-wire bus peripheral.
    ConstructBus,
    /// Build the delay provider on the system tick.
    ConstructTimingSource,
    /// Tell the console that the sensor comes next.
    AnnounceSensor,
    /// Build the sensor device from the bus and the delay provider.
    ConstructSensor,
}

/// The steps in the order in which they are performed.
pub open spec fn chain() -> Seq<Step> {
    seq![
        Step::OpenConsole,
        Step::AnnounceStart,
        Step::AnnouncePeripherals,
        Step::AcquireCore,
        Step::AcquireChip,
        Step::ConstrainClockControl,
        Step::ConstrainAlternateFunctionIo,
        Step::ConstrainFlashControl,
        Step::SplitPort,
        Step::ConfigureScl,
        Step::ConfigureSda,
        Step::FreezeClocks,
        Step::ConstructBus,
        Step::ConstructTimingSource,
        Step::AnnounceSensor,
        Step::ConstructSensor,
    ]
}

impl Step {
    /// Place of the step in the order, counted from zero.
    pub open spec fn position(self) -> nat {
        match self {
            Step::OpenConsole => 0,
            Step::AnnounceStart => 1,
            Step::AnnouncePeripherals => 2,
            Step::AcquireCore => 3,
            Step::AcquireChip => 4,
            Step::ConstrainClockControl => 5,
            Step::ConstrainAlternateFunctionIo => 6,
            Step::ConstrainFlashControl => 7,
            Step::SplitPort => 8,
            Step::ConfigureScl => 9,
            Step::ConfigureSda => 10,
            Step::FreezeClocks => 11,
            Step::ConstructBus => 12,
            Step::ConstructTimingSource => 13,
            Step::AnnounceSensor => 14,
            Step::ConstructSensor => 15,
        }
    }

    /// What must be in hand for the step to run: what it reads and what it
    /// uses up.
    pub open spec fn needs_of(self) -> Set<Capability> {
        match self {
            Step::OpenConsole => set![],
            Step::AnnounceStart => set![Capability::Console],
            Step::AnnouncePeripherals => set![Capability::Console],
            Step::AcquireCore => set![],
            Step::AcquireChip => set![],
            Step::ConstrainClockControl => set![Capability::ClockRegisters],
            Step::ConstrainAlternateFunctionIo => set![
                Capability::AlternateFunctionRegisters,
                Capability::BusClockGate,
            ],
            Step::ConstrainFlashControl => set![Capability::FlashRegisters],
            Step::SplitPort => set![Capability::PortRegisters, Capability::BusClockGate],
            Step::ConfigureScl => set![Capability::SclInput, Capability::PortConfig],
            Step::ConfigureSda => set![Capability::SdaInput, Capability::PortConfig],
            Step::FreezeClocks => set![Capability::ClockSetup, Capability::FlashControl],
            Step::ConstructBus => set![
                Capability::BusRegisters,
                Capability::SclOpenDrain,
                Capability::SdaOpenDrain,
                Capability::AlternateFunctionMap,
                Capability::Clocks,
                Capability::BusClockGate,
            ],
            Step::ConstructTimingSource => set![Capability::SystemTick, Capability::Clocks],
            Step::AnnounceSensor => set![Capability::Console],
            Step::ConstructSensor => set![Capability::Bus, Capability::TimingSource],
        }
    }

    /// What the step uses up: these handles are moved into the step and are
    /// gone afterwards.
    pub open spec fn consumes_of(self) -> Set<Capability> {
        match self {
            Step::ConstrainClockControl => set![Capability::ClockRegisters],
            Step::ConstrainAlternateFunctionIo => set![Capability::AlternateFunctionRegisters],
            Step::ConstrainFlashControl => set![Capability::FlashRegisters],
            Step::SplitPort => set![Capability::PortRegisters],
            Step::ConfigureScl => set![Capability::SclInput],
            Step::ConfigureSda => set![Capability::SdaInput],
            Step::FreezeClocks => set![Capability::ClockSetup, Capability::FlashControl],
            Step::ConstructBus => set![
                Capability::BusRegisters,
                Capability::SclOpenDrain,
                Capability::SdaOpenDrain,
            ],
            Step::ConstructTimingSource => set![Capability::SystemTick],
            Step::ConstructSensor => set![Capability::Bus, Capability::TimingSource],
            _ => set![],
        }
    }

    /// What the step brings into being.
    pub open spec fn produces_of(self) -> Set<Capability> {
        match self {
            Step::OpenConsole => set![Capability::Console],
            Step::AnnounceStart => set![],
            Step::AnnouncePeripherals => set![],
            Step::AcquireCore => set![Capability::CorePeripherals, Capability::SystemTick],
            Step::AcquireChip => set![
                Capability::ChipPeripherals,
                Capability::ClockRegisters,
                Capability::AlternateFunctionRegisters,
                Capability::FlashRegisters,
                Capability::PortRegisters,
                Capability::BusRegisters,
            ],
            Step::ConstrainClockControl => set![Capability::ClockSetup, Capability::BusClockGate],
            Step::ConstrainAlternateFunctionIo => set![Capability::AlternateFunctionMap],
            Step::ConstrainFlashControl => set![Capability::FlashControl],
            Step::SplitPort => set![
                Capability::PortConfig,
                Capability::SclInput,
                Capability::SdaInput,
            ],
            Step::ConfigureScl => set![Capability::SclOpenDrain],
            Step::ConfigureSda => set![Capability::SdaOpenDrain],
            Step::FreezeClocks => set![Capability::Clocks],
            Step::ConstructBus => set![Capability::Bus],
            Step::ConstructTimingSource => set![Capability::TimingSource],
            Step::AnnounceSensor => set![],
            Step::ConstructSensor => set![Capability::Sensor],
        }
    }

    /// The capability that the step is about: the one it sets out to obtain,
    /// or, for a line of text, the console it is written to. It is what is
    /// reported missing when the step fails.
    pub open spec fn subject_of(self) -> Capability {
        match self {
            Step::OpenConsole => Capability::Console,
            Step::AnnounceStart => Capability::Console,
            Step::AnnouncePeripherals => Capability::Console,
            Step::AcquireCore => Capability::CorePeripherals,
            Step::AcquireChip => Capability::ChipPeripherals,
            Step::ConstrainClockControl => Capability::ClockSetup,
            Step::ConstrainAlternateFunctionIo => Capability::AlternateFunctionMap,
            Step::ConstrainFlashControl => Capability::FlashControl,
            Step::SplitPort => Capability::PortConfig,
            Step::ConfigureScl => Capability::SclOpenDrain,
            Step::ConfigureSda => Capability::SdaOpenDrain,
            Step::FreezeClocks => Capability::Clocks,
            Step::ConstructBus => Capability::Bus,
            Step::ConstructTimingSource => Capability::TimingSource,
            Step::AnnounceSensor => Capability::Console,
            Step::ConstructSensor => Capability::Sensor,
        }
    }

    /// The line that the step writes to the console, if it writes one.
    pub open spec fn line_of(self) -> Option<Seq<char>> {
        match self {
            Step::AnnounceStart => Some("Hello, world!"@),
            Step::AnnouncePeripherals => Some("Initializing peripherals..."@),
            Step::AnnounceSensor => Some("Initializing SGP30 sensor..."@),
            _ => None,
        }
    }

    /// Whether the step can run with `held` in hand: all it needs is there,
    /// and nothing it would bring into being exists already.
    pub open spec fn enabled(self, held: Set<Capability>) -> bool {
        &&& self.needs_of().subset_of(held)
        &&& self.produces_of().disjoint(held)
    }

    /// What is in hand after the step has run with `held` in hand.
    pub open spec fn effect(self, held: Set<Capability>) -> Set<Capability> {
        held.difference(self.consumes_of()).union(self.produces_of())
    }

    /// The step at place `index` of the order, counted from zero; `None`
    /// past the last one.
    pub fn at(index: usize) -> (step: Option<Step>)
        ensures
            step == if index < STEP_COUNT {
                Some(chain()[index as int])
            } else {
                None
            },
    {
        match index {
            0 => Some(Step::OpenConsole),
            1 => Some(Step::AnnounceStart),
            2 => Some(Step::AnnouncePeripherals),
            3 => Some(Step::AcquireCore),
            4 => Some(Step::AcquireChip),
            5 => Some(Step::ConstrainClockControl),
            6 => Some(Step::ConstrainAlternateFunctionIo),
            7 => Some(Step::ConstrainFlashControl),
            8 => Some(Step::SplitPort),
            9 => Some(Step::ConfigureScl),
            10 => Some(Step::ConfigureSda),
            11 => Some(Step::FreezeClocks),
            12 => Some(Step::ConstructBus),
            13 => Some(Step::ConstructTimingSource),
            14 => Some(Step::AnnounceSensor),
            15 => Some(Step::ConstructSensor),
            _ => None,
        }
    }

    /// What must be in hand for the step to run.
    pub fn needs(self) -> (set: CapabilitySet)
        ensures
            set@ == self.needs_of(),
    {
        let none = CapabilitySet::empty();
        match self {
            Step::OpenConsole | Step::AcquireCore | Step::AcquireChip => none,
            Step::AnnounceStart | Step::AnnouncePeripherals | Step::AnnounceSensor => none.with(
                Capability::Console,
            ),
            Step::ConstrainClockControl => none.with(Capability::ClockRegisters),
            Step::ConstrainAlternateFunctionIo => none.with(
                Capability::AlternateFunctionRegisters,
            ).with(Capability::BusClockGate),
            Step::ConstrainFlashControl => none.with(Capability::FlashRegisters),
            Step::SplitPort => none.with(Capability::PortRegisters).with(
                Capability::BusClockGate,
            ),
            Step::ConfigureScl => none.with(Capability::SclInput).with(Capability::PortConfig),
            Step::ConfigureSda => none.with(Capability::SdaInput).with(Capability::PortConfig),
            Step::FreezeClocks => none.with(Capability::ClockSetup).with(
                Capability::FlashControl,
            ),
            Step::ConstructBus => none.with(Capability::BusRegisters).with(
                Capability::SclOpenDrain,
            ).with(Capability::SdaOpenDrain).with(Capability::AlternateFunctionMap).with(
                Capability::Clocks,
            ).with(Capability::BusClockGate),
            Step::ConstructTimingSource => none.with(Capability::SystemTick).with(
                Capability::Clocks,
            ),
            Step::ConstructSensor => none.with(Capability::Bus).with(Capability::TimingSource),
        }
    }

    /// What the step uses up.
    pub fn consumes(self) -> (set: CapabilitySet)
        ensures
            set@ == self.consumes_of(),
    {
        let none = CapabilitySet::empty();
        match self {
            Step::ConstrainClockControl => none.with(Capability::ClockRegisters),
            Step::ConstrainAlternateFunctionIo => none.with(
                Capability::AlternateFunctionRegisters,
            ),
            Step::ConstrainFlashControl => none.with(Capability::FlashRegisters),
            Step::SplitPort => none.with(Capability::PortRegisters),
            Step::ConfigureScl => none.with(Capability::SclInput),
            Step::ConfigureSda => none.with(Capability::SdaInput),
            Step::FreezeClocks => none.with(Capability::ClockSetup).with(
                Capability::FlashControl,
            ),
            Step::ConstructBus => none.with(Capability::BusRegisters).with(
                Capability::SclOpenDrain,
            ).with(Capability::SdaOpenDrain),
            Step::ConstructTimingSource => none.with(Capability::SystemTick),
            Step::ConstructSensor => none.with(Capability::Bus).with(Capability::TimingSource),
            _ => none,
        }
    }

    /// What the step brings into being.
    pub fn produces(self) -> (set: CapabilitySet)
        ensures
            set@ == self.produces_of(),
    {
        let none = CapabilitySet::empty();
        match self {
            Step::OpenConsole => none.with(Capability::Console),
            Step::AnnounceStart | Step::AnnouncePeripherals | Step::AnnounceSensor => none,
            Step::AcquireCore => none.with(Capability::CorePeripherals).with(
                Capability::SystemTick,
            ),
            Step::AcquireChip => none.with(Capability::ChipPeripherals).with(
                Capability::ClockRegisters,
            ).with(Capability::AlternateFunctionRegisters).with(Capability::FlashRegisters).with(
                Capability::PortRegisters,
            ).with(Capability::BusRegisters),
            Step::ConstrainClockControl => none.with(Capability::ClockSetup).with(
                Capability::BusClockGate,
            ),
            Step::ConstrainAlternateFunctionIo => none.with(Capability::AlternateFunctionMap),
            Step::ConstrainFlashControl => none.with(Capability::FlashControl),
            Step::SplitPort => none.with(Capability::PortConfig).with(Capability::SclInput).with(
                Capability::SdaInput,
            ),
            Step::ConfigureScl => none.with(Capability::SclOpenDrain),
            Step::ConfigureSda => none.with(Capability::SdaOpenDrain),
            Step::FreezeClocks => none.with(Capability::Clocks),
            Step::ConstructBus => none.with(Capability::Bus),
            Step::ConstructTimingSource => none.with(Capability::TimingSource),
            Step::ConstructSensor => none.with(Capability::Sensor),
        }
    }

    /// Whether the step can run with `held` in hand.
    pub fn can_run(self, held: CapabilitySet) -> (enabled: bool)
        ensures
            enabled == self.enabled(held@),
    {
        held.contains_all(self.needs()) && self.produces().is_disjoint(held)
    }

    /// The capability that the step is about.
    pub fn subject(self) -> (capability: Capability)
        ensures
            capability == self.subject_of(),
    {
        match self {
            Step::OpenConsole | Step::AnnounceStart | Step::AnnouncePeripherals
            | Step::AnnounceSensor => Capability::Console,
            Step::AcquireCore => Capability::CorePeripherals,
            Step::AcquireChip => Capability::ChipPeripherals,
            Step::ConstrainClockControl => Capability::ClockSetup,
            Step::ConstrainAlternateFunctionIo => Capability::AlternateFunctionMap,
            Step::ConstrainFlashControl => Capability::FlashControl,
            Step::SplitPort => Capability::PortConfig,
            Step::ConfigureScl => Capability::SclOpenDrain,
            Step::ConfigureSda => Capability::SdaOpenDrain,
            Step::FreezeClocks => Capability::Clocks,
            Step::ConstructBus => Capability::Bus,
            Step::ConstructTimingSource => Capability::TimingSource,
            Step::ConstructSensor => Capability::Sensor,
        }
    }

    /// The line that the step writes to the console, if it writes one.
    pub fn line(self) -> (text: Option<&'static str>)
        ensures
            match text {
                Some(line) => self.line_of() == Some(line@),
                None => self.line_of() is None,
            },
    {
        match self {
            Step::AnnounceStart => Some("Hello, world!"),
            Step::AnnouncePeripherals => Some("Initializing peripherals..."),
            Step::AnnounceSensor => Some("Initializing SGP30 sensor..."),
            _ => None,
        }
    }
}

/// The step that brings `capability` into being.
pub open spec fn source_of(capability: Capability) -> Step {
    match capability {
        Capability::Console => Step::OpenConsole,
        Capability::CorePeripherals => Step::AcquireCore,
        Capability::SystemTick => Step::AcquireCore,
        Capability::ChipPeripherals => Step::AcquireChip,
        Capability::ClockRegisters => Step::AcquireChip,
        Capability::AlternateFunctionRegisters => Step::AcquireChip,
        Capability::FlashRegisters => Step::AcquireChip,
        Capability::PortRegisters => Step::AcquireChip,
        Capability::BusRegisters => Step::AcquireChip,
        Capability::ClockSetup => Step::ConstrainClockControl,
        Capability::BusClockGate => Step::ConstrainClockControl,
        Capability::AlternateFunctionMap => Step::ConstrainAlternateFunctionIo,
        Capability::FlashControl => Step::ConstrainFlashControl,
        Capability::PortConfig => Step::SplitPort,
        Capability::SclInput => Step::SplitPort,
        Capability::SdaInput => Step::SplitPort,
        Capability::SclOpenDrain => Step::ConfigureScl,
        Capability::SdaOpenDrain => Step::ConfigureSda,
        Capability::Clocks => Step::FreezeClocks,
        Capability::Bus => Step::ConstructBus,
        Capability::TimingSource => Step::ConstructTimingSource,
        Capability::Sensor => Step::ConstructSensor,
    }
}

/// The step that uses `capability` up, if any does.
pub open spec fn sink_of(capability: Capability) -> Option<Step> {
    match capability {
        Capability::SystemTick => Some(Step::ConstructTimingSource),
        Capability::ClockRegisters => Some(Step::ConstrainClockControl),
        Capability::AlternateFunctionRegisters => Some(Step::ConstrainAlternateFunctionIo),
        Capability::FlashRegisters => Some(Step::ConstrainFlashControl),
        Capability::PortRegisters => Some(Step::SplitPort),
        Capability::BusRegisters => Some(Step::ConstructBus),
        Capability::ClockSetup => Some(Step::FreezeClocks),
        Capability::FlashControl => Some(Step::FreezeClocks),
        Capability::SclInput => Some(Step::ConfigureScl),
        Capability::SdaInput => Some(Step::ConfigureSda),
        Capability::SclOpenDrain => Some(Step::ConstructBus),
        Capability::SdaOpenDrain => Some(Step::ConstructBus),
        Capability::Bus => Some(Step::ConstructSensor),
        Capability::TimingSource => Some(Step::ConstructSensor),
        _ => None,
    }
}

/// Every step has exactly one place in the order: the order holds each step
/// once, at its position.
pub proof fn lemma_order_holds_each_step_once()
    ensures
        chain().len() == STEP_COUNT,
        forall|step: Step| step.position() < STEP_COUNT && chain()[step.position() as int] == step,
        forall|place: int|
            0 <= place < STEP_COUNT ==> (#[trigger] chain()[place]).position() == place,
{
    assert forall|place: int| 0 <= place < STEP_COUNT implies (#[trigger] chain()[place]).position()
        == place by {
        if place < 4 {
            assert(place == 0 || place == 1 || place == 2 || place == 3);
        } else if place < 8 {
            assert(place == 4 || place == 5 || place == 6 || place == 7);
        } else if place < 12 {
            assert(place == 8 || place == 9 || place == 10 || place == 11);
        } else {
            assert(place == 12 || place == 13 || place == 14 || place == 15);
        }
    }
}

/// Handles are linear. Each capability is brought into being by exactly one
/// step, its source, and used up by at most one, its sink. The sink needs
/// it, and comes later in the order than the source.
pub proof fn lemma_one_source_one_sink(capability: Capability, step: Step)
    ensures
        step.produces_of().contains(capability) <==> step == source_of(capability),
        step.consumes_of().contains(capability) <==> sink_of(capability) == Some(step),
        step.consumes_of().subset_of(step.needs_of()),
        sink_of(capability) matches Some(sink) ==> source_of(capability).position()
            < sink.position(),
{
}

} // verus!
