use sgp30_bringup::capability::Capability::{
    AlternateFunctionMap, AlternateFunctionRegisters, Bus, BusClockGate, BusRegisters, ChipPeripherals,
    ClockRegisters, ClockSetup, Clocks, Console, CorePeripherals, FlashControl, FlashRegisters,
    PortConfig, PortRegisters, SclInput, SclOpenDrain, SdaInput, SdaOpenDrain, Sensor, SystemTick,
    TimingSource,
};
use sgp30_bringup::capability::{Capability, CapabilitySet};
use sgp30_bringup::step::{Step, STEP_COUNT};

const ORDER: [Step; 16] = [
    Step::OpenConsole,
    Step::AnnounceStart,
    Step::AnnouncePeripherals,
    Step::AcquireCore,
    Step::AcquireChip,
    Step::ConstrainClockControl,
    Step::ConstrainAlternateFunctionIo,
    Step::ConstrainFlashControl,
    Step::SplitPort,
    Step::ConfigureScl,
    Step::ConfigureSda,
    Step::FreezeClocks,
    Step::ConstructBus,
    Step::ConstructTimingSource,
    Step::AnnounceSensor,
    Step::ConstructSensor,
];

fn set(capabilities: &[Capability]) -> CapabilitySet {
    let mut set = CapabilitySet::empty();
    for capability in capabilities {
        set = set.with(*capability);
    }
    set
}

#[test]
fn order_has_sixteen_steps() {
    assert_eq!(STEP_COUNT, 16);
    for (index, step) in ORDER.iter().enumerate() {
        assert_eq!(Step::at(index), Some(*step));
    }
    assert_eq!(Step::at(16), None);
    assert_eq!(Step::at(usize::MAX), None);
}

#[test]
fn console_lines() {
    assert_eq!(Step::AnnounceStart.line(), Some("Hello, world!"));
    assert_eq!(Step::AnnouncePeripherals.line(), Some("Initializing peripherals..."));
    assert_eq!(Step::AnnounceSensor.line(), Some("Initializing SGP30 sensor..."));
    let writers = ORDER.iter().filter(|step| step.line().is_some()).count();
    assert_eq!(writers, 3);
    assert_eq!(Step::OpenConsole.line(), None);
    assert_eq!(Step::ConstructSensor.line(), None);
}

#[test]
fn what_each_step_is_about() {
    let subjects = [
        Console,
        Console,
        Console,
        CorePeripherals,
        ChipPeripherals,
        ClockSetup,
        AlternateFunctionMap,
        FlashControl,
        PortConfig,
        SclOpenDrain,
        SdaOpenDrain,
        Clocks,
        Bus,
        TimingSource,
        Console,
        Sensor,
    ];
    for (step, subject) in ORDER.iter().zip(subjects) {
        assert_eq!(step.subject(), subject, "{:?}", step);
    }
}

#[test]
fn what_each_step_needs() {
    let needs: [&[Capability]; 16] = [
        &[],
        &[Console],
        &[Console],
        &[],
        &[],
        &[ClockRegisters],
        &[AlternateFunctionRegisters, BusClockGate],
        &[FlashRegisters],
        &[PortRegisters, BusClockGate],
        &[SclInput, PortConfig],
        &[SdaInput, PortConfig],
        &[ClockSetup, FlashControl],
        &[BusRegisters, SclOpenDrain, SdaOpenDrain, AlternateFunctionMap, Clocks, BusClockGate],
        &[SystemTick, Clocks],
        &[Console],
        &[Bus, TimingSource],
    ];
    for (step, expected) in ORDER.iter().zip(needs) {
        assert_eq!(step.needs(), set(expected), "{:?}", step);
    }
}

#[test]
fn what_each_step_uses_up() {
    let consumes: [&[Capability]; 16] = [
        &[],
        &[],
        &[],
        &[],
        &[],
        &[ClockRegisters],
        &[AlternateFunctionRegisters],
        &[FlashRegisters],
        &[PortRegisters],
        &[SclInput],
        &[SdaInput],
        &[ClockSetup, FlashControl],
        &[BusRegisters, SclOpenDrain, SdaOpenDrain],
        &[SystemTick],
        &[],
        &[Bus, TimingSource],
    ];
    for (step, expected) in ORDER.iter().zip(consumes) {
        assert_eq!(step.consumes(), set(expected), "{:?}", step);
        assert!(step.needs().contains_all(step.consumes()));
    }
}

#[test]
fn what_each_step_brings_into_being() {
    let produces: [&[Capability]; 16] = [
        &[Console],
        &[],
        &[],
        &[CorePeripherals, SystemTick],
        &[
            ChipPeripherals,
            ClockRegisters,
            AlternateFunctionRegisters,
            FlashRegisters,
            PortRegisters,
            BusRegisters,
        ],
        &[ClockSetup, BusClockGate],
        &[AlternateFunctionMap],
        &[FlashControl],
        &[PortConfig, SclInput, SdaInput],
        &[SclOpenDrain],
        &[SdaOpenDrain],
        &[Clocks],
        &[Bus],
        &[TimingSource],
        &[],
        &[Sensor],
    ];
    for (step, expected) in ORDER.iter().zip(produces) {
        assert_eq!(step.produces(), set(expected), "{:?}", step);
    }
}

#[test]
fn can_run_wants_all_needs_and_no_duplicate() {
    let step = Step::ConfigureScl;
    assert!(step.can_run(set(&[SclInput, PortConfig])));
    assert!(step.can_run(set(&[SclInput, PortConfig, Console, Clocks])));
    assert!(!step.can_run(set(&[SclInput])));
    assert!(!step.can_run(set(&[PortConfig])));
    assert!(!step.can_run(set(&[])));
    assert!(!step.can_run(set(&[SclInput, PortConfig, SclOpenDrain])));
    assert!(Step::OpenConsole.can_run(set(&[])));
    assert!(!Step::OpenConsole.can_run(set(&[Console])));
    assert!(Step::AnnounceStart.can_run(set(&[Console])));
    assert!(!Step::AnnounceStart.can_run(set(&[])));
}

#[test]
fn sensor_takes_over_bus_and_timing_source() {
    let step = Step::ConstructSensor;
    assert_eq!(step.consumes(), set(&[Bus, TimingSource]));
    assert_eq!(step.produces(), set(&[Sensor]));
    assert!(step.can_run(set(&[Bus, TimingSource])));
    assert!(!step.can_run(set(&[Bus])));
    assert!(!step.can_run(set(&[TimingSource])));
}
