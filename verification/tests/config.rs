use sgp30_bringup::config::{
    bus_mode, BusMode, BUS_FREQUENCY_HZ, BUS_PORT, SCL_PIN, SDA_PIN, SENSOR_ADDRESS,
};

#[test]
fn sensor_address() {
    assert_eq!(SENSOR_ADDRESS, 0x58);
}

#[test]
fn bus_runs_in_standard_mode_at_100_khz() {
    assert_eq!(BUS_FREQUENCY_HZ, 100_000);
    assert_eq!(bus_mode(), BusMode::Standard { frequency: 100_000 });
    assert_eq!(bus_mode().frequency(), 100_000);
}

#[test]
fn frequency_of_either_mode() {
    assert_eq!(BusMode::Standard { frequency: 10_000 }.frequency(), 10_000);
    assert_eq!(BusMode::Fast { frequency: 400_000 }.frequency(), 400_000);
}

#[test]
fn bus_pins() {
    assert_eq!((BUS_PORT, SCL_PIN), ('B', 8));
    assert_eq!((BUS_PORT, SDA_PIN), ('B', 9));
}
