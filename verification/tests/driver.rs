use tsl2591::BusError;
use tsl2591::Gain;
use tsl2591::IntegrationTime;
use tsl2591::MockBus;
use tsl2591::ReadError;
use tsl2591::Transport;
use tsl2591::Tsl2591;
use tsl2591::driver::InitError;
use tsl2591::driver::check_identity;
use tsl2591::registers::COMMAND_BIT;
use tsl2591::registers::DEVICE_ID;
use tsl2591::registers::ENABLE_AEN;
use tsl2591::registers::ENABLE_AIEN;
use tsl2591::registers::ENABLE_ALL;
use tsl2591::registers::ENABLE_NPIEN;
use tsl2591::registers::POWER_OFF;
use tsl2591::registers::POWER_ON;
use tsl2591::registers::REGISTER_CHAN0_LOW;
use tsl2591::registers::REGISTER_CHAN1_LOW;
use tsl2591::registers::REGISTER_CONTROL;
use tsl2591::registers::REGISTER_DEVICE_ID;
use tsl2591::registers::REGISTER_ENABLE;
use tsl2591::registers::command;

fn bus_with_identity() -> MockBus {
    let mut bus = MockBus::new();
    bus.write_byte_register(command(REGISTER_DEVICE_ID), DEVICE_ID)
        .unwrap();
    bus
}

fn fresh_driver() -> Tsl2591<MockBus> {
    Tsl2591::new(bus_with_identity()).unwrap()
}

fn all_integrations() -> [IntegrationTime; 6] {
    [
        IntegrationTime::IT100MS,
        IntegrationTime::IT200MS,
        IntegrationTime::IT300MS,
        IntegrationTime::IT400MS,
        IntegrationTime::IT500MS,
        IntegrationTime::IT600MS,
    ]
}

fn all_gains() -> [Gain; 4] {
    [Gain::LOW, Gain::MEDIUM, Gain::GHIGH, Gain::MAX]
}

#[test]
fn new_defaults_and_powers_down() {
    let driver = fresh_driver();
    assert!(!driver.is_enabled());
    assert_eq!(driver.integration(), IntegrationTime::IT100MS);
    assert_eq!(driver.gain(), Gain::MEDIUM);
    let log = driver.bus().written();
    assert_eq!(
        log.last().copied(),
        Some((COMMAND_BIT | REGISTER_ENABLE, POWER_OFF))
    );
}

#[test]
fn identity_decision_accepts_only_signature() {
    assert_eq!(check_identity(DEVICE_ID), Ok(()));
    assert_eq!(check_identity(0x00), Err(InitError::DeviceNotFound));
    assert_eq!(check_identity(0x12), Err(InitError::DeviceNotFound));
    assert_eq!(check_identity(0x51), Err(InitError::DeviceNotFound));
}

#[test]
fn new_rejects_wrong_identity() {
    let mut bus = MockBus::new();
    bus.write_byte_register(command(REGISTER_DEVICE_ID), 0x12)
        .unwrap();
    match Tsl2591::new(bus) {
        Err(e) => assert_eq!(e, InitError::DeviceNotFound),
        Ok(_) => panic!("construction should have failed"),
    }
}

#[test]
fn new_rejects_failed_identity_read() {
    let mut bus = bus_with_identity();
    bus.set_fail(true);
    match Tsl2591::new(bus) {
        Err(e) => assert_eq!(e, InitError::DeviceNotFound),
        Ok(_) => panic!("construction should have failed"),
    }
}

#[test]
fn new_surfaces_failed_power_down() {
    let mut bus = bus_with_identity();
    bus.set_fail_writes(true);
    match Tsl2591::new(bus) {
        Err(e) => assert_eq!(e, InitError::Bus),
        Ok(_) => panic!("construction should have failed"),
    }
}

#[test]
fn configure_writes_combined_code_for_all_settings() {
    for integration in all_integrations() {
        for gain in all_gains() {
            let mut driver = fresh_driver();
            driver.set_timing_gain(integration, gain).unwrap();
            let control = driver.bus().register(command(REGISTER_CONTROL));
            assert_eq!(control, integration.code() | gain.code());
            assert_eq!(driver.integration(), integration);
            assert_eq!(driver.gain(), gain);
        }
    }
}

#[test]
fn integration_and_gain_codes() {
    let codes: Vec<u8> = all_integrations().iter().map(|t| t.code()).collect();
    assert_eq!(codes, vec![0x00, 0x01, 0x02, 0x03, 0x04, 0x05]);
    let codes: Vec<u8> = all_gains().iter().map(|g| g.code()).collect();
    assert_eq!(codes, vec![0x00, 0x10, 0x20, 0x30]);
}

#[test]
fn enable_writes_all_flags() {
    assert_eq!(POWER_ON | ENABLE_AEN | ENABLE_AIEN | ENABLE_NPIEN, 0x93);
    assert_eq!(ENABLE_ALL, 0x93);
    let mut driver = fresh_driver();
    driver.enable().unwrap();
    assert!(driver.is_enabled());
    let log = driver.bus().written();
    assert_eq!(
        log.last().copied(),
        Some((COMMAND_BIT | REGISTER_ENABLE, 0x93))
    );
}

#[test]
fn disable_writes_zero() {
    let mut driver = fresh_driver();
    driver.enable().unwrap();
    driver.disable().unwrap();
    assert!(!driver.is_enabled());
    let log = driver.bus().written();
    assert_eq!(log.last().copied(), Some((COMMAND_BIT | REGISTER_ENABLE, 0x00)));
}

#[test]
fn enable_disable_idempotent() {
    let mut driver = fresh_driver();
    driver.enable().unwrap();
    let after_first = driver.bus().written().len();
    driver.enable().unwrap();
    assert!(driver.is_enabled());
    let log = driver.bus().written();
    assert_eq!(log.len(), after_first + 1);
    assert_eq!(log[after_first - 1], log[after_first]);
    assert_eq!(log[after_first], (COMMAND_BIT | REGISTER_ENABLE, ENABLE_ALL));

    driver.disable().unwrap();
    driver.disable().unwrap();
    assert!(!driver.is_enabled());
    let log = driver.bus().written();
    let n = log.len();
    assert_eq!(log[n - 2], log[n - 1]);
    assert_eq!(log[n - 1], (COMMAND_BIT | REGISTER_ENABLE, POWER_OFF));
}

#[test]
fn failed_configure_keeps_state() {
    let mut driver = fresh_driver();
    driver
        .set_timing_gain(IntegrationTime::IT300MS, Gain::GHIGH)
        .unwrap();
    let writes_before = driver.bus().written().clone();
    driver.bus_mut().set_fail_writes(true);
    assert_eq!(
        driver.set_timing_gain(IntegrationTime::IT600MS, Gain::MAX),
        Err(BusError)
    );
    assert_eq!(driver.integration(), IntegrationTime::IT300MS);
    assert_eq!(driver.gain(), Gain::GHIGH);
    assert_eq!(driver.bus().written(), &writes_before);
}

#[test]
fn failed_enable_keeps_state() {
    let mut driver = fresh_driver();
    driver.bus_mut().set_fail(true);
    assert_eq!(driver.enable(), Err(BusError));
    assert!(!driver.is_enabled());
    driver.bus_mut().set_fail(false);
    driver.enable().unwrap();
    driver.bus_mut().set_fail(true);
    assert_eq!(driver.disable(), Err(BusError));
    assert!(driver.is_enabled());
}

#[test]
fn read_raw_reconstructs_channels() {
    let mut bus = bus_with_identity();
    bus.write_byte_register(command(REGISTER_CHAN0_LOW), 0x34).unwrap();
    bus.write_byte_register(command(REGISTER_CHAN0_LOW) + 1, 0x12).unwrap();
    bus.write_byte_register(command(REGISTER_CHAN1_LOW), 0x78).unwrap();
    bus.write_byte_register(command(REGISTER_CHAN1_LOW) + 1, 0x56).unwrap();
    let mut driver = Tsl2591::new(bus).unwrap();
    assert_eq!(driver.get_full_luminosity().unwrap(), (0x1234, 0x5678));
}

#[test]
fn read_computes_lux_from_device_bytes() {
    // ch0 = 430 = 0x01AE, ch1 = 151 = 0x0097.
    let mut bus = bus_with_identity();
    bus.write_byte_register(command(REGISTER_CHAN0_LOW), 0xAE).unwrap();
    bus.write_byte_register(command(REGISTER_CHAN0_LOW) + 1, 0x01).unwrap();
    bus.write_byte_register(command(REGISTER_CHAN1_LOW), 0x97).unwrap();
    bus.write_byte_register(command(REGISTER_CHAN1_LOW) + 1, 0x00).unwrap();
    let mut driver = Tsl2591::new(bus).unwrap();
    let lux = driver.read().unwrap();
    assert_eq!(lux.millilux(), 29_543);
    // Configuration still the default pair the formula used.
    assert_eq!(driver.integration(), IntegrationTime::IT100MS);
    assert_eq!(driver.gain(), Gain::MEDIUM);
}

#[test]
fn read_rejects_saturated_channel() {
    let mut bus = bus_with_identity();
    bus.write_byte_register(command(REGISTER_CHAN0_LOW), 0xFF).unwrap();
    bus.write_byte_register(command(REGISTER_CHAN0_LOW) + 1, 0xFF).unwrap();
    bus.write_byte_register(command(REGISTER_CHAN1_LOW), 0x10).unwrap();
    let mut driver = Tsl2591::new(bus).unwrap();
    assert_eq!(driver.read(), Err(ReadError::Overflow));
}

#[test]
fn read_rejects_zero_channel0() {
    // Registers never written read back zero: raw channels (0, 0).
    let driver = &mut fresh_driver();
    assert_eq!(driver.read(), Err(ReadError::Overflow));
}

#[test]
fn read_surfaces_bus_error() {
    let mut driver = fresh_driver();
    driver.bus_mut().set_fail(true);
    assert_eq!(driver.read(), Err(ReadError::Bus));
}
