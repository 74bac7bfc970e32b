use stemma_soil_sensor::BusError;
use stemma_soil_sensor::ScriptedTransport;
use stemma_soil_sensor::SoilSensErr;
use stemma_soil_sensor::SoilSensor;
use stemma_soil_sensor::StubDelay;
use stemma_soil_sensor::channel_init;

#[test]
fn discovery_first_candidate_binds_and_stops() {
    let mut t = ScriptedTransport::new(vec![None], vec![None], vec![Ok(vec![0x55])]);
    let mut d = StubDelay::new();
    let r = SoilSensor::scan(&mut d, &mut t);
    assert!(matches!(r, Ok(0x36)));
    assert_eq!(t.addr_calls(), 1);
    assert_eq!(t.write_calls(), 1);
    assert_eq!(t.read_calls(), 1);
    assert_eq!(d.calls(), 1);
}

#[test]
fn discovery_scans_ascending_until_match() {
    let mut t = ScriptedTransport::new(
        vec![None, None, None],
        vec![None, None, None],
        vec![Ok(vec![0x00]), Ok(vec![0x12]), Ok(vec![0x55])],
    );
    let mut d = StubDelay::new();
    let r = SoilSensor::scan(&mut d, &mut t);
    assert!(matches!(r, Ok(0x38)));
    assert_eq!(t.addr_calls(), 3);
    assert_eq!(t.write_calls(), 3);
    assert_eq!(t.read_calls(), 3);
}

#[test]
fn discovery_exhausts_all_candidates() {
    let mut t = ScriptedTransport::new(
        vec![None, None, None, None],
        vec![None, None, None, None],
        vec![Ok(vec![0xAA]), Ok(vec![0xAA]), Ok(vec![0xAA]), Ok(vec![0xAA])],
    );
    let mut d = StubDelay::new();
    let r = SoilSensor::scan(&mut d, &mut t);
    assert!(matches!(r, Err(SoilSensErr::HwNotFound)));
    assert_eq!(t.addr_calls(), 4);
    assert_eq!(t.write_calls(), 4);
    assert_eq!(t.read_calls(), 4);
    assert_eq!(d.calls(), 4);
}

#[test]
fn discovery_skips_rejected_addresses() {
    let mut t = ScriptedTransport::new(
        vec![Some(BusError::InvalidAddress(0x36)), None, None, None],
        vec![None, None, None],
        vec![Ok(vec![0x00]), Ok(vec![0x01]), Ok(vec![0x02])],
    );
    let mut d = StubDelay::new();
    let r = SoilSensor::scan(&mut d, &mut t);
    assert!(matches!(r, Err(SoilSensErr::HwNotFound)));
    assert_eq!(t.addr_calls(), 4);
    // The rejected candidate is never probed on the bus.
    assert_eq!(t.write_calls(), 3);
    assert_eq!(t.read_calls(), 3);
}

#[test]
fn discovery_continues_after_bus_fault() {
    let mut t = ScriptedTransport::new(
        vec![None, None],
        vec![None, None],
        vec![Err(BusError::Fault), Ok(vec![0x55])],
    );
    let mut d = StubDelay::new();
    let r = SoilSensor::scan(&mut d, &mut t);
    assert!(matches!(r, Ok(0x37)));
    assert_eq!(t.read_calls(), 2);
}

#[test]
fn init_returns_bound_sensor() {
    let t = ScriptedTransport::new(
        vec![None],
        vec![None, None],
        vec![Ok(vec![0x55]), Ok(vec![0x00, 0x0C, 0x80, 0x00])],
    );
    let d = StubDelay::new();
    let mut sensor = SoilSensor::init(d, t).unwrap_or_else(|_| panic!("discovery failed"));
    // The next scripted reply belongs to the first reading: discovery took
    // exactly one probe off the script.
    let temp = sensor.get_temp_raw();
    assert!(matches!(temp, Ok(819200)));
}

#[test]
fn init_fails_hw_not_found() {
    let t = ScriptedTransport::new(
        vec![None, None, None, None],
        vec![None, None, None, None],
        vec![Ok(vec![0xAA]), Ok(vec![0xAA]), Ok(vec![0xAA]), Ok(vec![0xAA])],
    );
    let d = StubDelay::new();
    let r = SoilSensor::init(d, t);
    assert!(matches!(r, Err(SoilSensErr::HwNotFound)));
}

#[test]
fn channel_init_accepts_matching_id() {
    let mut t = ScriptedTransport::new(vec![], vec![None], vec![Ok(vec![0x55])]);
    let mut d = StubDelay::new();
    let r = channel_init(&mut d, &mut t);
    assert!(matches!(r, Ok(())));
    assert_eq!(t.addr_calls(), 0);
    assert_eq!(t.write_calls(), 1);
    assert_eq!(t.read_calls(), 1);
}

#[test]
fn channel_init_detects_mismatch() {
    let mut t = ScriptedTransport::new(vec![], vec![None], vec![Ok(vec![0xAA])]);
    let mut d = StubDelay::new();
    let r = channel_init(&mut d, &mut t);
    assert!(matches!(r, Err(SoilSensErr::HardwareMismatch(0x55, 0xAA))));
}

#[test]
fn channel_init_classifies_invalid_address() {
    let mut t = ScriptedTransport::new(
        vec![],
        vec![Some(BusError::InvalidAddress(0x40))],
        vec![],
    );
    let mut d = StubDelay::new();
    let r = channel_init(&mut d, &mut t);
    assert!(matches!(r, Err(SoilSensErr::InvalidSlaveAddress(0x40))));
    // The selector write failed, so no read and no settle delay happened.
    assert_eq!(t.read_calls(), 0);
    assert_eq!(d.calls(), 0);
}

#[test]
fn channel_init_propagates_bus_fault() {
    let mut t = ScriptedTransport::new(vec![], vec![None], vec![Err(BusError::Fault)]);
    let mut d = StubDelay::new();
    let r = channel_init(&mut d, &mut t);
    assert!(matches!(r, Err(SoilSensErr::I2C(BusError::Fault))));
}

#[test]
fn init_with_channel_checks_identity_only() {
    let t = ScriptedTransport::new(vec![], vec![None, None], vec![
        Ok(vec![0x55]),
        Ok(vec![0x01, 0x2C]),
    ]);
    let d = StubDelay::new();
    let mut sensor =
        SoilSensor::init_with_channel(d, t).unwrap_or_else(|_| panic!("identity check failed"));
    let cap = sensor.get_capacitance();
    assert!(matches!(cap, Ok(300)));
}

#[test]
fn init_with_channel_surfaces_mismatch() {
    let t = ScriptedTransport::new(vec![], vec![None], vec![Ok(vec![0x13])]);
    let d = StubDelay::new();
    let r = SoilSensor::init_with_channel(d, t);
    assert!(matches!(r, Err(SoilSensErr::HardwareMismatch(0x55, 0x13))));
}
