use stemma_soil_sensor::BusError;
use stemma_soil_sensor::ScriptedTransport;
use stemma_soil_sensor::SoilSensErr;
use stemma_soil_sensor::SoilSensor;
use stemma_soil_sensor::StubDelay;

fn sensor_with_reads(
    reads: Vec<Result<Vec<u8>, BusError>>,
) -> SoilSensor<ScriptedTransport, StubDelay> {
    let mut script = vec![Ok(vec![0x55])];
    script.extend(reads);
    let writes = vec![None; script.len()];
    let t = ScriptedTransport::new(vec![None], writes, script);
    SoilSensor::init(StubDelay::new(), t).unwrap_or_else(|_| panic!("discovery failed"))
}

#[test]
fn temperature_exact_value() {
    let mut sensor = sensor_with_reads(vec![Ok(vec![0x00, 0x0C, 0x80, 0x00])]);
    let raw = match sensor.get_temp_raw() {
        Ok(v) => v,
        Err(_) => panic!("temperature read failed"),
    };
    assert_eq!(raw, 819200);
    let celsius = (1.0 / (1u32 << 16) as f32) * raw as f32;
    assert_eq!(celsius, 12.5);
}

#[test]
fn temperature_negative_value() {
    let mut sensor = sensor_with_reads(vec![Ok(vec![0xFF, 0xF3, 0x80, 0x00])]);
    let raw = match sensor.get_temp_raw() {
        Ok(v) => v,
        Err(_) => panic!("temperature read failed"),
    };
    assert_eq!(raw, -819200);
    let celsius = (1.0 / (1u32 << 16) as f32) * raw as f32;
    assert_eq!(celsius, -12.5);
}

#[test]
fn temperature_fails_immediately_without_retry() {
    // One bus fault, then a perfectly good reply: the temperature reader
    // must surface the fault and never touch the second reply.
    let mut sensor = sensor_with_reads(vec![
        Err(BusError::Fault),
        Ok(vec![0x00, 0x0C, 0x80, 0x00]),
    ]);
    let first = sensor.get_temp_raw();
    assert!(matches!(first, Err(SoilSensErr::I2C(BusError::Fault))));
    let second = sensor.get_temp_raw();
    assert!(matches!(second, Ok(819200)));
}

#[test]
fn capacitance_returns_first_ready_value() {
    let mut sensor = sensor_with_reads(vec![Ok(vec![0x01, 0x2C])]);
    assert!(matches!(sensor.get_capacitance(), Ok(300)));
}

#[test]
fn capacitance_filters_sentinel_then_succeeds() {
    // Not ready on attempts 1 and 2, then 0x02BC (700) on attempt 3.
    let mut sensor = sensor_with_reads(vec![
        Ok(vec![0xFF, 0xFF]),
        Ok(vec![0xFF, 0xFF]),
        Ok(vec![0x02, 0xBC]),
        Ok(vec![0x00, 0x63]),
    ]);
    assert!(matches!(sensor.get_capacitance(), Ok(700)));
    // The fourth reply was not consumed: a later call sees it first.
    assert!(matches!(sensor.get_capacitance(), Ok(99)));
}

#[test]
fn capacitance_sentinel_exhausts_three_attempts() {
    // Not ready on three attempts: the read fails, and the fourth scripted
    // reply is untouched, so exactly three reads were issued.
    let mut sensor = sensor_with_reads(vec![
        Ok(vec![0xFF, 0xFF]),
        Ok(vec![0xFF, 0xFF]),
        Ok(vec![0xFF, 0xFF]),
        Ok(vec![0x02, 0xBC]),
    ]);
    assert!(matches!(
        sensor.get_capacitance(),
        Err(SoilSensErr::MoistureReadErr)
    ));
    // The sensor stays usable and the fourth reply is still first in line.
    assert!(matches!(sensor.get_capacitance(), Ok(700)));
}

#[test]
fn capacitance_retries_three_times_on_bus_errors() {
    let mut sensor = sensor_with_reads(vec![
        Err(BusError::Fault),
        Err(BusError::Fault),
        Err(BusError::Fault),
        Ok(vec![0x02, 0xBC]),
    ]);
    assert!(matches!(
        sensor.get_capacitance(),
        Err(SoilSensErr::MoistureReadErr)
    ));
    assert!(matches!(sensor.get_capacitance(), Ok(700)));
}

#[test]
fn capacitance_mixes_errors_and_sentinels() {
    let mut sensor = sensor_with_reads(vec![
        Err(BusError::Fault),
        Ok(vec![0xFF, 0xFF]),
        Ok(vec![0x01, 0x2C]),
    ]);
    assert!(matches!(sensor.get_capacitance(), Ok(300)));
}

#[test]
fn repeated_reads_identical_on_deterministic_replies() {
    // A transport that answers every repetition the same way yields the
    // same readings each time.
    let mut sensor = sensor_with_reads(vec![
        Ok(vec![0x00, 0x0C, 0x80, 0x00]),
        Ok(vec![0x00, 0x0C, 0x80, 0x00]),
        Ok(vec![0x01, 0x2C]),
        Ok(vec![0x01, 0x2C]),
    ]);
    let t1 = match sensor.get_temp_raw() {
        Ok(v) => v,
        Err(_) => panic!("temperature read failed"),
    };
    let t2 = match sensor.get_temp_raw() {
        Ok(v) => v,
        Err(_) => panic!("temperature read failed"),
    };
    assert_eq!(t1, t2);
    let c1 = match sensor.get_capacitance() {
        Ok(v) => v,
        Err(_) => panic!("capacitance read failed"),
    };
    let c2 = match sensor.get_capacitance() {
        Ok(v) => v,
        Err(_) => panic!("capacitance read failed"),
    };
    assert_eq!(c1, c2);
}
