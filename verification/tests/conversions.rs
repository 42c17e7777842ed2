use enviromon::sensor::{EnvironmentalData, RawSamples, SensorError, SensorManager, SensorType};

fn manager() -> SensorManager {
    SensorManager::new()
}

#[test]
fn temperature_mid_scale_is_rejected() {
    // raw 512 is half scale: 2.5 V, i.e. 250 degrees — far beyond 125 C.
    let m = manager();
    assert_eq!(m.convert_temperature(512), Err(SensorError::ReadError));
}

#[test]
fn temperature_boundary_code() {
    let m = manager();
    // raw 256 converts to exactly 125.00 C; raw 257 is just beyond it.
    assert_eq!(m.convert_temperature(256), Ok(12500));
    assert_eq!(m.convert_temperature(257), Err(SensorError::ReadError));
}

#[test]
fn temperature_ordinary_codes() {
    let m = manager();
    assert_eq!(m.convert_temperature(0), Ok(0));
    assert_eq!(m.convert_temperature(50), Ok(2441));
    assert_eq!(m.convert_temperature(200), Ok(9765));
}

#[test]
fn humidity_never_fails_in_range() {
    let m = manager();
    assert_eq!(m.convert_humidity(0), Ok(0));
    assert_eq!(m.convert_humidity(512), Ok(5000));
    assert_eq!(m.convert_humidity(1023), Ok(9990));
}

#[test]
fn pressure_window() {
    let m = manager();
    assert_eq!(m.convert_pressure(117), Err(SensorError::ReadError));
    assert_eq!(m.convert_pressure(118), Ok(3046));
    assert_eq!(m.convert_pressure(140), Ok(7343));
    assert_eq!(m.convert_pressure(158), Ok(10859));
    assert_eq!(m.convert_pressure(159), Err(SensorError::ReadError));
    assert_eq!(m.convert_pressure(0), Err(SensorError::ReadError));
}

#[test]
fn air_quality_zero_code_is_read_error_not_a_fault() {
    // A zero code means zero sensed voltage: the response ratio is
    // undefined, and the conversion must say ReadError, not divide.
    let m = manager();
    assert_eq!(m.convert_air_quality(0), Err(SensorError::ReadError));
}

#[test]
fn air_quality_small_code_in_range() {
    let m = manager();
    let r = m.convert_air_quality(100);
    match r {
        Ok(v) => assert!(0 <= v && v <= 10_000_000, "ppm out of range: {}", v),
        Err(_) => panic!("raw 100 must convert"),
    }
    assert_eq!(r, Ok(240));
}

#[test]
fn air_quality_unit_ratio_hits_curve_constant() {
    // raw 512 gives a ratio of exactly 1, where the curve's value is its
    // 116.602 ppm constant.
    let m = manager();
    assert_eq!(m.convert_air_quality(512), Ok(116_602));
}

#[test]
fn air_quality_upper_rejection() {
    let m = manager();
    assert_eq!(m.convert_air_quality(854), Ok(9_873_218));
    assert_eq!(m.convert_air_quality(855), Err(SensorError::ReadError));
    assert_eq!(m.convert_air_quality(1023), Err(SensorError::ReadError));
}

#[test]
fn read_channel_dispatches() {
    let m = manager();
    assert_eq!(m.read_channel(50, SensorType::Temperature), Ok(2441));
    assert_eq!(m.read_channel(512, SensorType::Humidity), Ok(5000));
    assert_eq!(m.read_channel(512, SensorType::AirQuality), Ok(116_602));
    assert_eq!(m.read_channel(140, SensorType::Pressure), Ok(7343));
}

#[test]
fn read_all_sensors_combines() {
    let m = manager();
    let samples = RawSamples { temperature: 50, humidity: 512, air_quality: 100, pressure: 140 };
    let expected = EnvironmentalData {
        temperature: 2441,
        humidity: 5000,
        air_quality: 240,
        pressure: 7343,
        timestamp: 777,
    };
    assert_eq!(m.read_all_sensors(samples, 777), Ok(expected));
}

#[test]
fn read_all_sensors_fails_whole_acquisition() {
    // One bad channel fails the whole acquisition; no partial reading.
    let m = manager();
    let samples = RawSamples { temperature: 512, humidity: 512, air_quality: 100, pressure: 140 };
    assert_eq!(m.read_all_sensors(samples, 777), Err(SensorError::ReadError));
    let samples = RawSamples { temperature: 50, humidity: 512, air_quality: 0, pressure: 140 };
    assert_eq!(m.read_all_sensors(samples, 777), Err(SensorError::ReadError));
}

#[test]
fn calibrate_resets_factor() {
    let mut m = manager();
    assert_eq!(m.calibrate_sensor(SensorType::AirQuality), Ok(()));
    assert_eq!(m.config.calibration_factor, 1000);
    assert_eq!(m.config.reading_interval, 5000);
    assert_eq!(m.config.alert_threshold, 100_000);
}
