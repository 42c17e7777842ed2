use enviromon::sensor::{RawSamples, SensorError};
use enviromon::system::{EnvironmentalMonitoringSystem, SystemStatus};

fn good_samples() -> RawSamples {
    RawSamples { temperature: 50, humidity: 512, air_quality: 100, pressure: 140 }
}

#[test]
fn fresh_system_runs() {
    let s = EnvironmentalMonitoringSystem::new();
    assert!(matches!(s.get_system_status(), SystemStatus::Running));
    assert_eq!(s.last_reading_time, 0);
    assert_eq!(s.get_alert_frequency(), 0);
}

#[test]
fn cycle_before_interval_is_a_quiet_success() {
    // The interval is 5000 ms and nothing has been read: a poll at
    // 4999 ms does not sample and leaves the last reading time alone.
    let mut s = EnvironmentalMonitoringSystem::new();
    let r = s.run_monitoring_cycle(4999, good_samples()).expect("early poll must succeed");
    assert!(!r.sampled);
    assert!(r.reading.is_none());
    assert!(r.alerts.is_empty());
    assert_eq!(s.last_reading_time, 0);
    assert!(matches!(s.get_system_status(), SystemStatus::Running));
    assert!(s.data_storage.get_latest_data().is_none());
}

#[test]
fn due_cycle_samples_stores_and_stamps() {
    let mut s = EnvironmentalMonitoringSystem::new();
    let r = s.run_monitoring_cycle(5000, good_samples()).expect("due poll must succeed");
    assert!(r.sampled);
    let d = r.reading.expect("a due successful poll carries its reading");
    assert_eq!(d.temperature, 2441);
    assert_eq!(d.humidity, 5000);
    assert_eq!(d.air_quality, 240);
    assert_eq!(d.pressure, 7343);
    assert_eq!(d.timestamp, 5000);
    assert!(r.alerts.is_empty());
    assert_eq!(s.last_reading_time, 5000);
    assert_eq!(s.data_storage.get_latest_data(), Some(d));
}

#[test]
fn last_reading_time_resets_to_poll_time() {
    // The clock is read at 5432, not at the 5000 the interval would
    // have scheduled: the reading time becomes the poll time itself.
    let mut s = EnvironmentalMonitoringSystem::new();
    s.run_monitoring_cycle(5432, good_samples()).expect("due poll must succeed");
    assert_eq!(s.last_reading_time, 5432);
    // The next poll is gated relative to 5432.
    let r = s.run_monitoring_cycle(10431, good_samples()).expect("early poll must succeed");
    assert!(!r.sampled);
    let r = s.run_monitoring_cycle(10432, good_samples()).expect("due poll must succeed");
    assert!(r.sampled);
}

#[test]
fn wrapping_clock_still_gates() {
    let mut s = EnvironmentalMonitoringSystem::new();
    s.run_monitoring_cycle(u32::MAX - 1000, good_samples()).expect("due poll must succeed");
    assert_eq!(s.last_reading_time, u32::MAX - 1000);
    // 1001 ms later the counter has wrapped to 0; still below interval.
    let r = s.run_monitoring_cycle(0, good_samples()).expect("early poll must succeed");
    assert!(!r.sampled);
    // 5000 ms after the last reading, across the wrap, sampling is due.
    let due_at = 5000u32.wrapping_add(u32::MAX - 1000);
    let r = s.run_monitoring_cycle(due_at, good_samples()).expect("due poll must succeed");
    assert!(r.sampled);
}

#[test]
fn read_failure_sets_error_and_calibration_recovers() {
    // A half-scale temperature code converts to 250 C and is rejected:
    // the cycle surfaces ReadError and the status becomes Error. A full
    // recalibration then passes through Calibrating back to Running.
    let mut s = EnvironmentalMonitoringSystem::new();
    let bad = RawSamples { temperature: 512, humidity: 512, air_quality: 100, pressure: 140 };
    let r = s.run_monitoring_cycle(5000, bad);
    assert_eq!(r.err(), Some(SensorError::ReadError));
    assert!(matches!(s.get_system_status(), SystemStatus::Error));
    // The failed cycle stored nothing and kept the reading time.
    assert!(s.data_storage.get_latest_data().is_none());
    assert_eq!(s.last_reading_time, 0);
    assert_eq!(s.calibrate_all_sensors(), Ok(()));
    assert!(matches!(s.get_system_status(), SystemStatus::Running));
    assert_eq!(s.sensor_manager.config.calibration_factor, 1000);
}

#[test]
fn due_cycle_reports_alerts_through() {
    let mut s = EnvironmentalMonitoringSystem::new();
    // Air quality raw 512 converts to 116.602 ppm, over the 100 ppm
    // threshold; the other channels stay quiet.
    let samples = RawSamples { temperature: 50, humidity: 512, air_quality: 512, pressure: 140 };
    let r = s.run_monitoring_cycle(6000, samples).expect("due poll must succeed");
    assert!(r.sampled);
    assert_eq!(r.alerts.len(), 1);
    assert_eq!(r.alerts[0].message, "air quality critical");
    assert_eq!(r.alerts[0].value, 116_602);
    assert_eq!(r.alerts[0].timestamp, 6000);
    assert_eq!(s.get_alert_frequency(), 10);
}

#[test]
fn alert_frequency_over_ten_cycles() {
    // Ten due cycles, exactly three with an alerting air-quality level.
    let mut s = EnvironmentalMonitoringSystem::new();
    for i in 0..10u32 {
        let aq = if i < 3 { 512 } else { 100 };
        let samples = RawSamples { temperature: 50, humidity: 512, air_quality: aq, pressure: 140 };
        let now = 5000 * (i + 1);
        let r = s.run_monitoring_cycle(now, samples).expect("due poll must succeed");
        assert!(r.sampled);
    }
    assert_eq!(s.get_alert_frequency(), 30);
}

#[test]
fn status_survives_successful_cycles() {
    let mut s = EnvironmentalMonitoringSystem::new();
    let bad = RawSamples { temperature: 512, humidity: 512, air_quality: 100, pressure: 140 };
    let _ = s.run_monitoring_cycle(5000, bad);
    assert!(matches!(s.get_system_status(), SystemStatus::Error));
    // A later successful cycle does not clear the error by itself;
    // only calibration returns the system to Running.
    let r = s.run_monitoring_cycle(10000, good_samples()).expect("due poll must succeed");
    assert!(r.sampled);
    assert!(matches!(s.get_system_status(), SystemStatus::Error));
}
