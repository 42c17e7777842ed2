use enviromon::alert::{AlertLevel, AlertSystem};
use enviromon::sensor::{EnvironmentalData, SystemConfig};

fn quiet_reading(timestamp: u32) -> EnvironmentalData {
    EnvironmentalData {
        temperature: 2441,
        humidity: 5000,
        air_quality: 240,
        pressure: 7343,
        timestamp,
    }
}

fn config() -> SystemConfig {
    SystemConfig { reading_interval: 5000, alert_threshold: 100_000, calibration_factor: 1000 }
}

#[test]
fn quiet_reading_raises_nothing() {
    let mut a = AlertSystem::new(config());
    let alerts = a.check_alerts(&quiet_reading(1));
    assert!(alerts.is_empty());
    assert_eq!(a.get_alert_frequency(), 0);
}

#[test]
fn air_quality_over_threshold_warns() {
    let mut a = AlertSystem::new(config());
    let mut d = quiet_reading(42);
    d.air_quality = 116_602;
    let alerts = a.check_alerts(&d);
    assert_eq!(alerts.len(), 1);
    assert!(matches!(alerts[0].level, AlertLevel::Warning));
    assert_eq!(alerts[0].message, "air quality critical");
    assert_eq!(alerts[0].value, 116_602);
    assert_eq!(alerts[0].timestamp, 42);
}

#[test]
fn temperature_out_of_band_is_critical() {
    let mut a = AlertSystem::new(config());
    let mut hot = quiet_reading(7);
    hot.temperature = 3515;
    let alerts = a.check_alerts(&hot);
    assert_eq!(alerts.len(), 1);
    assert!(matches!(alerts[0].level, AlertLevel::Critical));
    assert_eq!(alerts[0].message, "temperature out of normal range");
    assert_eq!(alerts[0].value, 3515);

    let mut cold = quiet_reading(8);
    cold.temperature = 499;
    let alerts = a.check_alerts(&cold);
    assert_eq!(alerts.len(), 1);
    assert!(matches!(alerts[0].level, AlertLevel::Critical));
}

#[test]
fn humidity_out_of_band_warns() {
    let mut a = AlertSystem::new(config());
    let mut d = quiet_reading(9);
    d.humidity = 9990;
    let alerts = a.check_alerts(&d);
    assert_eq!(alerts.len(), 1);
    assert!(matches!(alerts[0].level, AlertLevel::Warning));
    assert_eq!(alerts[0].message, "humidity out of normal range");
    assert_eq!(alerts[0].value, 9990);
}

#[test]
fn all_three_fire_in_fixed_order() {
    let mut a = AlertSystem::new(config());
    let d = EnvironmentalData {
        temperature: 3600,
        humidity: 9500,
        air_quality: 200_000,
        pressure: 7343,
        timestamp: 5,
    };
    let alerts = a.check_alerts(&d);
    assert_eq!(alerts.len(), 3);
    assert_eq!(alerts[0].message, "air quality critical");
    assert_eq!(alerts[1].message, "temperature out of normal range");
    assert_eq!(alerts[2].message, "humidity out of normal range");
    assert!(matches!(alerts[0].level, AlertLevel::Warning));
    assert!(matches!(alerts[1].level, AlertLevel::Critical));
    assert!(matches!(alerts[2].level, AlertLevel::Warning));
}

#[test]
fn frequency_counts_three_alerting_cycles_as_30_percent() {
    // Ten cycles, of which exactly three raise an alert: 30 percent.
    let mut a = AlertSystem::new(config());
    for i in 0..10u32 {
        let mut d = quiet_reading(i);
        if i < 3 {
            d.air_quality = 150_000;
        }
        let alerts = a.check_alerts(&d);
        assert_eq!(alerts.len(), if i < 3 { 1 } else { 0 });
    }
    assert_eq!(a.get_alert_frequency(), 30);
}

#[test]
fn frequency_rolls_over_older_cycles() {
    // Three alerting cycles followed by ten quiet ones: the alerting
    // cycles have rolled out of the ten-cycle window.
    let mut a = AlertSystem::new(config());
    for i in 0..3u32 {
        let mut d = quiet_reading(i);
        d.air_quality = 150_000;
        a.check_alerts(&d);
    }
    assert_eq!(a.get_alert_frequency(), 30);
    for i in 3..13u32 {
        a.check_alerts(&quiet_reading(i));
    }
    assert_eq!(a.get_alert_frequency(), 0);
}

#[test]
fn update_alert_history_drives_frequency() {
    let mut a = AlertSystem::new(config());
    a.update_alert_history(true);
    assert_eq!(a.get_alert_frequency(), 10);
    a.update_alert_history(true);
    assert_eq!(a.get_alert_frequency(), 20);
    for _ in 0..8 {
        a.update_alert_history(false);
    }
    assert_eq!(a.get_alert_frequency(), 20);
    // The eleventh update overwrites the first slot.
    a.update_alert_history(false);
    assert_eq!(a.get_alert_frequency(), 10);
}

#[test]
fn threshold_is_strict() {
    let mut a = AlertSystem::new(config());
    let mut d = quiet_reading(3);
    d.air_quality = 100_000;
    assert!(a.check_alerts(&d).is_empty());
    d.air_quality = 100_001;
    assert_eq!(a.check_alerts(&d).len(), 1);
}
