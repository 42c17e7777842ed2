//! The monitoring controller: interval gating over a wrapping
//! millisecond clock, acquisition through the sensor reader, storage,
//! alert evaluation, and the system status machine.
//!
//! The controller is driven from outside: each poll hands in the clock
//! value and the raw samples, and takes back what the cycle did — the
//! validated reading and the alerts to report, if the cycle sampled at
//! all. Reporting itself (serial, LEDs) is the driver's business; a
//! failed report is dropped after its one attempt and does not touch
//! the controller's state, so the cycle's bookkeeping here is final.

use vstd::prelude::*;
use crate::alert::{
    Alert, AlertLevel, AlertSystem, alert_count_spec, alert_matches, air_quality_alert_fires,
    temperature_alert_fires, humidity_alert_fires, count_true, ALERT_HISTORY_LEN,
};
use crate::sensor::{
    acquisition_ok, reading_spec, EnvironmentalData, RawSamples, SensorError, SensorManager,
    SensorType,
};
use crate::storage::{ring_push, DataStorage};

verus! {

/// The controller's authoritative status.
#[derive(Clone, Copy, Debug, PartialEq, Eq, Structural)]
pub enum SystemStatus {
    Running,
    Calibrating,
    Error,
}

/// What one poll of the controller did, for the driver to report on.
pub struct CycleReport {
    /// Whether the interval had elapsed and an acquisition ran.
    pub sampled: bool,
    /// The validated reading, when an acquisition ran and succeeded.
    pub reading: Option<EnvironmentalData>,
    /// The alerts that reading raised, in evaluation order.
    pub alerts: Vec<Alert>,
}

/// Milliseconds from `last` to `now` on a clock that wraps at `2^32`;
/// unsigned subtraction handles a single wrap.
pub open spec fn elapsed_ms(now: int, last: int) -> int {
    (now - last) % 0x1_0000_0000
}

/// The orchestrator owning sensors, storage, alerting and status.
pub struct EnvironmentalMonitoringSystem {
    pub sensor_manager: SensorManager,
    pub alert_system: AlertSystem,
    pub data_storage: DataStorage,
    pub last_reading_time: u32,
    pub system_status: SystemStatus,
}

impl EnvironmentalMonitoringSystem {
    /// The components' representation invariants, together.
    pub open spec fn wf(self) -> bool {
        self.data_storage.wf() && self.alert_system.wf()
    }

    /// Whether a poll at `now` is due to sample: at least the configured
    /// interval has elapsed since the last successful acquisition.
    pub open spec fn due(self, now: u32) -> bool {
        elapsed_ms(now as int, self.last_reading_time as int)
            >= self.sensor_manager.config.reading_interval
    }

    /// A freshly started system: standard configuration, empty ring,
    /// clean alert history, `Running`.
    pub fn new() -> (s: Self)
        ensures
            s.wf(),
            s.system_status == SystemStatus::Running,
            s.last_reading_time == 0,
            s.sensor_manager.config.reading_interval == 5000,
            s.sensor_manager.config.alert_threshold == 100_000,
            s.sensor_manager.config.calibration_factor == 1000,
            s.alert_system.config_spec() == s.sensor_manager.config,
            s.alert_system.slot() == 0,
            s.alert_system.history().len() == ALERT_HISTORY_LEN,
            forall|i: int| 0 <= i < ALERT_HISTORY_LEN ==> !s.alert_system.history()[i],
            s.data_storage.contents() == Seq::<EnvironmentalData>::empty(),
            !s.data_storage.full(),
    {
        let sensor_manager = SensorManager::new();
        let config = sensor_manager.config;
        EnvironmentalMonitoringSystem {
            sensor_manager,
            alert_system: AlertSystem::new(config),
            data_storage: DataStorage::new(),
            last_reading_time: 0,
            system_status: SystemStatus::Running,
        }
    }

    /// One poll of the monitoring loop.
    ///
    /// Before the interval has elapsed the poll is a no-op success: no
    /// acquisition, no state change, `last_reading_time` untouched.
    /// Once due, the raw samples are converted; on success the reading
    /// is stored, evaluated for alerts, the history updated and
    /// `last_reading_time` reset to `now` (to the poll time itself, not
    /// advanced by the interval — clock jitter is accepted rather than
    /// corrected). On a conversion failure the cycle aborts: nothing is
    /// stored or evaluated, the status becomes `Error`, and the fault is
    /// surfaced to the driver.
    pub fn run_monitoring_cycle(&mut self, now: u32, samples: RawSamples) -> (r: Result<
        CycleReport,
        SensorError,
    >)
        requires
            old(self).wf(),
            samples.in_range(),
        ensures
            final(self).wf(),
            final(self).sensor_manager == old(self).sensor_manager,
            final(self).alert_system.config_spec() == old(self).alert_system.config_spec(),
            !old(self).due(now) ==> (r matches Ok(c) && !c.sampled && c.reading is None
                && c.alerts@.len() == 0 && *final(self) == *old(self)),
            old(self).due(now) && acquisition_ok(samples) ==> (r matches Ok(c) && c.sampled
                && c.reading == Some(reading_spec(samples, now)) && c.alerts@.len()
                == alert_count_spec(
                reading_spec(samples, now),
                old(self).alert_system.config_spec().alert_threshold as int,
            ) && final(self).data_storage.contents() == ring_push(
                old(self).data_storage.contents(),
                reading_spec(samples, now),
            ) && final(self).alert_system.history() == old(self).alert_system.history().update(
                old(self).alert_system.slot(),
                c.alerts@.len() > 0,
            ) && final(self).alert_system.slot() == (old(self).alert_system.slot() + 1) % (
            ALERT_HISTORY_LEN as int) && final(self).last_reading_time == now
                && final(self).system_status == old(self).system_status),
            old(self).due(now) && acquisition_ok(samples) && air_quality_alert_fires(
                reading_spec(samples, now),
                old(self).alert_system.config_spec().alert_threshold as int,
            ) ==> (r matches Ok(c) && alert_matches(
                c.alerts@[0],
                AlertLevel::Warning,
                "air quality critical"@,
                reading_spec(samples, now).air_quality,
                now,
            )),
            old(self).due(now) && acquisition_ok(samples) && temperature_alert_fires(
                reading_spec(samples, now),
            ) ==> (r matches Ok(c) && alert_matches(
                c.alerts@[
                    if air_quality_alert_fires(
                        reading_spec(samples, now),
                        old(self).alert_system.config_spec().alert_threshold as int,
                    ) {
                        1int
                    } else {
                        0int
                    }
                ],
                AlertLevel::Critical,
                "temperature out of normal range"@,
                reading_spec(samples, now).temperature,
                now,
            )),
            old(self).due(now) && acquisition_ok(samples) && humidity_alert_fires(
                reading_spec(samples, now),
            ) ==> (r matches Ok(c) && alert_matches(
                c.alerts@[c.alerts@.len() - 1],
                AlertLevel::Warning,
                "humidity out of normal range"@,
                reading_spec(samples, now).humidity,
                now,
            )),
            old(self).due(now) && !acquisition_ok(samples) ==> (r matches Err(e) && e
                == SensorError::ReadError && final(self).system_status == SystemStatus::Error
                && final(self).data_storage == old(self).data_storage
                && final(self).alert_system == old(self).alert_system
                && final(self).last_reading_time == old(self).last_reading_time),
    {
        let elapsed = elapsed_since(now, self.last_reading_time);
        if elapsed < self.sensor_manager.config.reading_interval {
            return Ok(CycleReport { sampled: false, reading: None, alerts: Vec::new() });
        }
        match self.sensor_manager.read_all_sensors(samples, now) {
            Ok(data) => {
                self.data_storage.store_data(data);
                let alerts = self.alert_system.check_alerts(&data);
                self.last_reading_time = now;
                Ok(CycleReport { sampled: true, reading: Some(data), alerts })
            },
            Err(e) => {
                self.system_status = SystemStatus::Error;
                Err(e)
            },
        }
    }

    /// Runs the calibration hook for every channel in turn, holding the
    /// status at `Calibrating` for the duration and returning to
    /// `Running` when all four complete. Touches nothing but the status
    /// and the calibration factor.
    pub fn calibrate_all_sensors(&mut self) -> (r: Result<(), SensorError>)
        ensures
            r is Ok,
            final(self).system_status == SystemStatus::Running,
            final(self).sensor_manager.config.calibration_factor == 1000,
            final(self).sensor_manager.config.reading_interval
                == old(self).sensor_manager.config.reading_interval,
            final(self).sensor_manager.config.alert_threshold
                == old(self).sensor_manager.config.alert_threshold,
            final(self).alert_system == old(self).alert_system,
            final(self).data_storage == old(self).data_storage,
            final(self).last_reading_time == old(self).last_reading_time,
    {
        self.system_status = SystemStatus::Calibrating;
        self.sensor_manager.calibrate_sensor(SensorType::Temperature)?;
        self.sensor_manager.calibrate_sensor(SensorType::Humidity)?;
        self.sensor_manager.calibrate_sensor(SensorType::AirQuality)?;
        self.sensor_manager.calibrate_sensor(SensorType::Pressure)?;
        self.system_status = SystemStatus::Running;
        Ok(())
    }

    /// The controller's current status.
    pub fn get_system_status(&self) -> (r: SystemStatus)
        ensures
            r == self.system_status,
    {
        self.system_status
    }

    /// The share of the last ten cycles that raised an alert, as a
    /// whole percentage.
    pub fn get_alert_frequency(&self) -> (r: u32)
        requires
            self.wf(),
        ensures
            r == 10 * count_true(self.alert_system.history()),
            r <= 100,
    {
        self.alert_system.get_alert_frequency()
    }
}

/// Milliseconds from `last` to `now`, wraparound-correct.
fn elapsed_since(now: u32, last: u32) -> (e: u32)
    ensures
        e == elapsed_ms(now as int, last as int),
{
    let diff: u64 = (now as u64) + 0x1_0000_0000 - (last as u64);
    proof {
        vstd::arithmetic::div_mod::lemma_mod_multiples_vanish(
            1,
            now as int - last as int,
            0x1_0000_0000,
        );
    }
    (diff % 0x1_0000_0000) as u32
}

} // verus!
