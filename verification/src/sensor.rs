//! Sensor reading: conversion of raw ADC sample codes into validated,
//! scaled physical quantities.
//!
//! Every channel is driven by a 10-bit ADC, so a raw sample lies in
//! `0 .. 1024`. Quantities are fixed-point integers: temperature in
//! hundredths of a degree Celsius, humidity in hundredths of a percent,
//! pressure in hundredths of a kilopascal, and air quality in thousandths
//! of a ppm. A conversion either yields a value inside the channel's
//! physically plausible range or rejects the sample with
//! [`SensorError::ReadError`].

use vstd::prelude::*;
use vstd::arithmetic::div_mod::lemma_div_is_ordered;

verus! {

/// Number of distinct codes of the 10-bit ADC; raw samples lie below it.
pub const ADC_RANGE: u16 = 1024;

/// Faults surfaced by the monitoring core and its collaborators.
#[derive(Clone, Copy, Debug, PartialEq, Eq, Structural)]
pub enum SensorError {
    /// A sample was outside the physically plausible range for its channel,
    /// or a derived computation hit a singularity.
    ReadError,
    /// The calibration hook failed.
    CalibrationError,
    /// The reporting transport failed.
    CommunicationError,
}

/// The four physical channels the monitor samples.
#[derive(Clone, Copy, Debug, PartialEq, Eq, Structural)]
pub enum SensorType {
    Temperature,
    Humidity,
    AirQuality,
    Pressure,
}

/// Read-only settings during a cycle; mutated only by calibration.
#[derive(Clone, Copy, Debug, PartialEq, Eq, Structural)]
pub struct SystemConfig {
    /// Minimum time between two acquisitions, in milliseconds.
    pub reading_interval: u32,
    /// Air-quality level above which a warning fires, in thousandths of a ppm.
    pub alert_threshold: i32,
    /// Calibration factor in thousandths (1000 is the neutral factor).
    pub calibration_factor: u32,
}

impl Default for SystemConfig {
    /// Sample every 5 seconds, warn above 100 ppm, neutral calibration.
    fn default() -> (c: Self)
        ensures
            c.reading_interval == 5000,
            c.alert_threshold == 100_000,
            c.calibration_factor == 1000,
    {
        SystemConfig { reading_interval: 5000, alert_threshold: 100_000, calibration_factor: 1000 }
    }
}

/// One timestamped snapshot of all monitored quantities.
///
/// Fields are fixed-point: `temperature` in centi-degrees Celsius,
/// `humidity` in centi-percent, `air_quality` in milli-ppm, `pressure`
/// in centi-kilopascal. `timestamp` is the monotonic millisecond clock
/// value at acquisition; it wraps at `2^32`.
#[derive(Clone, Copy, Debug, PartialEq, Eq, Structural)]
pub struct EnvironmentalData {
    pub temperature: i32,
    pub humidity: i32,
    pub air_quality: i32,
    pub pressure: i32,
    pub timestamp: u32,
}

/// Raw ADC codes for the four channels, as sampled in one cycle.
#[derive(Clone, Copy, Debug, PartialEq, Eq, Structural)]
pub struct RawSamples {
    pub temperature: u16,
    pub humidity: u16,
    pub air_quality: u16,
    pub pressure: u16,
}

impl RawSamples {
    /// All four codes fit the 10-bit ADC.
    pub open spec fn in_range(self) -> bool {
        self.temperature < ADC_RANGE
            && self.humidity < ADC_RANGE
            && self.air_quality < ADC_RANGE
            && self.pressure < ADC_RANGE
    }
}

/// Temperature in centi-degrees from a raw code: the sensor emits 10 mV
/// per degree, so degrees are `raw * 5 / 1024 * 100`, i.e. hundredths are
/// `raw * 50000 / 1024` (floor).
pub open spec fn temp_centi_spec(raw: int) -> int {
    raw * 50000 / 1024
}

/// A temperature sample is plausible when it lies in [-40 C, 125 C].
/// Raw codes are non-negative, so only the upper bound can reject.
pub open spec fn temp_ok(raw: int) -> bool {
    temp_centi_spec(raw) <= 12500
}

/// Humidity in centi-percent from a raw code: percent is `raw * 100 / 1024`.
pub open spec fn humidity_centi_spec(raw: int) -> int {
    raw * 10000 / 1024
}

/// Pressure in centi-kilopascal from a raw code: kilopascals are
/// `(raw * 5 / 1024 - 0.5) * 400`, i.e. hundredths are
/// `(5 * raw - 512) * 2500 / 64`, rounded toward zero.
pub open spec fn pressure_centi_spec(raw: int) -> int {
    crate::math::div_trunc((5 * raw - 512) * 2500, 64)
}

/// A pressure sample is plausible when it lies in [30 kPa, 110 kPa].
pub open spec fn pressure_ok(raw: int) -> bool {
    3000 <= pressure_centi_spec(raw) <= 11000
}

/// The sensed air-to-clean ratio in steps of 1/256: `raw / (1024 - raw)`,
/// scaled by 256 and floored.
pub open spec fn aq_ratio_q8(raw: int) -> int {
    raw * 256 / (1024 - raw)
}

/// Eleventh power, as the fixed-point curve computes it.
pub open spec fn pow11(x: int) -> int {
    let x2 = x * x;
    let x4 = x2 * x2;
    let x8 = x4 * x4;
    x8 * x2 * x
}

/// Air quality in milli-ppm from a raw code. The sensor's response curve
/// is `ppm = 116.602 * ratio^2.769` of the ratio `raw / (1024 - raw)`;
/// the exponent is evaluated as 11/4 (an eleventh power under two square
/// roots), which a fixed-point pipeline carries exactly in 128 bits:
/// the ratio in steps of 1/256, its 11th power in steps of 2^-88, the two
/// square roots in steps of 2^-22, and the final scale of 116602/2^22
/// yielding thousandths of a ppm.
pub open spec fn aq_ppm_milli_spec(raw: int) -> int {
    116602 * crate::math::sqrt_floor(crate::math::sqrt_floor(pow11(aq_ratio_q8(raw))))
        / 4194304
}

/// An air-quality sample converts successfully when the ratio is defined
/// (a zero code would divide by zero), small enough for the 128-bit
/// pipeline (ratios of 5.25 and above already map far beyond the
/// plausible ceiling), and the curve lands at or below 10000 ppm.
pub open spec fn aq_ok(raw: int) -> bool {
    1 <= raw < 1024 && aq_ratio_q8(raw) < 1344 && aq_ppm_milli_spec(raw) <= 10_000_000
}

/// What the temperature conversion returns for a raw code.
pub open spec fn temp_result(raw: int) -> Result<i32, SensorError> {
    if temp_ok(raw) {
        Ok(temp_centi_spec(raw) as i32)
    } else {
        Err(SensorError::ReadError)
    }
}

/// What the humidity conversion returns for a raw code (it cannot fail).
pub open spec fn humidity_result(raw: int) -> Result<i32, SensorError> {
    Ok(humidity_centi_spec(raw) as i32)
}

/// What the air-quality conversion returns for a raw code.
pub open spec fn aq_result(raw: int) -> Result<i32, SensorError> {
    if aq_ok(raw) {
        Ok(aq_ppm_milli_spec(raw) as i32)
    } else {
        Err(SensorError::ReadError)
    }
}

/// What the pressure conversion returns for a raw code.
pub open spec fn pressure_result(raw: int) -> Result<i32, SensorError> {
    if pressure_ok(raw) {
        Ok(pressure_centi_spec(raw) as i32)
    } else {
        Err(SensorError::ReadError)
    }
}

/// A whole acquisition succeeds exactly when every channel accepts its
/// code; humidity accepts every 10-bit code.
pub open spec fn acquisition_ok(s: RawSamples) -> bool {
    temp_ok(s.temperature as int) && aq_ok(s.air_quality as int) && pressure_ok(
        s.pressure as int,
    )
}

/// The reading a successful acquisition yields.
pub open spec fn reading_spec(s: RawSamples, timestamp: u32) -> EnvironmentalData {
    EnvironmentalData {
        temperature: temp_centi_spec(s.temperature as int) as i32,
        humidity: humidity_centi_spec(s.humidity as int) as i32,
        air_quality: aq_ppm_milli_spec(s.air_quality as int) as i32,
        pressure: pressure_centi_spec(s.pressure as int) as i32,
        timestamp,
    }
}

/// Converts raw sample codes into validated quantities and owns the
/// configuration that calibration adjusts.
pub struct SensorManager {
    pub config: SystemConfig,
}

impl SensorManager {
    /// A manager with the standard configuration.
    pub fn new() -> (m: Self)
        ensures
            m.config.reading_interval == 5000,
            m.config.alert_threshold == 100_000,
            m.config.calibration_factor == 1000,
    {
        SensorManager { config: Default::default() }
    }

    /// Temperature from a raw code, in centi-degrees Celsius.
    ///
    /// Accepts exactly the codes whose converted value stays at or below
    /// 125 C; anything hotter is physically implausible for the sensor and
    /// is rejected. The -40 C lower bound cannot be reached, since raw
    /// codes are non-negative.
    pub fn convert_temperature(&self, raw: u16) -> (r: Result<i32, SensorError>)
        requires
            raw < ADC_RANGE,
        ensures
            r is Ok <==> temp_ok(raw as int),
            r matches Ok(t) ==> t == temp_centi_spec(raw as int) && -4000 <= t <= 12500,
            r matches Err(e) ==> e == SensorError::ReadError,
    {
        let centi: u32 = (raw as u32) * 50000 / 1024;
        if centi > 12500 {
            Err(SensorError::ReadError)
        } else {
            Ok(centi as i32)
        }
    }

    /// Humidity from a raw code, in centi-percent.
    ///
    /// Every 10-bit code converts to at most 99.90 %, so the conversion
    /// always succeeds; the range guard is kept as defence in depth.
    pub fn convert_humidity(&self, raw: u16) -> (r: Result<i32, SensorError>)
        requires
            raw < ADC_RANGE,
        ensures
            r matches Ok(h) && h == humidity_centi_spec(raw as int),
            0 <= humidity_centi_spec(raw as int) <= 10000,
    {
        let centi: u32 = (raw as u32) * 10000 / 1024;
        proof {
            lemma_div_is_ordered((raw as int) * 10000, 10230000, 1024);
        }
        if centi > 10000 {
            Err(SensorError::ReadError)
        } else {
            Ok(centi as i32)
        }
    }

    /// Pressure from a raw code, in centi-kilopascal.
    ///
    /// Accepts exactly the codes whose converted value lies between
    /// 30 kPa and 110 kPa.
    pub fn convert_pressure(&self, raw: u16) -> (r: Result<i32, SensorError>)
        requires
            raw < ADC_RANGE,
        ensures
            r is Ok <==> pressure_ok(raw as int),
            r matches Ok(p) ==> p == pressure_centi_spec(raw as int) && 3000 <= p <= 11000,
            r matches Err(e) ==> e == SensorError::ReadError,
    {
        let scaled: i64 = (5 * (raw as i64) - 512) * 2500;
        let centi: i64 = crate::math::div_trunc_i64(scaled, 64);
        if centi < 3000 || centi > 11000 {
            Err(SensorError::ReadError)
        } else {
            Ok(centi as i32)
        }
    }

    /// Air quality from a raw code, in milli-ppm.
    ///
    /// A zero code leaves the response ratio undefined (its denominator
    /// would be the sensed voltage, zero) and is rejected as a read
    /// fault rather than allowed to become a division fault. Codes whose
    /// converted value would exceed 10000 ppm are rejected as well.
    pub fn convert_air_quality(&self, raw: u16) -> (r: Result<i32, SensorError>)
        requires
            raw < ADC_RANGE,
        ensures
            r is Ok <==> aq_ok(raw as int),
            raw == 0 ==> r is Err,
            r matches Ok(v) ==> v == aq_ppm_milli_spec(raw as int) && 0 <= v <= 10_000_000,
            r matches Err(e) ==> e == SensorError::ReadError,
    {
        if raw == 0 {
            return Err(SensorError::ReadError);
        }
        let ratio: u64 = ((raw as u64) * 256) / (1024 - raw as u64);
        if ratio >= 1344 {
            return Err(SensorError::ReadError);
        }
        assert((ratio as int) * (ratio as int) < 0x40_0000) by (nonlinear_arith)
            requires
                0 <= ratio as int,
                (ratio as int) < 0x800,
        ;
        let x2: u64 = ratio * ratio;
        assert((x2 as int) * (x2 as int) < 0x1000_0000_0000) by (nonlinear_arith)
            requires
                0 <= x2 as int,
                (x2 as int) < 0x40_0000,
        ;
        let x4: u64 = x2 * x2;
        assert((x4 as int) * (x4 as int) < 309_485_009_821_345_068_724_781_056)
            by (nonlinear_arith)
            requires
                0 <= x4 as int,
                (x4 as int) < 17_592_186_044_416,
        ;
        let x8: u128 = (x4 as u128) * (x4 as u128);
        assert((x8 as int) * (x2 as int) < 1_298_074_214_633_706_907_132_624_082_305_024)
            by (nonlinear_arith)
            requires
                0 <= x8 as int,
                (x8 as int) < 309_485_009_821_345_068_724_781_056,
                0 <= x2 as int,
                (x2 as int) < 4_194_304,
        ;
        let x10: u128 = x8 * (x2 as u128);
        assert((x10 as int) * (ratio as int) < 2_658_455_991_569_831_745_807_614_120_560_689_152)
            by (nonlinear_arith)
            requires
                0 <= x10 as int,
                (x10 as int) < 1_298_074_214_633_706_907_132_624_082_305_024,
                0 <= ratio as int,
                (ratio as int) < 0x800,
        ;
        let x11: u128 = x10 * (ratio as u128);
        assert(x11 as int == pow11(ratio as int));
        let s1: u64 = crate::math::isqrt_u128(x11);
        let s2: u64 = crate::math::isqrt_u128(s1 as u128);
        assert(s2 < 0x1_0000_0000) by (nonlinear_arith)
            requires
                0 <= s2 as int,
                (s2 as int) * (s2 as int) <= s1 as int,
                (s1 as int) <= 0xFFFF_FFFF_FFFF_FFFF,
        ;
        let milli: u64 = (116602 * s2) / 4194304;
        if milli > 10_000_000 {
            Err(SensorError::ReadError)
        } else {
            Ok(milli as i32)
        }
    }

    /// One channel read by kind, in that channel's fixed-point unit.
    pub fn read_channel(&self, raw: u16, channel: SensorType) -> (r: Result<i32, SensorError>)
        requires
            raw < ADC_RANGE,
        ensures
            channel == SensorType::Temperature ==> r == temp_result(raw as int),
            channel == SensorType::Humidity ==> r == humidity_result(raw as int),
            channel == SensorType::AirQuality ==> r == aq_result(raw as int),
            channel == SensorType::Pressure ==> r == pressure_result(raw as int),
    {
        match channel {
            SensorType::Temperature => self.convert_temperature(raw),
            SensorType::Humidity => self.convert_humidity(raw),
            SensorType::AirQuality => self.convert_air_quality(raw),
            SensorType::Pressure => self.convert_pressure(raw),
        }
    }

    /// All four channels combined into one reading stamped with the
    /// acquisition time; if any channel rejects its sample, the whole
    /// acquisition fails and no partial reading is produced.
    pub fn read_all_sensors(&self, samples: RawSamples, timestamp: u32) -> (r: Result<
        EnvironmentalData,
        SensorError,
    >)
        requires
            samples.in_range(),
        ensures
            r is Ok <==> acquisition_ok(samples),
            r matches Ok(d) ==> d == reading_spec(samples, timestamp),
            r matches Err(e) ==> e == SensorError::ReadError,
    {
        let temperature = self.convert_temperature(samples.temperature)?;
        let humidity = self.convert_humidity(samples.humidity)?;
        let air_quality = self.convert_air_quality(samples.air_quality)?;
        let pressure = self.convert_pressure(samples.pressure)?;
        Ok(EnvironmentalData { temperature, humidity, air_quality, pressure, timestamp })
    }

    /// Runs the (stubbed) calibration hook for one channel; it resets the
    /// calibration factor to neutral and cannot fail.
    pub fn calibrate_sensor(&mut self, sensor_type: SensorType) -> (r: Result<(), SensorError>)
        ensures
            r is Ok,
            final(self).config.calibration_factor == 1000,
            final(self).config.reading_interval == old(self).config.reading_interval,
            final(self).config.alert_threshold == old(self).config.alert_threshold,
    {
        match sensor_type {
            SensorType::Temperature => {
                self.config.calibration_factor = 1000;
            },
            SensorType::Humidity => {
                self.config.calibration_factor = 1000;
            },
            SensorType::AirQuality => {
                self.config.calibration_factor = 1000;
            },
            SensorType::Pressure => {
                self.config.calibration_factor = 1000;
            },
        }
        Ok(())
    }
}

} // verus!
