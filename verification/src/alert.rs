//! Alert evaluation: stateless threshold checks over a reading, plus a
//! small rolling history recording which of the last ten cycles raised
//! at least one alert.
//!
//! Evaluation is per field and deterministic: an air-quality warning
//! first, then a temperature critical, then a humidity warning, each
//! only when its threshold check fires. All may fire in one cycle.

use vstd::prelude::*;
use crate::sensor::{EnvironmentalData, SystemConfig};

verus! {

/// Number of cycles the rolling alert history remembers.
pub const ALERT_HISTORY_LEN: usize = 10;

/// Severity of an alert.
#[derive(Clone, Copy, Debug, PartialEq, Eq, Structural)]
pub enum AlertLevel {
    Info,
    Warning,
    Critical,
}

/// A transient event signalling that a reading exceeded a threshold.
/// `value` is the offending field in that field's fixed-point unit;
/// `timestamp` is the reading's acquisition time.
#[derive(Clone, Copy, Debug)]
pub struct Alert {
    pub level: AlertLevel,
    pub message: &'static str,
    pub value: i32,
    pub timestamp: u32,
}

/// The air-quality warning fires above the configured threshold
/// (both in milli-ppm).
pub open spec fn air_quality_alert_fires(d: EnvironmentalData, threshold: int) -> bool {
    d.air_quality > threshold
}

/// The temperature critical fires outside [5 C, 35 C].
pub open spec fn temperature_alert_fires(d: EnvironmentalData) -> bool {
    d.temperature > 3500 || d.temperature < 500
}

/// The humidity warning fires outside [10 %, 90 %].
pub open spec fn humidity_alert_fires(d: EnvironmentalData) -> bool {
    d.humidity > 9000 || d.humidity < 1000
}

/// How many alerts one reading raises.
pub open spec fn alert_count_spec(d: EnvironmentalData, threshold: int) -> int {
    (if air_quality_alert_fires(d, threshold) {
        1int
    } else {
        0int
    }) + (if temperature_alert_fires(d) {
        1int
    } else {
        0int
    }) + (if humidity_alert_fires(d) {
        1int
    } else {
        0int
    })
}

/// An alert with exactly these four fields (the message compared as its
/// character sequence).
pub open spec fn alert_matches(
    a: Alert,
    level: AlertLevel,
    message: Seq<char>,
    value: i32,
    timestamp: u32,
) -> bool {
    a.level == level && a.message@ == message && a.value == value && a.timestamp == timestamp
}

/// How many of the remembered cycles raised an alert.
pub open spec fn count_true(s: Seq<bool>) -> int
    decreases s.len(),
{
    if s.len() == 0 {
        0
    } else {
        count_true(s.drop_last()) + if s.last() {
            1int
        } else {
            0int
        }
    }
}

/// The history after a run of cycles: each cycle writes its flag at the
/// cursor and advances it with wraparound, exactly as
/// `update_alert_history` does.
pub open spec fn history_after(h: Seq<bool>, cur: int, flags: Seq<bool>) -> Seq<bool>
    decreases flags.len(),
{
    if flags.len() == 0 {
        h
    } else {
        history_after(
            h.update(cur, flags.first()),
            (cur + 1) % (ALERT_HISTORY_LEN as int),
            flags.drop_first(),
        )
    }
}

/// A run of cycles that fits before the cursor wraps writes its flags
/// into consecutive slots and leaves every other slot alone.
pub proof fn lemma_history_after_segment(h: Seq<bool>, cur: int, flags: Seq<bool>)
    requires
        h.len() == ALERT_HISTORY_LEN,
        0 <= cur,
        cur + flags.len() <= ALERT_HISTORY_LEN,
    ensures
        history_after(h, cur, flags).len() == ALERT_HISTORY_LEN,
        forall|p: int|
            0 <= p < ALERT_HISTORY_LEN ==> history_after(h, cur, flags)[p] == (if cur <= p < cur
                + flags.len() {
                flags[p - cur]
            } else {
                h[p]
            }),
    decreases flags.len(),
{
    if flags.len() > 0 {
        let h1 = h.update(cur, flags.first());
        if cur + 1 < ALERT_HISTORY_LEN {
            lemma_history_after_segment(h1, cur + 1, flags.drop_first());
        } else {
            lemma_history_after_segment(h1, (cur + 1) % (ALERT_HISTORY_LEN as int), flags.drop_first());
        }
    }
}

/// Law: after a full lap of ten cycles the history holds exactly those
/// ten cycles' flags, whatever it held before — so with exactly three
/// alert-raising cycles among the ten, the alert frequency reads
/// 30 percent.
pub proof fn lemma_alert_frequency_window(h: Seq<bool>, flags: Seq<bool>)
    requires
        h.len() == ALERT_HISTORY_LEN,
        flags.len() == ALERT_HISTORY_LEN,
    ensures
        history_after(h, 0, flags) == flags,
        count_true(flags) == 3 ==> 10 * count_true(history_after(h, 0, flags)) == 30,
{
    lemma_history_after_segment(h, 0, flags);
    assert(history_after(h, 0, flags) =~= flags);
}

/// Threshold checks and the rolling per-cycle alert history.
pub struct AlertSystem {
    config: SystemConfig,
    alert_history: Vec<bool>,
    cursor: usize,
}

impl AlertSystem {
    /// Representation invariant: one remembered flag per cycle slot and
    /// the cursor at a slot.
    pub closed spec fn wf(self) -> bool {
        self.alert_history@.len() == ALERT_HISTORY_LEN && self.cursor < ALERT_HISTORY_LEN
    }

    /// The per-cycle flags, indexed by slot.
    pub closed spec fn history(self) -> Seq<bool> {
        self.alert_history@
    }

    /// The slot the next cycle's flag will be written to.
    pub closed spec fn slot(self) -> int {
        self.cursor as int
    }

    /// The configuration the checks run against.
    pub closed spec fn config_spec(self) -> SystemConfig {
        self.config
    }

    /// A fresh history: no cycle has raised an alert yet.
    pub fn new(config: SystemConfig) -> (a: Self)
        ensures
            a.wf(),
            a.config_spec() == config,
            a.slot() == 0,
            a.history().len() == ALERT_HISTORY_LEN,
            forall|i: int| 0 <= i < ALERT_HISTORY_LEN ==> !a.history()[i],
    {
        let mut alert_history: Vec<bool> = Vec::new();
        let mut i: usize = 0;
        while i < ALERT_HISTORY_LEN
            invariant
                alert_history@.len() == i,
                i <= ALERT_HISTORY_LEN,
                forall|j: int| 0 <= j < i ==> !alert_history@[j],
            decreases ALERT_HISTORY_LEN - i,
        {
            alert_history.push(false);
            i = i + 1;
        }
        AlertSystem { config, alert_history, cursor: 0 }
    }

    /// Records whether the cycle that just ran raised any alert, in the
    /// current slot, and advances the slot with wraparound.
    pub fn update_alert_history(&mut self, has_alert: bool)
        requires
            old(self).wf(),
        ensures
            final(self).wf(),
            final(self).history() == old(self).history().update(old(self).slot(), has_alert),
            final(self).slot() == (old(self).slot() + 1) % (ALERT_HISTORY_LEN as int),
            final(self).config_spec() == old(self).config_spec(),
    {
        let cur = self.cursor;
        self.alert_history.set(cur, has_alert);
        self.cursor = (cur + 1) % ALERT_HISTORY_LEN;
    }

    /// Evaluates one reading against the thresholds, in the fixed order
    /// air quality, temperature, humidity, and records in the history
    /// whether anything fired.
    pub fn check_alerts(&mut self, data: &EnvironmentalData) -> (alerts: Vec<Alert>)
        requires
            old(self).wf(),
        ensures
            final(self).wf(),
            final(self).config_spec() == old(self).config_spec(),
            alerts@.len() == alert_count_spec(*data, old(self).config_spec().alert_threshold as int),
            air_quality_alert_fires(*data, old(self).config_spec().alert_threshold as int)
                ==> alert_matches(
                alerts@[0],
                AlertLevel::Warning,
                "air quality critical"@,
                data.air_quality,
                data.timestamp,
            ),
            temperature_alert_fires(*data) ==> alert_matches(
                alerts@[
                    if air_quality_alert_fires(
                        *data,
                        old(self).config_spec().alert_threshold as int,
                    ) {
                        1int
                    } else {
                        0int
                    }
                ],
                AlertLevel::Critical,
                "temperature out of normal range"@,
                data.temperature,
                data.timestamp,
            ),
            humidity_alert_fires(*data) ==> alert_matches(
                alerts@[alerts@.len() - 1],
                AlertLevel::Warning,
                "humidity out of normal range"@,
                data.humidity,
                data.timestamp,
            ),
            final(self).history() == old(self).history().update(
                old(self).slot(),
                alert_count_spec(*data, old(self).config_spec().alert_threshold as int) > 0,
            ),
            final(self).slot() == (old(self).slot() + 1) % (ALERT_HISTORY_LEN as int),
    {
        let mut alerts: Vec<Alert> = Vec::new();
        if data.air_quality > self.config.alert_threshold {
            alerts.push(
                Alert {
                    level: AlertLevel::Warning,
                    message: "air quality critical",
                    value: data.air_quality,
                    timestamp: data.timestamp,
                },
            );
        }
        if data.temperature > 3500 || data.temperature < 500 {
            alerts.push(
                Alert {
                    level: AlertLevel::Critical,
                    message: "temperature out of normal range",
                    value: data.temperature,
                    timestamp: data.timestamp,
                },
            );
        }
        if data.humidity > 9000 || data.humidity < 1000 {
            alerts.push(
                Alert {
                    level: AlertLevel::Warning,
                    message: "humidity out of normal range",
                    value: data.humidity,
                    timestamp: data.timestamp,
                },
            );
        }
        let has_alert = alerts.len() > 0;
        self.update_alert_history(has_alert);
        alerts
    }

    /// The share of the last ten cycles that raised an alert, as a whole
    /// percentage: ten percentage points per alerting cycle.
    pub fn get_alert_frequency(&self) -> (r: u32)
        requires
            self.wf(),
        ensures
            r == 10 * count_true(self.history()),
            r <= 100,
    {
        let mut count: u32 = 0;
        let mut i: usize = 0;
        while i < ALERT_HISTORY_LEN
            invariant
                self.wf(),
                i <= ALERT_HISTORY_LEN,
                count == count_true(self.history().subrange(0, i as int)),
                count <= i,
            decreases ALERT_HISTORY_LEN - i,
        {
            proof {
                assert(self.history().subrange(0, i + 1 as int).drop_last() =~= self.history()
                    .subrange(0, i as int));
            }
            if self.alert_history[i] {
                count = count + 1;
            }
            i = i + 1;
        }
        proof {
            assert(self.history().subrange(0, ALERT_HISTORY_LEN as int) =~= self.history());
        }
        count * 10
    }
}

} // verus!
