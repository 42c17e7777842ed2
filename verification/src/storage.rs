//! Ring storage: a fixed-capacity circular buffer of readings with
//! wraparound-correct retrieval of the latest entry and windowed
//! averaging over the most recent entries.
//!
//! The buffer holds [`RING_CAPACITY`] slots. A write cursor walks the
//! slots and wraps to the front; once it has wrapped, the buffer is full
//! and every store overwrites the oldest reading. The logical contents —
//! oldest first — are the model every contract here speaks of.

use vstd::prelude::*;
use crate::math::{div_trunc, div_trunc_i64, lemma_div_trunc_bounds};
use crate::sensor::{EnvironmentalData, SensorType};

verus! {

/// Number of reading slots the ring holds.
pub const RING_CAPACITY: usize = 50;

/// What storing one reading does to the logical contents: appends it,
/// dropping the oldest reading first when the ring is at capacity.
pub open spec fn ring_push(s: Seq<EnvironmentalData>, e: EnvironmentalData) -> Seq<
    EnvironmentalData,
> {
    if s.len() < RING_CAPACITY {
        s.push(e)
    } else {
        s.skip(1).push(e)
    }
}

/// One field of a reading, selected by channel, as a mathematical
/// integer in that channel's fixed-point unit.
pub open spec fn field_of(e: EnvironmentalData, channel: SensorType) -> int {
    match channel {
        SensorType::Temperature => e.temperature as int,
        SensorType::Humidity => e.humidity as int,
        SensorType::AirQuality => e.air_quality as int,
        SensorType::Pressure => e.pressure as int,
    }
}

/// Sum of one channel's field over a sequence of readings.
pub open spec fn sum_field(s: Seq<EnvironmentalData>, channel: SensorType) -> int
    decreases s.len(),
{
    if s.len() == 0 {
        0
    } else {
        sum_field(s.drop_last(), channel) + field_of(s.last(), channel)
    }
}

/// The reading produced by averaging the last `k` entries of `s`
/// field by field (truncating division), stamped with `timestamp`.
pub open spec fn average_of(s: Seq<EnvironmentalData>, k: int, timestamp: u32) -> EnvironmentalData
    recommends
        1 <= k <= s.len(),
{
    let w = s.subrange(s.len() - k, s.len() as int);
    EnvironmentalData {
        temperature: div_trunc(sum_field(w, SensorType::Temperature), k) as i32,
        humidity: div_trunc(sum_field(w, SensorType::Humidity), k) as i32,
        air_quality: div_trunc(sum_field(w, SensorType::AirQuality), k) as i32,
        pressure: div_trunc(sum_field(w, SensorType::Pressure), k) as i32,
        timestamp,
    }
}

/// The logical contents after a series of stores into an initially
/// empty ring, in the order the readings were stored.
pub open spec fn ring_of(rs: Seq<EnvironmentalData>) -> Seq<EnvironmentalData>
    decreases rs.len(),
{
    if rs.len() == 0 {
        Seq::empty()
    } else {
        ring_push(ring_of(rs.drop_last()), rs.last())
    }
}

/// Law: while at most [`RING_CAPACITY`] readings have been stored, the
/// ring holds every one of them in storage order — so after `k` stores
/// the latest reading is exactly the `k`-th one stored, and nothing has
/// been evicted. (`store_data` makes the contents `ring_push` of what
/// they were, so `ring_of` is the contents after the stores `rs`.)
pub proof fn lemma_ring_keeps_first_fill(rs: Seq<EnvironmentalData>)
    requires
        rs.len() <= RING_CAPACITY,
    ensures
        ring_of(rs) == rs,
    decreases rs.len(),
{
    if rs.len() == 0 {
        assert(ring_of(rs) =~= rs);
    } else {
        lemma_ring_keeps_first_fill(rs.drop_last());
        assert(ring_of(rs) =~= rs);
    }
}

/// Law: the store after the ring first becomes full evicts exactly the
/// oldest reading: after `RING_CAPACITY + 1` stores the contents are
/// the stores minus the very first one, so the latest reading is still
/// the most recent store while the first has been overwritten.
pub proof fn lemma_ring_overwrites_oldest(rs: Seq<EnvironmentalData>)
    requires
        rs.len() == RING_CAPACITY + 1,
    ensures
        ring_of(rs) == rs.subrange(1, rs.len() as int),
{
    lemma_ring_keeps_first_fill(rs.drop_last());
    assert(ring_of(rs) =~= rs.subrange(1, rs.len() as int));
}

/// Law: averaging any window of a ring whose readings all carry the
/// same values yields those values exactly, for every field; only the
/// timestamp is replaced by the averaging time.
pub proof fn lemma_average_constant(
    s: Seq<EnvironmentalData>,
    k: int,
    v: EnvironmentalData,
    timestamp: u32,
)
    requires
        1 <= k <= s.len(),
        forall|i: int| 0 <= i < s.len() ==> s[i] == v,
    ensures
        average_of(s, k, timestamp) == (EnvironmentalData {
            temperature: v.temperature,
            humidity: v.humidity,
            air_quality: v.air_quality,
            pressure: v.pressure,
            timestamp,
        }),
{
    let w = s.subrange(s.len() - k, s.len() as int);
    assert(forall|i: int| 0 <= i < w.len() ==> w[i] == v);
    lemma_sum_field_constant(w, v, SensorType::Temperature);
    lemma_sum_field_constant(w, v, SensorType::Humidity);
    lemma_sum_field_constant(w, v, SensorType::AirQuality);
    lemma_sum_field_constant(w, v, SensorType::Pressure);
    crate::math::lemma_div_trunc_multiple(field_of(v, SensorType::Temperature), k);
    crate::math::lemma_div_trunc_multiple(field_of(v, SensorType::Humidity), k);
    crate::math::lemma_div_trunc_multiple(field_of(v, SensorType::AirQuality), k);
    crate::math::lemma_div_trunc_multiple(field_of(v, SensorType::Pressure), k);
}

/// Summing one channel over readings that all equal `v` multiplies that
/// channel's field by the number of readings.
pub proof fn lemma_sum_field_constant(
    s: Seq<EnvironmentalData>,
    v: EnvironmentalData,
    channel: SensorType,
)
    requires
        forall|i: int| 0 <= i < s.len() ==> s[i] == v,
    ensures
        sum_field(s, channel) == s.len() * field_of(v, channel),
    decreases s.len(),
{
    let f = field_of(v, channel);
    if s.len() == 0 {
    } else {
        lemma_sum_field_constant(s.drop_last(), v, channel);
        assert((s.len() - 1) * f + f == s.len() * f) by (nonlinear_arith);
    }
}

/// Fixed-capacity circular reading store.
pub struct DataStorage {
    data_buffer: Vec<EnvironmentalData>,
    write_index: usize,
    is_full: bool,
}

impl DataStorage {
    /// Representation invariant: the backing vector always holds exactly
    /// one element per slot and the cursor points at a slot.
    pub closed spec fn wf(self) -> bool {
        self.data_buffer@.len() == RING_CAPACITY && self.write_index < RING_CAPACITY
    }

    /// Whether the cursor has wrapped at least once, i.e. every slot
    /// holds a stored reading.
    pub closed spec fn full(self) -> bool {
        self.is_full
    }

    /// The stored readings, oldest first.
    pub closed spec fn contents(self) -> Seq<EnvironmentalData> {
        if self.is_full {
            self.data_buffer@.subrange(self.write_index as int, RING_CAPACITY as int).add(
                self.data_buffer@.subrange(0, self.write_index as int),
            )
        } else {
            self.data_buffer@.subrange(0, self.write_index as int)
        }
    }

    /// An empty ring.
    pub fn new() -> (s: Self)
        ensures
            s.wf(),
            !s.full(),
            s.contents() == Seq::<EnvironmentalData>::empty(),
    {
        let blank = EnvironmentalData {
            temperature: 0,
            humidity: 0,
            air_quality: 0,
            pressure: 0,
            timestamp: 0,
        };
        let mut data_buffer: Vec<EnvironmentalData> = Vec::new();
        let mut i: usize = 0;
        while i < RING_CAPACITY
            invariant
                data_buffer@.len() == i,
                i <= RING_CAPACITY,
            decreases RING_CAPACITY - i,
        {
            data_buffer.push(blank);
            i = i + 1;
        }
        let s = DataStorage { data_buffer, write_index: 0, is_full: false };
        proof {
            assert(s.contents() =~= Seq::<EnvironmentalData>::empty());
        }
        s
    }

    /// Writes the reading at the cursor, advances the cursor with
    /// wraparound, and raises the full flag the instant the cursor wraps:
    /// the logical effect is appending, evicting the oldest reading once
    /// the ring is at capacity.
    pub fn store_data(&mut self, data: EnvironmentalData)
        requires
            old(self).wf(),
        ensures
            final(self).wf(),
            final(self).contents() == ring_push(old(self).contents(), data),
            final(self).full() <==> (old(self).full() || old(self).contents().len() + 1
                == RING_CAPACITY),
    {
        let wi = self.write_index;
        self.data_buffer.set(wi, data);
        self.write_index = (wi + 1) % RING_CAPACITY;
        if self.write_index == 0 {
            self.is_full = true;
        }
        proof {
            assert(final(self).contents() =~= ring_push(old(self).contents(), data));
        }
    }

    /// The most recently stored reading; nothing only when nothing has
    /// ever been stored.
    pub fn get_latest_data(&self) -> (r: Option<EnvironmentalData>)
        requires
            self.wf(),
        ensures
            self.contents().len() == 0 ==> r is None,
            self.contents().len() > 0 ==> r == Some(self.contents().last()),
    {
        if self.write_index == 0 && !self.is_full {
            return None;
        }
        let idx = if self.write_index == 0 {
            RING_CAPACITY - 1
        } else {
            self.write_index - 1
        };
        Some(self.data_buffer[idx])
    }

    /// Averages the `count` most recent readings field by field, stamped
    /// with the time of the call rather than of any stored sample.
    ///
    /// Nothing is returned when `count` is zero or beyond the capacity,
    /// or when nothing has been stored yet. A window wider than what has
    /// been stored so far is capped to the stored readings, so slots
    /// never written are never averaged over.
    pub fn get_average_data(&self, count: usize, timestamp: u32) -> (r: Option<EnvironmentalData>)
        requires
            self.wf(),
        ensures
            r is None <==> (count == 0 || count > RING_CAPACITY || self.contents().len() == 0),
            r matches Some(d) ==> d == average_of(
                self.contents(),
                if count <= self.contents().len() {
                    count as int
                } else {
                    self.contents().len() as int
                },
                timestamp,
            ),
    {
        if count == 0 || count > RING_CAPACITY {
            return None;
        }
        let stored: usize = if self.is_full {
            RING_CAPACITY
        } else {
            self.write_index
        };
        if stored == 0 {
            return None;
        }
        let k: usize = if count > stored {
            stored
        } else {
            count
        };
        // The window's first slot, `count` steps behind the cursor with
        // wraparound; no written slot lies more than one lap behind.
        let start: usize = if self.write_index >= k {
            self.write_index - k
        } else {
            self.write_index + RING_CAPACITY - k
        };
        let ghost w = self.contents().subrange(
            self.contents().len() - k,
            self.contents().len() as int,
        );
        let mut sum_temperature: i64 = 0;
        let mut sum_humidity: i64 = 0;
        let mut sum_air_quality: i64 = 0;
        let mut sum_pressure: i64 = 0;
        let mut i: usize = 0;
        while i < k
            invariant
                self.wf(),
                1 <= k <= stored <= RING_CAPACITY,
                stored == self.contents().len(),
                stored == if self.full() {
                    RING_CAPACITY as int
                } else {
                    self.write_index as int
                },
                start == if self.write_index >= k {
                    self.write_index - k
                } else {
                    self.write_index + RING_CAPACITY - k
                },
                w == self.contents().subrange(
                    self.contents().len() - k,
                    self.contents().len() as int,
                ),
                i <= k,
                sum_temperature == sum_field(w.subrange(0, i as int), SensorType::Temperature),
                sum_humidity == sum_field(w.subrange(0, i as int), SensorType::Humidity),
                sum_air_quality == sum_field(w.subrange(0, i as int), SensorType::AirQuality),
                sum_pressure == sum_field(w.subrange(0, i as int), SensorType::Pressure),
                -((i as int) * 0x8000_0000) <= sum_temperature <= (i as int) * 0x7FFF_FFFF,
                -((i as int) * 0x8000_0000) <= sum_humidity <= (i as int) * 0x7FFF_FFFF,
                -((i as int) * 0x8000_0000) <= sum_air_quality <= (i as int) * 0x7FFF_FFFF,
                -((i as int) * 0x8000_0000) <= sum_pressure <= (i as int) * 0x7FFF_FFFF,
            decreases k - i,
        {
            let idx: usize = if start + i >= RING_CAPACITY {
                start + i - RING_CAPACITY
            } else {
                start + i
            };
            let e = self.data_buffer[idx];
            proof {
                assert(e == w[i as int]);
                assert(w.subrange(0, i + 1 as int).drop_last() =~= w.subrange(0, i as int));
                assert(w.subrange(0, i + 1 as int).last() == w[i as int]);
            }
            sum_temperature = sum_temperature + e.temperature as i64;
            sum_humidity = sum_humidity + e.humidity as i64;
            sum_air_quality = sum_air_quality + e.air_quality as i64;
            sum_pressure = sum_pressure + e.pressure as i64;
            i = i + 1;
        }
        proof {
            assert(w.subrange(0, k as int) =~= w);
            lemma_div_trunc_bounds(sum_temperature as int, k as int, -0x8000_0000, 0x7FFF_FFFF);
            lemma_div_trunc_bounds(sum_humidity as int, k as int, -0x8000_0000, 0x7FFF_FFFF);
            lemma_div_trunc_bounds(sum_air_quality as int, k as int, -0x8000_0000, 0x7FFF_FFFF);
            lemma_div_trunc_bounds(sum_pressure as int, k as int, -0x8000_0000, 0x7FFF_FFFF);
        }
        Some(
            EnvironmentalData {
                temperature: div_trunc_i64(sum_temperature, k as u64) as i32,
                humidity: div_trunc_i64(sum_humidity, k as u64) as i32,
                air_quality: div_trunc_i64(sum_air_quality, k as u64) as i32,
                pressure: div_trunc_i64(sum_pressure, k as u64) as i32,
                timestamp,
            },
        )
    }
}

} // verus!
