//! Statistics of the data kept in memory.
use vstd::prelude::*;
use crate::float_bits;
use crate::models::fan::FanState;
use crate::models::sensor::SensorReading;
use crate::named_map::NamedMap;
use crate::time::{seconds_between, Timestamp};

verus! {

/// A summary of the stored data.
#[derive(Debug)]
pub struct DataStats {
    /// Sensor readings stored.
    pub total_readings: usize,
    /// Bytes in use.
    pub memory_usage_bytes: usize,
    /// Bytes allowed before cleanup.
    pub memory_limit_bytes: usize,
    /// The oldest reading's instant.
    pub oldest_reading: Option<Timestamp>,
    /// The newest reading's instant.
    pub newest_reading: Option<Timestamp>,
    /// How long the session has been running.
    pub session_duration_seconds: u64,
    /// Cleanups of old data so far.
    pub cleanup_events: u64,
    /// Statistics of each sensor.
    pub sensors_by_id: NamedMap<SensorStats>,
    /// Statistics of each fan.
    pub fans_by_id: NamedMap<FanStats>,
}

/// Statistics of one sensor. Temperatures are `f64` bit patterns (see
/// [`crate::float_bits`]).
#[derive(Debug)]
pub struct SensorStats {
    /// Readings recorded.
    pub reading_count: usize,
    /// The most recent reading.
    pub last_reading: Option<SensorReading>,
    /// Mean temperature of all readings.
    pub avg_temperature: u64,
    /// Lowest temperature recorded.
    pub min_temperature: u64,
    /// Highest temperature recorded.
    pub max_temperature: u64,
    /// Errors or invalid readings.
    pub error_count: u32,
}

/// Statistics of one fan. The mean duty cycle is an `f64` bit pattern.
#[derive(Debug)]
pub struct FanStats {
    /// Changes of state recorded.
    pub state_changes: usize,
    /// The present state.
    pub current_state: Option<FanState>,
    /// Mean duty cycle over all states.
    pub avg_duty_cycle: u64,
    /// Seconds the fan has run (with a duty cycle above 0.0).
    pub total_runtime_seconds: u64,
}

/// How many entries of `s` satisfy `p`.
pub open spec fn count_where<V>(s: Seq<(Seq<char>, V)>, p: spec_fn(V) -> bool) -> nat
    decreases s.len(),
{
    if s.len() == 0 {
        0
    } else {
        count_where(s.drop_last(), p) + if p(s.last().1) {
            1nat
        } else {
            0nat
        }
    }
}

/// Sensors with at least one reading.
pub open spec fn sensor_is_active() -> spec_fn(SensorStats) -> bool {
    |s: SensorStats| s.reading_count > 0
}

/// Fans with at least one change of state.
pub open spec fn fan_is_active() -> spec_fn(FanStats) -> bool {
    |f: FanStats| f.state_changes > 0
}

/// Counts the entries of `map` that satisfy `p`.
fn count_entries<V>(map: &NamedMap<V>, Ghost(p): Ghost<spec_fn(V) -> bool>, test: impl Fn(&V) -> bool) -> (n: usize)
    requires
        forall|v: V| #[trigger] test.requires((&v,)),
        forall|v: V, b: bool| test.ensures((&v,), b) ==> b == p(v),
    ensures
        n == count_where(map@, p),
{
    let len = map.len();
    let mut n: usize = 0;
    let mut i: usize = 0;
    while i < len
        invariant
            len == map@.len(),
            i <= len,
            n == count_where(map@.take(i as int), p),
            n <= i,
            forall|v: V| #[trigger] test.requires((&v,)),
            forall|v: V, b: bool| test.ensures((&v,), b) ==> b == p(v),
        decreases len - i,
    {
        let v = map.value_at(i);
        assert(map@.take(i + 1).drop_last() =~= map@.take(i as int));
        if test(v) {
            n = n + 1;
        }
        i = i + 1;
    }
    assert(map@.take(len as int) =~= map@);
    n
}

impl DataStats {
    /// Empty statistics with the given memory limit.
    pub fn new(memory_limit_bytes: usize) -> (s: DataStats)
        ensures
            s.total_readings == 0,
            s.memory_usage_bytes == 0,
            s.memory_limit_bytes == memory_limit_bytes,
            s.oldest_reading is None,
            s.newest_reading is None,
            s.session_duration_seconds == 0,
            s.cleanup_events == 0,
            s.sensors_by_id@.len() == 0,
            s.fans_by_id@.len() == 0,
    {
        DataStats {
            total_readings: 0,
            memory_usage_bytes: 0,
            memory_limit_bytes,
            oldest_reading: None,
            newest_reading: None,
            session_duration_seconds: 0,
            cleanup_events: 0,
            sensors_by_id: NamedMap::new(),
            fans_by_id: NamedMap::new(),
        }
    }

    /// Whether more memory is in use than allowed.
    pub fn is_memory_limit_exceeded(&self) -> (r: bool)
        ensures
            r == (self.memory_usage_bytes > self.memory_limit_bytes),
    {
        self.memory_usage_bytes > self.memory_limit_bytes
    }

    /// Whole seconds from the oldest to the newest reading, when both are
    /// known.
    pub fn data_timespan_seconds(&self) -> (r: Option<i64>)
        ensures
            match (self.oldest_reading, self.newest_reading) {
                (Some(oldest), Some(newest)) => r == Some(seconds_between(newest@, oldest@) as i64),
                _ => r is None,
            },
    {
        match (&self.oldest_reading, &self.newest_reading) {
            (Some(oldest), Some(newest)) => Some(newest.whole_seconds_since(oldest)),
            _ => None,
        }
    }

    /// The number of sensors with readings.
    pub fn active_sensor_count(&self) -> (n: usize)
        ensures
            n == count_where(self.sensors_by_id@, sensor_is_active()),
    {
        count_entries(&self.sensors_by_id, Ghost(sensor_is_active()), |s: &SensorStats| -> (b: bool)
            ensures b == (s.reading_count > 0)
            { s.reading_count > 0 })
    }

    /// The number of fans with changes of state.
    pub fn active_fan_count(&self) -> (n: usize)
        ensures
            n == count_where(self.fans_by_id@, fan_is_active()),
    {
        count_entries(&self.fans_by_id, Ghost(fan_is_active()), |f: &FanStats| -> (b: bool)
            ensures b == (f.state_changes > 0)
            { f.state_changes > 0 })
    }
}

/// The lowest of the temperatures `ts`, taken in order as
/// [`SensorStats::record_reading`] takes them: the first, then each next one
/// through [`float_bits::min_value`].
pub open spec fn lowest_of(ts: Seq<u64>) -> u64
    decreases ts.len(),
{
    if ts.len() <= 1 {
        ts[0]
    } else {
        float_bits::min_value(lowest_of(ts.drop_last()), ts.last())
    }
}

/// The highest of the temperatures `ts`, taken in order as
/// [`SensorStats::record_reading`] takes them.
pub open spec fn highest_of(ts: Seq<u64>) -> u64
    decreases ts.len(),
{
    if ts.len() <= 1 {
        ts[0]
    } else {
        float_bits::max_value(highest_of(ts.drop_last()), ts.last())
    }
}

/// Over temperatures that are not NaN, the lowest and the highest that the
/// readings leave are among them, and every temperature lies between them.
pub proof fn law_extremes(ts: Seq<u64>)
    requires
        ts.len() > 0,
        forall|i: int| 0 <= i < ts.len() ==> !float_bits::is_nan(#[trigger] ts[i]),
    ensures
        exists|i: int| 0 <= i < ts.len() && lowest_of(ts) == ts[i],
        exists|i: int| 0 <= i < ts.len() && highest_of(ts) == ts[i],
        forall|i: int|
            0 <= i < ts.len() ==> float_bits::le(lowest_of(ts), #[trigger] ts[i])
                && float_bits::le(ts[i], highest_of(ts)),
    decreases ts.len(),
{
    if ts.len() == 1 {
        assert(lowest_of(ts) == ts[0]);
        assert(highest_of(ts) == ts[0]);
    } else {
        let p = ts.drop_last();
        let t = ts.last();
        assert(forall|i: int| 0 <= i < p.len() ==> p[i] == ts[i]);
        law_extremes(p);
        let lo = lowest_of(p);
        let hi = highest_of(p);
        let li = choose|i: int| 0 <= i < p.len() && lo == p[i];
        let hj = choose|i: int| 0 <= i < p.len() && hi == p[i];
        assert(!float_bits::is_nan(lo) && !float_bits::is_nan(hi));
        assert(!float_bits::is_nan(t));
        if float_bits::lt(t, lo) {
            assert(lowest_of(ts) == ts[ts.len() - 1]);
        } else {
            assert(lowest_of(ts) == ts[li]);
        }
        if float_bits::lt(hi, t) {
            assert(highest_of(ts) == ts[ts.len() - 1]);
        } else {
            assert(highest_of(ts) == ts[hj]);
        }
        assert forall|i: int| 0 <= i < ts.len() implies float_bits::le(lowest_of(ts), #[trigger] ts[i])
            && float_bits::le(ts[i], highest_of(ts)) by {
            float_bits::lemma_le_total_transitive(lowest_of(ts), lo, ts[i]);
            float_bits::lemma_le_total_transitive(ts[i], hi, highest_of(ts));
            if i < p.len() {
                assert(ts[i] == p[i]);
            }
        }
    }
}

/// The lowest temperature after recording `t` with `count` readings
/// already recorded and `lowest` their lowest: `t` itself for the first
/// reading, otherwise the smaller as `f64::min` takes it.
pub open spec fn next_lowest(count: usize, lowest: u64, t: u64) -> u64 {
    if count == 0 {
        t
    } else {
        float_bits::min_value(lowest, t)
    }
}

/// The highest temperature after recording `t`, as [`next_lowest`] does for
/// the lowest.
pub open spec fn next_highest(count: usize, highest: u64, t: u64) -> u64 {
    if count == 0 {
        t
    } else {
        float_bits::max_value(highest, t)
    }
}

/// Recording readings one by one keeps the extremes of all of them: when the
/// count is that of the temperatures `ts` recorded so far and the lowest and
/// highest are [`lowest_of`] and [`highest_of`] them (nothing is asked of them
/// before the first reading, as for [`SensorStats::new`]), recording `t` as
/// [`SensorStats::record_reading`] does gives the lowest and highest of `ts`
/// followed by `t`. With [`law_extremes`], after readings whose temperatures
/// are not NaN the two are their minimum and maximum.
pub proof fn law_record_readings(ts: Seq<u64>, count: usize, lowest: u64, highest: u64, t: u64)
    requires
        count == ts.len(),
        ts.len() > 0 ==> lowest == lowest_of(ts) && highest == highest_of(ts),
    ensures
        next_lowest(count, lowest, t) == lowest_of(ts.push(t)),
        next_highest(count, highest, t) == highest_of(ts.push(t)),
{
    assert(ts.push(t).drop_last() =~= ts);
    assert(ts.push(t).last() == t);
}

impl SensorStats {
    /// Statistics with no readings: mean 0.0, lowest +∞, highest −∞.
    pub fn new() -> (s: SensorStats)
        ensures
            s.reading_count == 0,
            s.last_reading is None,
            s.avg_temperature == float_bits::ZERO_BITS,
            s.min_temperature == float_bits::POS_INFINITY_BITS,
            s.max_temperature == float_bits::NEG_INFINITY_BITS,
            s.error_count == 0,
    {
        SensorStats {
            reading_count: 0,
            last_reading: None,
            avg_temperature: float_bits::ZERO_BITS,
            min_temperature: float_bits::POS_INFINITY_BITS,
            max_temperature: float_bits::NEG_INFINITY_BITS,
            error_count: 0,
        }
    }

    /// Records a reading: the count goes up, `reading` becomes the last one,
    /// and its temperature becomes the lowest and the highest (the first
    /// reading) or is taken into them as `f64::min` and `f64::max` do. The
    /// running mean is left to the caller.
    pub fn record_reading(&mut self, reading: &SensorReading)
        requires
            old(self).reading_count < usize::MAX,
        ensures
            final(self).reading_count == old(self).reading_count + 1,
            final(self).last_reading matches Some(r) && r.sensor_id == reading.sensor_id
                && r.timestamp@ == reading.timestamp@ && r.voltage == reading.voltage
                && r.temperature_celsius == reading.temperature_celsius && r.raw_adc_value
                == reading.raw_adc_value,
            final(self).min_temperature == next_lowest(
                old(self).reading_count,
                old(self).min_temperature,
                reading.temperature_celsius,
            ),
            final(self).max_temperature == next_highest(
                old(self).reading_count,
                old(self).max_temperature,
                reading.temperature_celsius,
            ),
            final(self).avg_temperature == old(self).avg_temperature,
            final(self).error_count == old(self).error_count,
    {
        let temp = reading.temperature_celsius;
        self.reading_count = self.reading_count + 1;
        self.last_reading = Some(reading.duplicate());
        if self.reading_count == 1 {
            self.min_temperature = temp;
            self.max_temperature = temp;
        } else {
            self.min_temperature = float_bits::bits_min(self.min_temperature, temp);
            self.max_temperature = float_bits::bits_max(self.max_temperature, temp);
        }
    }

    /// Records an error of the sensor.
    pub fn record_error(&mut self)
        requires
            old(self).error_count < u32::MAX,
        ensures
            final(self).error_count == old(self).error_count + 1,
            final(self).reading_count == old(self).reading_count,
            final(self).avg_temperature == old(self).avg_temperature,
            final(self).min_temperature == old(self).min_temperature,
            final(self).max_temperature == old(self).max_temperature,
            final(self).last_reading == old(self).last_reading,
    {
        self.error_count = self.error_count + 1;
    }

    /// Whether the last reading is less than 60 seconds old.
    pub fn has_recent_data(&self) -> (r: bool)
        ensures
            self.last_reading is None ==> !r,
            self.last_reading matches Some(reading) ==> exists|now: int|
                r == (#[trigger] seconds_between(now, reading.timestamp@) < 60),
    {
        match &self.last_reading {
            Some(reading) => reading.age_seconds() < 60,
            None => false,
        }
    }
}

impl Default for SensorStats {
    fn default() -> (s: SensorStats)
        ensures
            s.reading_count == 0,
            s.last_reading is None,
            s.avg_temperature == float_bits::ZERO_BITS,
            s.min_temperature == float_bits::POS_INFINITY_BITS,
            s.max_temperature == float_bits::NEG_INFINITY_BITS,
            s.error_count == 0,
    {
        SensorStats::new()
    }
}

/// The seconds of running that a change of state from `previous` to a state
/// set at `next` adds: the whole seconds between them when `previous` ran and
/// they are positive, none otherwise.
pub open spec fn runtime_added(previous: Option<FanState>, next: int) -> int {
    match previous {
        Some(last) => if float_bits::lt(float_bits::ZERO_BITS, last.duty_cycle) && seconds_between(
            next,
            last.timestamp@,
        ) > 0 {
            seconds_between(next, last.timestamp@)
        } else {
            0
        },
        None => 0,
    }
}

/// The running time that a change of state adds depends only on the
/// previous state's duty cycle and on the time since it: the whole seconds
/// elapsed when the fan was running (duty cycle above 0.0) and they are
/// positive, nothing otherwise, and nothing for the first state; the fan, its
/// frequency and whether it was set by hand play no part.
pub proof fn law_runtime(previous: FanState, other: FanState, next: int)
    requires
        other.duty_cycle == previous.duty_cycle,
        other.timestamp@ == previous.timestamp@,
    ensures
        runtime_added(None, next) == 0,
        float_bits::lt(float_bits::ZERO_BITS, previous.duty_cycle) && seconds_between(
            next,
            previous.timestamp@,
        ) > 0 ==> runtime_added(Some(previous), next) == seconds_between(next, previous.timestamp@),
        !float_bits::lt(float_bits::ZERO_BITS, previous.duty_cycle) ==> runtime_added(Some(previous), next)
            == 0,
        seconds_between(next, previous.timestamp@) <= 0 ==> runtime_added(Some(previous), next) == 0,
        runtime_added(Some(other), next) == runtime_added(Some(previous), next),
{
}

impl FanStats {
    /// Statistics with no changes of state.
    pub fn new() -> (f: FanStats)
        ensures
            f.state_changes == 0,
            f.current_state is None,
            f.avg_duty_cycle == float_bits::ZERO_BITS,
            f.total_runtime_seconds == 0,
    {
        FanStats {
            state_changes: 0,
            current_state: None,
            avg_duty_cycle: float_bits::ZERO_BITS,
            total_runtime_seconds: 0,
        }
    }

    /// Records a change of state: the time the fan ran since the previous
    /// state is added, the count goes up, and `state` becomes the present
    /// state. The mean duty cycle is left to the caller.
    pub fn record_state_change(&mut self, state: &FanState)
        requires
            old(self).state_changes < usize::MAX,
            old(self).total_runtime_seconds + runtime_added(old(self).current_state, state.timestamp@)
                <= u64::MAX,
        ensures
            final(self).total_runtime_seconds == old(self).total_runtime_seconds + runtime_added(
                old(self).current_state,
                state.timestamp@,
            ),
            final(self).state_changes == old(self).state_changes + 1,
            final(self).current_state matches Some(s) && s.fan_id == state.fan_id && s.duty_cycle
                == state.duty_cycle && s.pwm_frequency_hz == state.pwm_frequency_hz
                && s.timestamp@ == state.timestamp@ && s.is_manual_override == state.is_manual_override,
            final(self).avg_duty_cycle == old(self).avg_duty_cycle,
    {
        if let Some(last_state) = &self.current_state {
            if last_state.is_running() {
                let runtime_delta = state.timestamp.whole_seconds_since(&last_state.timestamp);
                if runtime_delta > 0 {
                    self.total_runtime_seconds = self.total_runtime_seconds + runtime_delta as u64;
                }
            }
        }
        self.state_changes = self.state_changes + 1;
        self.current_state = Some(state.duplicate());
    }

    /// Whether the present state runs the fan.
    pub fn is_currently_running(&self) -> (r: bool)
        ensures
            r == match self.current_state {
                Some(s) => float_bits::lt(float_bits::ZERO_BITS, s.duty_cycle),
                None => false,
            },
    {
        match &self.current_state {
            Some(state) => state.is_running(),
            None => false,
        }
    }

    /// Whether the present state was set less than five minutes ago.
    pub fn has_recent_activity(&self) -> (r: bool)
        ensures
            self.current_state is None ==> !r,
            self.current_state matches Some(state) ==> exists|now: int|
                r == (#[trigger] seconds_between(now, state.timestamp@) < 300),
    {
        match &self.current_state {
            Some(state) => state.age_seconds() < 300,
            None => false,
        }
    }
}

impl Default for FanStats {
    fn default() -> (f: FanStats)
        ensures
            f.state_changes == 0,
            f.current_state is None,
            f.avg_duty_cycle == float_bits::ZERO_BITS,
            f.total_runtime_seconds == 0,
    {
        FanStats::new()
    }
}

} // verus!
