//! Responses and requests of the web API.
use vstd::prelude::*;
use crate::float_bits;
use crate::models::alarm::{severity_of, AlarmEvent, AlarmSeverity};
use crate::models::fan::FanState;
use crate::models::sensor::SensorReading;
use crate::models::stats::{count_where, DataStats};
use crate::named_map::{lookup, NamedMap};
use crate::time::Timestamp;

verus! {

/// The values of the entries of `s` that satisfy `p`, in order.
pub open spec fn values_where<V>(s: Seq<(Seq<char>, V)>, p: spec_fn(V) -> bool) -> Seq<V>
    decreases s.len(),
{
    if s.len() == 0 {
        Seq::empty()
    } else if p(s.last().1) {
        values_where(s.drop_last(), p).push(s.last().1)
    } else {
        values_where(s.drop_last(), p)
    }
}

/// The largest of the values, taken in order as `Iterator::max_by` with
/// `partial_cmp` (a NaN compares equal) takes it: a later value replaces the
/// one kept unless the one kept is greater.
pub open spec fn max_in_order(s: Seq<u64>) -> Option<u64>
    decreases s.len(),
{
    if s.len() == 0 {
        None
    } else {
        match max_in_order(s.drop_last()) {
            None => Some(s.last()),
            Some(m) => if float_bits::lt(s.last(), m) {
                Some(m)
            } else {
                Some(s.last())
            },
        }
    }
}

/// The smallest of the values, taken in order as `Iterator::min_by` with
/// `partial_cmp` takes it: a later value replaces the one kept only if the
/// one kept is greater.
pub open spec fn min_in_order(s: Seq<u64>) -> Option<u64>
    decreases s.len(),
{
    if s.len() == 0 {
        None
    } else {
        match min_in_order(s.drop_last()) {
            None => Some(s.last()),
            Some(m) => if float_bits::lt(s.last(), m) {
                Some(s.last())
            } else {
                Some(m)
            },
        }
    }
}

/// The highest and the lowest of the values exist exactly when there are
/// values; when none is NaN, the highest is one of them and none is above it,
/// and the lowest is one of them and none is below it.
pub proof fn law_extreme_values(s: Seq<u64>)
    ensures
        max_in_order(s) is None <==> s.len() == 0,
        min_in_order(s) is None <==> s.len() == 0,
        (forall|i: int| 0 <= i < s.len() ==> !float_bits::is_nan(#[trigger] s[i])) && s.len() > 0
            ==> {
            &&& exists|i: int| 0 <= i < s.len() && max_in_order(s) == Some(s[i])
            &&& exists|i: int| 0 <= i < s.len() && min_in_order(s) == Some(s[i])
            &&& forall|i: int|
                0 <= i < s.len() ==> float_bits::le(#[trigger] s[i], max_in_order(s)->0)
                    && float_bits::le(min_in_order(s)->0, s[i])
        },
    decreases s.len(),
{
    if s.len() > 0 {
        let p = s.drop_last();
        let t = s.last();
        law_extreme_values(p);
        if (forall|i: int| 0 <= i < s.len() ==> !float_bits::is_nan(#[trigger] s[i])) {
            assert(forall|i: int| 0 <= i < p.len() ==> p[i] == s[i]);
            assert(!float_bits::is_nan(s[s.len() - 1]));
            if p.len() == 0 {
                assert(max_in_order(s) == Some(s[0]));
                assert(min_in_order(s) == Some(s[0]));
            } else {
                let hi = max_in_order(p)->0;
                let lo = min_in_order(p)->0;
                let hj = choose|i: int| 0 <= i < p.len() && max_in_order(p) == Some(p[i]);
                let lj = choose|i: int| 0 <= i < p.len() && min_in_order(p) == Some(p[i]);
                assert(!float_bits::is_nan(p[hj]) && !float_bits::is_nan(p[lj]));
                if float_bits::lt(t, hi) {
                    assert(max_in_order(s) == Some(s[hj]));
                } else {
                    assert(max_in_order(s) == Some(s[s.len() - 1]));
                }
                if float_bits::lt(t, lo) {
                    assert(min_in_order(s) == Some(s[s.len() - 1]));
                } else {
                    assert(min_in_order(s) == Some(s[lj]));
                }
                assert forall|i: int| 0 <= i < s.len() implies float_bits::le(
                    #[trigger] s[i],
                    max_in_order(s)->0,
                ) && float_bits::le(min_in_order(s)->0, s[i]) by {
                    float_bits::lemma_le_total_transitive(s[i], hi, max_in_order(s)->0);
                    float_bits::lemma_le_total_transitive(min_in_order(s)->0, lo, s[i]);
                    float_bits::lemma_le_total_transitive(t, hi, t);
                    if i < p.len() {
                        assert(s[i] == p[i]);
                    }
                }
            }
        }
    }
}

/// The temperatures of the readings, in order.
pub open spec fn temperatures(s: Seq<(Seq<char>, SensorReading)>) -> Seq<u64> {
    s.map_values(|e: (Seq<char>, SensorReading)| e.1.temperature_celsius)
}

/// A reply of the API: data on success, a message on failure.
#[derive(Debug)]
pub struct ApiResponse<T> {
    pub success: bool,
    pub data: Option<T>,
    pub error: Option<String>,
    /// When the reply was made.
    pub timestamp: Timestamp,
}

impl<T> ApiResponse<T> {
    /// A successful reply carrying `data`.
    pub fn success(data: T) -> (r: ApiResponse<T>)
        ensures
            r.success,
            r.data == Some(data),
            r.error is None,
    {
        ApiResponse { success: true, data: Some(data), error: None, timestamp: Timestamp::now() }
    }

    /// A failed reply with `error_message`.
    pub fn error(error_message: String) -> (r: ApiResponse<T>)
        ensures
            !r.success,
            r.data is None,
            r.error == Some(error_message),
    {
        ApiResponse { success: false, data: None, error: Some(error_message), timestamp: Timestamp::now() }
    }

    /// A failed reply whose message is the error's `Display` text.
    pub fn from_error<E: std::fmt::Display>(error: E) -> (r: ApiResponse<T>)
        ensures
            !r.success,
            r.data is None,
            r.error matches Some(m) && vstd::string::to_string_from_display_ensures::<E>(&error, m),
    {
        ApiResponse::error(error.to_string())
    }
}

/// The latest reading of each probe.
#[derive(Debug)]
pub struct SensorsResponse {
    pub sensors: NamedMap<SensorReading>,
    pub timestamp: Timestamp,
}

impl SensorsResponse {
    /// A reply with `sensors`, made now.
    pub fn new(sensors: NamedMap<SensorReading>) -> (r: SensorsResponse)
        ensures
            r.sensors == sensors,
    {
        SensorsResponse { sensors, timestamp: Timestamp::now() }
    }

    /// A reply with no probes.
    pub fn empty() -> (r: SensorsResponse)
        ensures
            r.sensors@.len() == 0,
    {
        SensorsResponse::new(NamedMap::new())
    }

    /// The number of probes.
    pub fn sensor_count(&self) -> (n: usize)
        ensures
            n == self.sensors@.len(),
    {
        self.sensors.len()
    }

    /// Whether probe `sensor_id` is in the reply.
    pub fn has_sensor(&self, sensor_id: &str) -> (r: bool)
        ensures
            r == (lookup(self.sensors@, sensor_id@) is Some),
    {
        self.sensors.contains_key(sensor_id)
    }

    /// The highest temperature, if there is a probe.
    pub fn max_temperature(&self) -> (r: Option<u64>)
        ensures
            r == max_in_order(temperatures(self.sensors@)),
    {
        let ghost temps = temperatures(self.sensors@);
        let n = self.sensors.len();
        let mut best: Option<u64> = None;
        let mut i: usize = 0;
        while i < n
            invariant
                n == self.sensors@.len(),
                temps == temperatures(self.sensors@),
                i <= n,
                best == max_in_order(temps.take(i as int)),
            decreases n - i,
        {
            let t = self.sensors.value_at(i).temperature_celsius;
            assert(temps.take(i + 1).drop_last() =~= temps.take(i as int));
            best = match best {
                None => Some(t),
                Some(m) => if float_bits::bits_lt(t, m) {
                    Some(m)
                } else {
                    Some(t)
                },
            };
            i = i + 1;
        }
        assert(temps.take(n as int) =~= temps);
        best
    }

    /// The lowest temperature, if there is a probe.
    pub fn min_temperature(&self) -> (r: Option<u64>)
        ensures
            r == min_in_order(temperatures(self.sensors@)),
    {
        let ghost temps = temperatures(self.sensors@);
        let n = self.sensors.len();
        let mut best: Option<u64> = None;
        let mut i: usize = 0;
        while i < n
            invariant
                n == self.sensors@.len(),
                temps == temperatures(self.sensors@),
                i <= n,
                best == min_in_order(temps.take(i as int)),
            decreases n - i,
        {
            let t = self.sensors.value_at(i).temperature_celsius;
            assert(temps.take(i + 1).drop_last() =~= temps.take(i as int));
            best = match best {
                None => Some(t),
                Some(m) => if float_bits::bits_lt(t, m) {
                    Some(t)
                } else {
                    Some(m)
                },
            };
            i = i + 1;
        }
        assert(temps.take(n as int) =~= temps);
        best
    }
}

/// The state of each fan.
#[derive(Debug)]
pub struct FansResponse {
    pub fans: NamedMap<FanState>,
    pub timestamp: Timestamp,
}

/// Fans with a duty cycle above 0.0.
pub open spec fn fan_runs() -> spec_fn(FanState) -> bool {
    |f: FanState| float_bits::lt(float_bits::ZERO_BITS, f.duty_cycle)
}

/// Fans set by hand.
pub open spec fn fan_is_manual() -> spec_fn(FanState) -> bool {
    |f: FanState| f.is_manual_override
}

impl FansResponse {
    /// A reply with `fans`, made now.
    pub fn new(fans: NamedMap<FanState>) -> (r: FansResponse)
        ensures
            r.fans == fans,
    {
        FansResponse { fans, timestamp: Timestamp::now() }
    }

    /// A reply with no fans.
    pub fn empty() -> (r: FansResponse)
        ensures
            r.fans@.len() == 0,
    {
        FansResponse::new(NamedMap::new())
    }

    /// The number of fans.
    pub fn fan_count(&self) -> (n: usize)
        ensures
            n == self.fans@.len(),
    {
        self.fans.len()
    }

    /// Whether fan `fan_id` is in the reply.
    pub fn has_fan(&self, fan_id: &str) -> (r: bool)
        ensures
            r == (lookup(self.fans@, fan_id@) is Some),
    {
        self.fans.contains_key(fan_id)
    }

    /// The number of fans that run.
    pub fn running_fan_count(&self) -> (n: usize)
        ensures
            n == count_where(self.fans@, fan_runs()),
    {
        let len = self.fans.len();
        let mut n: usize = 0;
        let mut i: usize = 0;
        while i < len
            invariant
                len == self.fans@.len(),
                i <= len,
                n <= i,
                n == count_where(self.fans@.take(i as int), fan_runs()),
            decreases len - i,
        {
            assert(self.fans@.take(i + 1).drop_last() =~= self.fans@.take(i as int));
            if self.fans.value_at(i).is_running() {
                n = n + 1;
            }
            i = i + 1;
        }
        assert(self.fans@.take(len as int) =~= self.fans@);
        n
    }

    /// The fans set by hand, in order.
    pub fn manual_override_fans(&self) -> (r: Vec<&FanState>)
        ensures
            r@.map_values(|f: &FanState| *f) == values_where(self.fans@, fan_is_manual()),
    {
        let len = self.fans.len();
        let mut out: Vec<&FanState> = Vec::new();
        let mut i: usize = 0;
        while i < len
            invariant
                len == self.fans@.len(),
                i <= len,
                out@.map_values(|f: &FanState| *f) == values_where(self.fans@.take(i as int), fan_is_manual()),
            decreases len - i,
        {
            assert(self.fans@.take(i + 1).drop_last() =~= self.fans@.take(i as int));
            let f = self.fans.value_at(i);
            if f.is_manual_override {
                out.push(f);
            }
            assert(out@.map_values(|f: &FanState| *f) =~= values_where(self.fans@.take(i + 1), fan_is_manual()));
            i = i + 1;
        }
        assert(self.fans@.take(len as int) =~= self.fans@);
        out
    }
}

/// The alarm events, with how many are raised.
#[derive(Debug)]
pub struct AlarmsResponse {
    pub alarms: NamedMap<AlarmEvent>,
    /// Alarms currently raised.
    pub active_count: usize,
    pub timestamp: Timestamp,
}

/// Raised alarms.
pub open spec fn alarm_is_raised() -> spec_fn(AlarmEvent) -> bool {
    |a: AlarmEvent| a.triggered
}

/// Alarms raised and not acknowledged.
pub open spec fn alarm_needs_attention() -> spec_fn(AlarmEvent) -> bool {
    |a: AlarmEvent| a.triggered && !a.acknowledged
}

/// Alarms of the given severity.
pub open spec fn alarm_has_severity(severity: AlarmSeverity) -> spec_fn(AlarmEvent) -> bool {
    |a: AlarmEvent| severity_of(a.trigger_count) == severity
}

proof fn lemma_values_where_len<V>(s: Seq<(Seq<char>, V)>, p: spec_fn(V) -> bool)
    ensures
        values_where(s, p).len() == count_where(s, p),
    decreases s.len(),
{
    if s.len() > 0 {
        lemma_values_where_len(s.drop_last(), p);
    }
}

/// The alarms of `map` that satisfy `p`, in order.
fn alarms_where<'a>(map: &'a NamedMap<AlarmEvent>, Ghost(p): Ghost<spec_fn(AlarmEvent) -> bool>, test: impl Fn(&AlarmEvent) -> bool) -> (r: Vec<&'a AlarmEvent>)
    requires
        forall|a: AlarmEvent| #[trigger] test.requires((&a,)),
        forall|a: AlarmEvent, b: bool| test.ensures((&a,), b) ==> b == p(a),
    ensures
        r@.map_values(|a: &AlarmEvent| *a) == values_where(map@, p),
{
    let len = map.len();
    let mut out: Vec<&AlarmEvent> = Vec::new();
    let mut i: usize = 0;
    while i < len
        invariant
            len == map@.len(),
            i <= len,
            out@.map_values(|a: &AlarmEvent| *a) == values_where(map@.take(i as int), p),
            forall|a: AlarmEvent| #[trigger] test.requires((&a,)),
            forall|a: AlarmEvent, b: bool| test.ensures((&a,), b) ==> b == p(a),
        decreases len - i,
    {
        assert(map@.take(i + 1).drop_last() =~= map@.take(i as int));
        let a = map.value_at(i);
        if test(a) {
            out.push(a);
        }
        assert(out@.map_values(|a: &AlarmEvent| *a) =~= values_where(map@.take(i + 1), p));
        i = i + 1;
    }
    assert(map@.take(len as int) =~= map@);
    out
}

impl AlarmsResponse {
    /// A reply with `alarms`, made now, counting those raised.
    pub fn new(alarms: NamedMap<AlarmEvent>) -> (r: AlarmsResponse)
        ensures
            r.alarms == alarms,
            r.active_count == count_where(alarms@, alarm_is_raised()),
    {
        let raised = alarms_where(&alarms, Ghost(alarm_is_raised()), |a: &AlarmEvent| -> (b: bool)
            ensures b == a.triggered
            { a.triggered });
        proof {
            lemma_values_where_len(alarms@, alarm_is_raised());
        }
        let active_count = raised.len();
        AlarmsResponse { alarms, active_count, timestamp: Timestamp::now() }
    }

    /// A reply with no alarms.
    pub fn empty() -> (r: AlarmsResponse)
        ensures
            r.alarms@.len() == 0,
            r.active_count == 0,
    {
        AlarmsResponse::new(NamedMap::new())
    }

    /// The number of alarms.
    pub fn total_alarm_count(&self) -> (n: usize)
        ensures
            n == self.alarms@.len(),
    {
        self.alarms.len()
    }

    /// The alarms raised and not acknowledged, in order.
    pub fn alarms_needing_attention(&self) -> (r: Vec<&AlarmEvent>)
        ensures
            r@.map_values(|a: &AlarmEvent| *a) == values_where(self.alarms@, alarm_needs_attention()),
    {
        alarms_where(&self.alarms, Ghost(alarm_needs_attention()), |a: &AlarmEvent| -> (b: bool)
            ensures b == (a.triggered && !a.acknowledged)
            { a.needs_attention() })
    }

    /// The number of alarms raised and not acknowledged.
    pub fn attention_count(&self) -> (n: usize)
        ensures
            n == count_where(self.alarms@, alarm_needs_attention()),
    {
        let v = self.alarms_needing_attention();
        proof {
            lemma_values_where_len(self.alarms@, alarm_needs_attention());
        }
        v.len()
    }

    /// Whether some raised alarm is critical.
    pub fn has_critical_alarms(&self) -> (r: bool)
        ensures
            r == exists|i: int|
                0 <= i < self.alarms@.len() && (#[trigger] self.alarms@[i]).1.triggered && severity_of(
                    self.alarms@[i].1.trigger_count,
                ) == AlarmSeverity::Critical,
    {
        let len = self.alarms.len();
        let mut i: usize = 0;
        while i < len
            invariant
                len == self.alarms@.len(),
                i <= len,
                forall|j: int|
                    0 <= j < i ==> !((#[trigger] self.alarms@[j]).1.triggered && severity_of(
                        self.alarms@[j].1.trigger_count,
                    ) == AlarmSeverity::Critical),
            decreases len - i,
        {
            let a = self.alarms.value_at(i);
            if a.triggered && a.severity_level() == AlarmSeverity::Critical {
                assert(self.alarms@[i as int].1 == *a);
                return true;
            }
            i = i + 1;
        }
        false
    }

    /// The alarms of `severity`, in order.
    pub fn alarms_by_severity(&self, severity: AlarmSeverity) -> (r: Vec<&AlarmEvent>)
        ensures
            r@.map_values(|a: &AlarmEvent| *a) == values_where(self.alarms@, alarm_has_severity(severity)),
    {
        alarms_where(&self.alarms, Ghost(alarm_has_severity(severity)), |a: &AlarmEvent| -> (b: bool)
            ensures b == (severity_of(a.trigger_count) == severity)
            { a.severity_level() == severity })
    }
}

/// The statistics of the stored data.
#[derive(Debug)]
pub struct StatsResponse {
    pub stats: DataStats,
    pub timestamp: Timestamp,
}

impl StatsResponse {
    /// A reply with `stats`, made now.
    pub fn new(stats: DataStats) -> (r: StatsResponse)
        ensures
            r.stats == stats,
    {
        StatsResponse { stats, timestamp: Timestamp::now() }
    }
}

/// A request to set a fan. The duty cycle is an `f64` bit pattern.
#[derive(Debug, Clone)]
pub struct UpdateFanRequest {
    /// New duty cycle (0.0 to 1.0).
    pub duty_cycle: u64,
    /// PWM frequency in Hz; the present one when absent.
    pub pwm_frequency_hz: Option<u32>,
    pub is_manual_override: bool,
}

/// A request to acknowledge (or un-acknowledge) an alarm.
#[derive(Debug, Clone)]
pub struct AcknowledgeAlarmRequest {
    pub acknowledged: bool,
}

/// A request to change the data limits.
#[derive(Debug, Clone)]
pub struct SystemConfigRequest {
    /// Memory limit in bytes.
    pub memory_limit_bytes: Option<usize>,
    /// Seconds between cleanups.
    pub cleanup_interval_seconds: Option<u64>,
}

/// The answer to a health check.
#[derive(Debug)]
pub struct HealthResponse {
    pub status: String,
    pub version: String,
    pub uptime_seconds: u64,
    pub timestamp: Timestamp,
}

impl HealthResponse {
    /// The service is healthy.
    pub fn healthy(version: String, uptime_seconds: u64) -> (r: HealthResponse)
        ensures
            r.status@ == "healthy"@,
            r.version == version,
            r.uptime_seconds == uptime_seconds,
    {
        HealthResponse {
            status: String::from_str("healthy"),
            version,
            uptime_seconds,
            timestamp: Timestamp::now(),
        }
    }

    /// The service is unhealthy.
    pub fn unhealthy(version: String, uptime_seconds: u64) -> (r: HealthResponse)
        ensures
            r.status@ == "unhealthy"@,
            r.version == version,
            r.uptime_seconds == uptime_seconds,
    {
        HealthResponse {
            status: String::from_str("unhealthy"),
            version,
            uptime_seconds,
            timestamp: Timestamp::now(),
        }
    }
}

} // verus!
