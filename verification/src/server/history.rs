//! The history of readings kept by the polling loop.
use vstd::prelude::*;
use std::collections::VecDeque;
use crate::named_map::{inserted, NamedMap};
use crate::time::{Timestamp, NANOS_PER_SEC};

verus! {

/// The readings of one poll: each probe's temperature in degrees Celsius,
/// as an `f64` bit pattern (see [`crate::float_bits`]).
#[derive(Debug, Clone)]
pub struct SensorData {
    pub ts: Timestamp,
    pub temps: NamedMap<u64>,
}

/// What the polling loop publishes after each poll.
#[derive(Debug, Clone)]
pub struct TickData {
    pub history: VecDeque<SensorData>,
    /// The alarms whose condition held at the last poll.
    pub active_alarms: Vec<String>,
}

impl TickData {
    /// No history and no alarms.
    pub fn new() -> (t: TickData)
        ensures
            t.history@.len() == 0,
            t.active_alarms@.len() == 0,
    {
        TickData { history: VecDeque::new(), active_alarms: Vec::new() }
    }
}

/// The index of the first entry of `h` taken at or after `cutoff`
/// (nanoseconds since the epoch), or the length of `h` if there is none.
pub open spec fn first_not_before(h: Seq<SensorData>, cutoff: int) -> int
    decreases h.len(),
{
    if h.len() == 0 {
        0
    } else if h[0].ts@ >= cutoff {
        0
    } else {
        1 + first_not_before(h.drop_first(), cutoff)
    }
}

/// The instant `history_size` seconds before the newest entry of `h`.
pub open spec fn cutoff_of(h: Seq<SensorData>, history_size: u64) -> int {
    h.last().ts@ - history_size * NANOS_PER_SEC
}

/// `h` without the entries that come before the first one taken within
/// `history_size` seconds of the newest.
pub open spec fn truncated(h: Seq<SensorData>, history_size: u64) -> Seq<SensorData> {
    if h.len() == 0 {
        h
    } else {
        h.skip(first_not_before(h, cutoff_of(h, history_size)))
    }
}

/// Whether the instant `history_size` seconds before the newest entry can be
/// formed: the whole seconds of that instant stay within `i64`.
pub open spec fn cutoff_representable(h: Seq<SensorData>, history_size: u64) -> bool {
    h.len() > 0 ==> h.last().ts@ / (NANOS_PER_SEC as int) - history_size >= i64::MIN
}

proof fn lemma_first_not_before(h: Seq<SensorData>, cutoff: int)
    ensures
        0 <= first_not_before(h, cutoff) <= h.len(),
        forall|j: int| 0 <= j < first_not_before(h, cutoff) ==> #[trigger] h[j].ts@ < cutoff,
        first_not_before(h, cutoff) < h.len() ==> h[first_not_before(h, cutoff)].ts@ >= cutoff,
    decreases h.len(),
{
    if h.len() > 0 && h[0].ts@ < cutoff {
        lemma_first_not_before(h.drop_first(), cutoff);
        assert forall|j: int| 0 <= j < first_not_before(h, cutoff) implies #[trigger] h[j].ts@ < cutoff by {
            if j > 0 {
                assert(h[j] == h.drop_first()[j - 1]);
            }
        }
    }
}

proof fn lemma_first_not_before_is(h: Seq<SensorData>, cutoff: int, i: int)
    requires
        0 <= i <= h.len(),
        forall|j: int| 0 <= j < i ==> #[trigger] h[j].ts@ < cutoff,
        i < h.len() ==> h[i].ts@ >= cutoff,
    ensures
        first_not_before(h, cutoff) == i,
    decreases i,
{
    if i > 0 {
        assert(h[0].ts@ < cutoff);
        assert forall|j: int| 0 <= j < i - 1 implies #[trigger] h.drop_first()[j].ts@ < cutoff by {
            assert(h.drop_first()[j] == h[j + 1]);
        }
        lemma_first_not_before_is(h.drop_first(), cutoff, i - 1);
    }
}

/// Drops the oldest entries of `history`, keeping those from the first one
/// taken within `hist_size` seconds of the newest entry onwards.
pub fn truncate_history(history: &mut VecDeque<SensorData>, hist_size: u64)
    requires
        cutoff_representable(old(history)@, hist_size),
    ensures
        final(history)@ == truncated(old(history)@, hist_size),
{
    let n = history.len();
    if n == 0 {
        return;
    }
    let ghost h = history@;
    let ghost cutoff = cutoff_of(h, hist_size);
    let last_secs = history[n - 1].ts.secs() as i128;
    let last_nanos = history[n - 1].ts.nanos() as i128;
    let mut found_idx: Option<usize> = None;
    let mut idx: usize = 0;
    while idx < n
        invariant_except_break
            n == h.len(),
            h == history@,
            idx <= n,
            found_idx is None,
            forall|j: int| 0 <= j < idx ==> #[trigger] h[j].ts@ < cutoff,
        invariant
            n == h.len(),
            h == history@,
            n > 0,
            last_secs == h.last().ts@ / (NANOS_PER_SEC as int),
            last_nanos == h.last().ts@ % (NANOS_PER_SEC as int),
            cutoff == cutoff_of(h, hist_size),
        ensures
            found_idx matches Some(i) ==> first_not_before(h, cutoff) == i && i < n,
            found_idx is None ==> first_not_before(h, cutoff) == n,
        decreases n - idx,
    {
        let secs = history[idx].ts.secs() as i128;
        let nanos = history[idx].ts.nanos() as i128;
        // ts >= last - hist_size  <=>  (secs + hist_size, nanos) >= (last_secs, last_nanos)
        let not_before = secs + hist_size as i128 > last_secs || (secs + hist_size as i128 == last_secs
            && nanos >= last_nanos);
        proof {
            let t = h[idx as int].ts@;
            let l = h.last().ts@;
            vstd::arithmetic::div_mod::lemma_fundamental_div_mod(t, NANOS_PER_SEC as int);
            vstd::arithmetic::div_mod::lemma_fundamental_div_mod(l, NANOS_PER_SEC as int);
            assert(not_before == (t >= l - hist_size * NANOS_PER_SEC)) by (nonlinear_arith)
                requires
                    t == secs * NANOS_PER_SEC + nanos,
                    l == last_secs * NANOS_PER_SEC + last_nanos,
                    0 <= nanos < NANOS_PER_SEC,
                    0 <= last_nanos < NANOS_PER_SEC,
                    not_before == (secs + hist_size > last_secs || (secs + hist_size == last_secs
                        && nanos >= last_nanos)),
            ;
        }
        if not_before {
            found_idx = Some(idx);
            proof {
                lemma_first_not_before_is(h, cutoff, idx as int);
            }
            break;
        }
        idx = idx + 1;
    }
    match found_idx {
        None => {
            history.clear();
            assert(h.skip(n as int) =~= Seq::<SensorData>::empty());
        },
        Some(i) => {
            let mut k: usize = 0;
            while k < i
                invariant
                    i < n,
                    n == h.len(),
                    k <= i,
                    history@ == h.skip(k as int),
                decreases i - k,
            {
                history.pop_front();
                assert(h.skip(k as int).subrange(1, h.skip(k as int).len() as int) =~= h.skip(k + 1));
                k = k + 1;
            }
        },
    }
}

/// The last entry of a history is always kept, the kept entries are its
/// latest ones, and truncating again changes nothing. When the entries are in
/// the order they were taken, every kept entry lies within `history_size`
/// seconds of the newest.
pub proof fn law_truncation(h: Seq<SensorData>, history_size: u64)
    requires
        h.len() > 0,
    ensures
        truncated(h, history_size).len() > 0,
        truncated(h, history_size).last() == h.last(),
        truncated(h, history_size) == h.skip(h.len() - truncated(h, history_size).len()),
        truncated(truncated(h, history_size), history_size) == truncated(h, history_size),
        (forall|i: int, j: int| 0 <= i <= j < h.len() ==> h[i].ts@ <= h[j].ts@) ==> forall|k: int|
            0 <= k < truncated(h, history_size).len() ==> #[trigger] truncated(h, history_size)[k].ts@
                >= cutoff_of(h, history_size),
{
    let cutoff = cutoff_of(h, history_size);
    lemma_first_not_before(h, cutoff);
    let i = first_not_before(h, cutoff);
    if i == h.len() {
        assert(h[h.len() - 1].ts@ < cutoff);
    }
    let t = h.skip(i);
    assert(t.last() == h.last());
    assert(t == h.skip(h.len() - t.len()));
    assert(cutoff_of(t, history_size) == cutoff);
    lemma_first_not_before_is(t, cutoff, 0);
    assert(t.skip(0) =~= t);
    if forall|a: int, b: int| 0 <= a <= b < h.len() ==> h[a].ts@ <= h[b].ts@ {
        assert forall|k: int| 0 <= k < t.len() implies #[trigger] t[k].ts@ >= cutoff by {
            assert(t[k] == h[i + k]);
            assert(h[i].ts@ <= h[i + k].ts@);
        }
    }
}

/// One poll: the history it leaves ends with the entry it recorded and is the
/// latest part of the previous history followed by that entry; where the
/// entries were recorded in time order, it spans at most `history_size`
/// seconds back from that entry.
pub proof fn law_tick(h: Seq<SensorData>, d: SensorData, history_size: u64)
    ensures
        truncated(h.push(d), history_size).len() > 0,
        truncated(h.push(d), history_size).last() == d,
        truncated(h.push(d), history_size) == h.push(d).skip(
            h.len() + 1 - truncated(h.push(d), history_size).len(),
        ),
        (forall|i: int, j: int| 0 <= i <= j < h.len() ==> h[i].ts@ <= h[j].ts@) && (h.len() > 0
            ==> h.last().ts@ <= d.ts@) ==> forall|k: int|
            0 <= k < truncated(h.push(d), history_size).len() ==> d.ts@ - history_size
                * NANOS_PER_SEC <= #[trigger] truncated(h.push(d), history_size)[k].ts@ <= d.ts@,
{
    let g = h.push(d);
    law_truncation(g, history_size);
    lemma_first_not_before(g, cutoff_of(g, history_size));
    let t = truncated(g, history_size);
    assert(t.len() <= g.len());
    if (forall|i: int, j: int| 0 <= i <= j < h.len() ==> h[i].ts@ <= h[j].ts@) && (h.len() > 0
        ==> h.last().ts@ <= d.ts@) {
        assert forall|i: int, j: int| 0 <= i <= j < g.len() implies g[i].ts@ <= g[j].ts@ by {
            if j == h.len() && i < h.len() {
                assert(h[i].ts@ <= h[h.len() - 1].ts@);
            }
        }
        assert(cutoff_of(g, history_size) == d.ts@ - history_size * NANOS_PER_SEC);
        assert forall|k: int| 0 <= k < t.len() implies d.ts@ - history_size * NANOS_PER_SEC
            <= #[trigger] t[k].ts@ <= d.ts@ by {
            let off = g.len() - t.len();
            assert(t[k] == g[off + k]);
            assert(g[off + k].ts@ <= g[g.len() - 1].ts@);
        }
    }
}

/// The temperatures of the probes that answered, in the order they were
/// polled (a later answer of the same probe replaces an earlier one).
pub open spec fn temps_of(readings: Seq<(Seq<char>, Option<u64>)>) -> Seq<(Seq<char>, u64)>
    decreases readings.len(),
{
    if readings.len() == 0 {
        Seq::empty()
    } else {
        let prev = temps_of(readings.drop_last());
        match readings.last().1 {
            Some(t) => inserted(prev, readings.last().0, t),
            None => prev,
        }
    }
}

/// The alarms whose condition evaluated to true, in order; conditions that
/// failed to evaluate count as not raised.
pub open spec fn raised_alarms(outcomes: Seq<(Seq<char>, Option<bool>)>) -> Seq<Seq<char>>
    decreases outcomes.len(),
{
    if outcomes.len() == 0 {
        Seq::empty()
    } else if outcomes.last().1 == Some(true) {
        raised_alarms(outcomes.drop_last()).push(outcomes.last().0)
    } else {
        raised_alarms(outcomes.drop_last())
    }
}

/// The views of a list of poll results.
pub open spec fn reading_views(v: Seq<(String, Option<u64>)>) -> Seq<(Seq<char>, Option<u64>)> {
    v.map_values(|r: (String, Option<u64>)| (r.0@, r.1))
}

/// The views of a list of alarm outcomes.
pub open spec fn outcome_views(v: Seq<(String, Option<bool>)>) -> Seq<(Seq<char>, Option<bool>)> {
    v.map_values(|r: (String, Option<bool>)| (r.0@, r.1))
}

/// Records one poll at `ts`: the temperatures of the probes that answered
/// (`None` for a probe whose poll failed) become a new history entry, the
/// history is truncated to `history_size` seconds, and the alarms whose
/// condition held (`Some(true)`; `None` for one that failed to evaluate) are
/// returned, in order.
pub fn record_tick(
    history: &mut VecDeque<SensorData>,
    ts: Timestamp,
    readings: Vec<(String, Option<u64>)>,
    alarm_outcomes: Vec<(String, Option<bool>)>,
    history_size: u64,
) -> (active_alarms: Vec<String>)
    requires
        ts@ / (NANOS_PER_SEC as int) - history_size >= i64::MIN,
    ensures
        exists|d: SensorData|
            #![trigger old(history)@.push(d)]
            d.ts@ == ts@ && d.temps@ == temps_of(reading_views(readings@)) && final(history)@
                == truncated(old(history)@.push(d), history_size),
        active_alarms@.map_values(|a: String| a@) == raised_alarms(outcome_views(alarm_outcomes@)),
{
    let ghost rv = reading_views(readings@);
    let mut temps: NamedMap<u64> = NamedMap::new();
    let mut readings = readings;
    let ghost orig = readings@;
    let n = readings.len();
    let mut i: usize = 0;
    while i < n
        invariant
            n == orig.len(),
            rv == reading_views(orig),
            i <= n,
            readings@ == orig.skip(i as int),
            temps@ == temps_of(rv.take(i as int)),
        decreases n - i,
    {
        assert(readings@[0] == orig[i as int]);
        let (name, value) = readings.remove(0);
        assert(rv.take(i + 1).drop_last() =~= rv.take(i as int));
        assert(rv.take(i + 1).last() == (name@, value));
        if let Some(t) = value {
            temps.insert(name, t);
        }
        assert(readings@ =~= orig.skip(i + 1));
        i = i + 1;
    }
    assert(rv.take(n as int) =~= rv);
    let ghost ov = outcome_views(alarm_outcomes@);
    let mut active: Vec<String> = Vec::new();
    let m = alarm_outcomes.len();
    let mut j: usize = 0;
    while j < m
        invariant
            m == alarm_outcomes@.len(),
            ov == outcome_views(alarm_outcomes@),
            j <= m,
            active@.map_values(|a: String| a@) == raised_alarms(ov.take(j as int)),
        decreases m - j,
    {
        assert(ov.take(j + 1).drop_last() =~= ov.take(j as int));
        let (name, outcome) = &alarm_outcomes[j];
        assert(ov.take(j + 1).last() == (name@, *outcome));
        if *outcome == Some(true) {
            active.push(name.clone());
        }
        assert(active@.map_values(|a: String| a@) =~= raised_alarms(ov.take(j + 1)));
        j = j + 1;
    }
    assert(ov.take(m as int) =~= ov);
    let data = SensorData { ts, temps };
    let ghost d = data;
    history.push_back(data);
    truncate_history(history, history_size);
    active
}

} // verus!
