//! Temperature sensors as the configuration defines them, and the sensor that
//! plays back recorded samples.
use vstd::prelude::*;
use crate::float_bits::{u32_as_f64_bits, u32_to_f64_bits};
use crate::server::ads1115;
use crate::stable_sort::{law_sort_by_key, lemma_insert_at, sort_by_key};
use crate::time::{Timestamp, NANOS_PER_SEC};

verus! {

/// A sensor that plays back samples, read from `file` where one is named.
#[derive(Debug, Clone, PartialEq)]
pub struct DummySensorDef {
    pub file: Option<String>,
}

/// A sensor wired to a GPIO pin.
#[derive(Debug, Clone)]
pub struct GpioSensorDef {
    pub pin: u8,
}

/// How a temperature sensor is read.
#[derive(Debug, Clone)]
pub enum SensorDef {
    Dummy(DummySensorDef),
    Gpio(GpioSensorDef),
    ADS1115(ads1115::SensorDef),
}

/// A sample: seconds after the start of the playback, and the temperature
/// (the bits of an `f64`).
pub type Sample = (u64, u64);

/// The key that orders samples by offset.
pub open spec fn offset_key() -> spec_fn(Sample) -> int {
    |x: Sample| x.0 as int
}

/// `s` ordered by offset; samples with the same offset keep their order.
pub open spec fn by_offset(s: Seq<Sample>) -> Seq<Sample> {
    sort_by_key(s, offset_key())
}

/// Whether the offsets of `s` never decrease.
pub open spec fn is_by_offset(s: Seq<Sample>) -> bool {
    forall|i: int, j: int| 0 <= i < j < s.len() ==> s[i].0 <= s[j].0
}

/// The samples ordered by offset are in order and are the same samples.
pub proof fn law_by_offset(s: Seq<Sample>)
    ensures
        is_by_offset(by_offset(s)),
        by_offset(s).to_multiset() == s.to_multiset(),
        by_offset(s).len() == s.len(),
{
    law_sort_by_key(s, offset_key());
    let r = by_offset(s);
    assert forall|i: int, j: int| 0 <= i < j < r.len() implies r[i].0 <= r[j].0 by {
        assert(offset_key()(r[i]) <= offset_key()(r[j]));
    }
}

/// Whether a sample `offset` seconds after `start` is due at `time` (both in
/// nanoseconds since the epoch).
pub open spec fn is_due(start: int, offset: u64, time: int) -> bool {
    start + offset * NANOS_PER_SEC <= time
}

/// Whether every offset of `data` added to the whole seconds of `start`
/// stays within the range of an instant's seconds.
pub open spec fn offsets_fit(data: Seq<Sample>, start: int) -> bool {
    forall|i: int|
        0 <= i < data.len() ==> start / (NANOS_PER_SEC as int) + #[trigger] data[i].0 <= i64::MAX
}

/// The samples of the built-in playback: every ten seconds for fifteen
/// minutes' worth of samples, from 20 degrees up by 2 each time.
pub open spec fn generated_sample(o: int) -> Sample {
    ((10 * o) as u64, u32_as_f64_bits((20 + 2 * o) as u32))
}

/// The playback ran out of samples.
#[derive(Debug, Clone, Copy, PartialEq, Eq, Structural)]
pub struct EndOfData;

/// A sensor that plays back samples: each poll gives the last sample that is
/// due since the first poll of the playback.
#[derive(Debug)]
pub struct DummySensorInstance {
    pub file_data: Vec<Sample>,
    pub start_time: Option<Timestamp>,
}

impl DummySensorInstance {
    /// A playback of `samples`, ordered by offset (samples with the same
    /// offset keep their order), not yet started.
    pub fn from_samples(samples: Vec<Sample>) -> (r: DummySensorInstance)
        ensures
            r.file_data@ == by_offset(samples@),
            r.start_time is None,
    {
        let ghost orig = samples@;
        let mut out: Vec<Sample> = Vec::new();
        let n = samples.len();
        let mut i: usize = 0;
        while i < n
            invariant
                n == orig.len(),
                samples@ == orig,
                i <= n,
                out@ == by_offset(orig.take(i as int)),
            decreases n - i,
        {
            let x = samples[i];
            let ghost before = out@;
            let mut pos = out.len();
            while pos > 0 && out[pos - 1].0 > x.0
                invariant
                    0 <= pos <= out@.len(),
                    before == out@,
                    forall|j: int| pos <= j < out@.len() ==> #[trigger] before[j].0 > x.0,
                decreases pos,
            {
                pos = pos - 1;
            }
            proof {
                lemma_insert_at(before, x, offset_key(), pos as int);
            }
            out.insert(pos, x);
            assert(out@ =~= before.take(pos as int).push(x) + before.skip(pos as int));
            assert(orig.take(i + 1).drop_last() =~= orig.take(i as int));
            i = i + 1;
        }
        assert(orig.take(n as int) =~= orig);
        DummySensorInstance { file_data: out, start_time: None }
    }

    /// The built-in playback, not yet started: 900 samples, ten seconds
    /// apart, from 20 degrees up by 2 each time.
    pub fn generated() -> (r: DummySensorInstance)
        ensures
            r.file_data@.len() == 900,
            forall|o: int| 0 <= o < 900 ==> #[trigger] r.file_data@[o] == generated_sample(o),
            r.start_time is None,
    {
        let mut data: Vec<Sample> = Vec::new();
        let mut o: u32 = 0;
        while o < 900
            invariant
                o <= 900,
                data@.len() == o,
                forall|k: int| 0 <= k < o ==> #[trigger] data@[k] == generated_sample(k),
            decreases 900 - o,
        {
            let temp = u32_to_f64_bits(20 + 2 * o);
            data.push(((10 * o) as u64, temp));
            o = o + 1;
        }
        DummySensorInstance { file_data: data, start_time: None }
    }

    /// The playback at `time`: the first poll starts it. Gives the
    /// temperature of the last sample that is due; where none is, the
    /// playback has ended and starts again at the next poll.
    pub fn poll(&mut self, time: &Timestamp) -> (r: Result<u64, EndOfData>)
        requires
            offsets_fit(
                old(self).file_data@,
                match old(self).start_time {
                    Some(s) => s@,
                    None => time@,
                },
            ),
        ensures
            final(self).file_data@ == old(self).file_data@,
            ({
                let start = match old(self).start_time {
                    Some(s) => s@,
                    None => time@,
                };
                let data = old(self).file_data@;
                match r {
                    Ok(temp) => exists|i: int|
                        0 <= i < data.len() && is_due(start, data[i].0, time@) && temp == data[i].1
                            && forall|j: int|
                            i < j < data.len() ==> !is_due(start, #[trigger] data[j].0, time@),
                    Err(_) => forall|i: int|
                        0 <= i < data.len() ==> !is_due(start, #[trigger] data[i].0, time@),
                }
            }),
            match r {
                Ok(_) => final(self).start_time matches Some(s) && s@ == match old(self).start_time {
                    Some(s) => s@,
                    None => time@,
                },
                Err(_) => final(self).start_time is None,
            },
    {
        let start = match &self.start_time {
            Some(s) => s.copy(),
            None => time.copy(),
        };
        self.start_time = Some(start.copy());
        let ghost data = self.file_data@;
        let start_secs = start.secs();
        let start_nanos = start.nanos();
        let time_secs = time.secs();
        let time_nanos = time.nanos();
        // whole seconds from the start to `time`, and whether the
        // nanoseconds past them are at least the start's
        let diff_secs: i64 = time_secs - start_secs;
        let nanos_reached = time_nanos >= start_nanos;
        let mut k = self.file_data.len();
        while k > 0
            invariant
                k <= data.len(),
                self.file_data@ == data,
                data == old(self).file_data@,
                self.start_time matches Some(s) && s@ == start@,
                start@ == match old(self).start_time {
                    Some(s) => s@,
                    None => time@,
                },
                forall|j: int| k <= j < data.len() ==> !is_due(start@, #[trigger] data[j].0, time@),
                diff_secs == time_secs - start_secs,
                start_secs == start@ / (NANOS_PER_SEC as int),
                start_nanos == start@ % (NANOS_PER_SEC as int),
                time_secs == time@ / (NANOS_PER_SEC as int),
                time_nanos == time@ % (NANOS_PER_SEC as int),
                nanos_reached == (time_nanos >= start_nanos),
            decreases k,
        {
            let offset = self.file_data[k - 1].0;
            let due = if diff_secs < 0 {
                false
            } else if (offset as i128) < (diff_secs as i128) {
                true
            } else {
                (offset as i128) == (diff_secs as i128) && nanos_reached
            };
            proof {
                lemma_due(start@, offset, time@, start_secs as int, start_nanos as int, time_secs as int, time_nanos as int);
            }
            if due {
                let temp = self.file_data[k - 1].1;
                return Ok(temp);
            }
            k = k - 1;
        }
        self.start_time = None;
        Err(EndOfData)
    }
}

/// Whether a sample is due, by whole seconds and the nanoseconds past them.
proof fn lemma_due(start: int, offset: u64, time: int, ss: int, sn: int, ts: int, tn: int)
    requires
        ss == start / (NANOS_PER_SEC as int),
        sn == start % (NANOS_PER_SEC as int),
        ts == time / (NANOS_PER_SEC as int),
        tn == time % (NANOS_PER_SEC as int),
    ensures
        is_due(start, offset, time) == (ts - ss >= 0 && (offset < ts - ss || (offset == ts - ss
            && tn >= sn))),
{
    let n = NANOS_PER_SEC as int;
    vstd::arithmetic::div_mod::lemma_fundamental_div_mod(start, n);
    vstd::arithmetic::div_mod::lemma_fundamental_div_mod(time, n);
    assert(start == n * ss + sn);
    assert(time == n * ts + tn);
    let d = ts - ss;
    assert(time - start == n * d + (tn - sn)) by (nonlinear_arith)
        requires
            start == n * ss + sn,
            time == n * ts + tn,
            d == ts - ss,
    ;
    assert(0 <= sn < n && 0 <= tn < n);
    if offset < d {
        assert(offset * n <= (d - 1) * n) by (nonlinear_arith)
            requires
                offset <= d - 1,
                n > 0,
        ;
        assert((d - 1) * n == n * d - n) by (nonlinear_arith);
    } else if offset == d {
        assert(offset * n == n * d) by (nonlinear_arith)
            requires
                offset == d,
        ;
    } else {
        assert(offset * n >= (d + 1) * n) by (nonlinear_arith)
            requires
                offset >= d + 1,
                n > 0,
        ;
        assert((d + 1) * n == n * d + n) by (nonlinear_arith);
    }
}

} // verus!
