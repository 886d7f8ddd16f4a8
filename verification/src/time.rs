//! Instants in UTC, with nanosecond precision.
use vstd::prelude::*;
use crate::text::{two_digits, two_digit_string};

verus! {

/// Nanoseconds in one second.
pub const NANOS_PER_SEC: u32 = 1_000_000_000;

/// The earliest whole second an instant may have: the start of
/// January 1st of the year -262143, the first day of `chrono`'s calendar.
pub const MIN_SECS: i64 = -8_334_601_228_800;

/// The latest whole second an instant may have: the last second of
/// December 31st of the year 262142, the last day of `chrono`'s calendar.
pub const MAX_SECS: i64 = 8_210_266_876_799;

/// An instant: whole seconds since 1970-01-01T00:00:00Z (negative before it)
/// and the nanoseconds past that second. Its view is the number of
/// nanoseconds since the epoch.
#[derive(Debug, Clone, Copy, PartialEq, Eq)]
pub struct Timestamp {
    secs: i64,
    nanos: u32,
}

impl View for Timestamp {
    type V = int;

    closed spec fn view(&self) -> int {
        self.secs * NANOS_PER_SEC + self.nanos
    }
}

/// The number of whole seconds in `ns` nanoseconds, rounded toward zero.
pub open spec fn whole_seconds(ns: int) -> int {
    if ns >= 0 {
        ns / (NANOS_PER_SEC as int)
    } else {
        -((-ns) / (NANOS_PER_SEC as int))
    }
}

/// The time of day of an instant, as `HH:MM:SS`.
pub open spec fn clock_text(ns: int) -> Seq<char> {
    let secs = ns / (NANOS_PER_SEC as int);
    let of_day = secs % 86400;
    two_digits((of_day / 3600) as nat) + seq![':'] + two_digits(((of_day % 3600) / 60) as nat) + seq![
        ':',
    ] + two_digits((of_day % 60) as nat)
}

/// Whole seconds from `earlier` to `later` (nanoseconds since the epoch),
/// rounded toward zero.
pub open spec fn seconds_between(later: int, earlier: int) -> int {
    whole_seconds(later - earlier)
}

impl Timestamp {
    #[verifier::type_invariant]
    spec fn inv(self) -> bool {
        &&& self.nanos < NANOS_PER_SEC
        &&& MIN_SECS <= self.secs <= MAX_SECS
    }

    /// The instant `secs` seconds and `nanos` nanoseconds after the epoch,
    /// where `nanos` is below one second and `secs` within the range.
    pub fn from_parts(secs: i64, nanos: u32) -> (r: Option<Timestamp>)
        ensures
            r is Some <==> (nanos < NANOS_PER_SEC && MIN_SECS <= secs <= MAX_SECS),
            r matches Some(t) ==> t@ == secs * NANOS_PER_SEC + nanos,
    {
        if nanos < NANOS_PER_SEC && MIN_SECS <= secs && secs <= MAX_SECS {
            Some(Timestamp { secs, nanos })
        } else {
            None
        }
    }

    /// Whole seconds since the epoch (rounded toward negative infinity).
    pub fn secs(&self) -> (s: i64)
        ensures
            s == self@ / (NANOS_PER_SEC as int),
            MIN_SECS <= s <= MAX_SECS,
    {
        proof {
            use_type_invariant(self);
            lemma_split(self.secs as int, self.nanos as int);
        }
        self.secs
    }

    /// Nanoseconds past the whole second.
    pub fn nanos(&self) -> (n: u32)
        ensures
            n == self@ % (NANOS_PER_SEC as int),
            n < NANOS_PER_SEC,
    {
        proof {
            use_type_invariant(self);
            lemma_split(self.secs as int, self.nanos as int);
        }
        self.nanos
    }

    /// A copy of the instant.
    pub fn copy(&self) -> (r: Timestamp)
        ensures
            r@ == self@,
    {
        proof {
            use_type_invariant(self);
        }
        Timestamp { secs: self.secs, nanos: self.nanos }
    }

    /// The instant now, read from the system clock (which may be set before
    /// the epoch).
    pub fn now() -> (t: Timestamp) {
        let (secs, nanos) = system_clock();
        match Timestamp::from_parts(secs, nanos) {
            Some(t) => t,
            None => {
                proof {
                    assert(false);
                }
                Timestamp { secs: 0, nanos: 0 }
            },
        }
    }

    /// The time of day, as `HH:MM:SS`.
    pub fn clock_time(&self) -> (s: String)
        ensures
            s@ == clock_text(self@),
    {
        let secs = self.secs();
        let of_day: i64 = secs % 86400;
        let of_day: i64 = if of_day < 0 { of_day + 86400 } else { of_day };
        proof {
            assert(of_day == (self@ / (NANOS_PER_SEC as int)) % 86400) by {
                vstd::arithmetic::div_mod::lemma_fundamental_div_mod(secs as int, 86400);
            }
        }
        let h = (of_day / 3600) as u64;
        let m = ((of_day % 3600) / 60) as u64;
        let sec = (of_day % 60) as u64;
        let mut s = two_digit_string(h);
        s.append(":");
        let ms = two_digit_string(m);
        s.append(ms.as_str());
        s.append(":");
        let ss = two_digit_string(sec);
        s.append(ss.as_str());
        proof {
            reveal_strlit(":");
        }
        assert(s@ =~= clock_text(self@));
        s
    }

    /// Whole milliseconds since the epoch, for an instant not before it.
    pub fn millis_since_epoch(&self) -> (ms: u64)
        requires
            self@ >= 0,
        ensures
            ms == self@ / 1_000_000,
    {
        proof {
            use_type_invariant(self);
            assert(self.secs >= 0) by {
                lemma_split(self.secs as int, self.nanos as int);
            }
            assert(self.secs * 1000 + self.nanos / 1_000_000 == self@ / 1_000_000) by {
                let n = self.nanos as int;
                let s = self.secs as int;
                vstd::arithmetic::div_mod::lemma_fundamental_div_mod(n, 1_000_000);
                assert(self@ == (s * 1000 + n / 1_000_000) * 1_000_000 + n % 1_000_000) by (nonlinear_arith)
                    requires
                        self@ == s * 1_000_000_000 + n,
                        n == 1_000_000 * (n / 1_000_000) + n % 1_000_000,
                ;
                vstd::arithmetic::div_mod::lemma_fundamental_div_mod_converse(
                    self@,
                    1_000_000,
                    s * 1000 + n / 1_000_000,
                    n % 1_000_000,
                );
            }
        }
        (self.secs as u64) * 1000 + (self.nanos / 1_000_000) as u64
    }

    /// `self <= other`.
    pub fn is_not_after(&self, other: &Timestamp) -> (r: bool)
        ensures
            r == (self@ <= other@),
    {
        proof {
            use_type_invariant(self);
            use_type_invariant(other);
            lemma_order(self.secs as int, self.nanos as int, other.secs as int, other.nanos as int);
        }
        self.secs < other.secs || (self.secs == other.secs && self.nanos <= other.nanos)
    }

    /// The whole seconds from `earlier` to `self`, rounded toward zero
    /// (negative when `earlier` is after `self`).
    pub fn whole_seconds_since(&self, earlier: &Timestamp) -> (s: i64)
        ensures
            s == whole_seconds(self@ - earlier@),
    {
        proof {
            use_type_invariant(self);
            use_type_invariant(earlier);
        }
        let diff: i128 = (self.secs as i128 - earlier.secs as i128) * 1_000_000_000i128
            + (self.nanos as i128 - earlier.nanos as i128);
        let r: i128 = if diff >= 0 {
            diff / 1_000_000_000i128
        } else {
            -((-diff) / 1_000_000_000i128)
        };
        proof {
            assert(diff == self@ - earlier@);
            lemma_whole_seconds_bound(diff as int);
        }
        r as i64
    }
}

proof fn lemma_split(secs: int, nanos: int)
    requires
        0 <= nanos < NANOS_PER_SEC,
    ensures
        (secs * NANOS_PER_SEC + nanos) / (NANOS_PER_SEC as int) == secs,
        (secs * NANOS_PER_SEC + nanos) % (NANOS_PER_SEC as int) == nanos,
{
    vstd::arithmetic::div_mod::lemma_fundamental_div_mod_converse(
        secs * NANOS_PER_SEC + nanos,
        NANOS_PER_SEC as int,
        secs,
        nanos,
    );
}

proof fn lemma_order(s1: int, n1: int, s2: int, n2: int)
    requires
        0 <= n1 < NANOS_PER_SEC,
        0 <= n2 < NANOS_PER_SEC,
    ensures
        (s1 * NANOS_PER_SEC + n1 <= s2 * NANOS_PER_SEC + n2) == (s1 < s2 || (s1 == s2 && n1
            <= n2)),
{
    if s1 < s2 {
        assert(s1 * NANOS_PER_SEC + NANOS_PER_SEC <= s2 * NANOS_PER_SEC) by (nonlinear_arith)
            requires
                s1 < s2,
        ;
    } else if s1 > s2 {
        assert(s2 * NANOS_PER_SEC + NANOS_PER_SEC <= s1 * NANOS_PER_SEC) by (nonlinear_arith)
            requires
                s2 < s1,
        ;
    }
}

proof fn lemma_whole_seconds_bound(ns: int)
    requires
        -(MAX_SECS - MIN_SECS + 1) * NANOS_PER_SEC <= ns <= (MAX_SECS - MIN_SECS + 1) * NANOS_PER_SEC,
    ensures
        -(MAX_SECS - MIN_SECS + 1) <= whole_seconds(ns) <= MAX_SECS - MIN_SECS + 1,
{
    let m = MAX_SECS - MIN_SECS + 1;
    if ns >= 0 {
        vstd::arithmetic::div_mod::lemma_div_is_ordered(ns, m * NANOS_PER_SEC, NANOS_PER_SEC as int);
        vstd::arithmetic::div_mod::lemma_div_multiples_vanish(m, NANOS_PER_SEC as int);
        vstd::arithmetic::div_mod::lemma_div_pos_is_pos(ns, NANOS_PER_SEC as int);
    } else {
        vstd::arithmetic::div_mod::lemma_div_is_ordered(-ns, m * NANOS_PER_SEC, NANOS_PER_SEC as int);
        vstd::arithmetic::div_mod::lemma_div_multiples_vanish(m, NANOS_PER_SEC as int);
        vstd::arithmetic::div_mod::lemma_div_pos_is_pos(-ns, NANOS_PER_SEC as int);
    }
}

/// Reads the system clock (`std::time::SystemTime::now`) as a
/// `chrono::DateTime<Utc>` (its `From<SystemTime>`, which also takes clocks
/// set before 1970), and returns its whole seconds (`DateTime::timestamp`) and
/// sub-second nanoseconds (`DateTime::timestamp_subsec_nanos`). The
/// conversion builds the date from the duration's seconds and its sub-second
/// nanoseconds, so the nanoseconds are below one second, and a `DateTime`
/// lies within chrono's calendar, whose first and last seconds are
/// [`MIN_SECS`] and [`MAX_SECS`]. The conversion panics for a clock outside
/// that calendar (beyond the year 262,142 either way), which no system clock
/// reads. Nothing is said of which instant is returned.
#[verifier::external_body]
fn system_clock() -> (r: (i64, u32))
    ensures
        MIN_SECS <= r.0 <= MAX_SECS,
        r.1 < NANOS_PER_SEC,
{
    let now = chrono::DateTime::<chrono::Utc>::from(std::time::SystemTime::now());
    (now.timestamp(), now.timestamp_subsec_nanos())
}

} // verus!
