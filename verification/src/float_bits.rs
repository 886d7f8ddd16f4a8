//! Ordering of IEEE-754 binary64 values carried as bit patterns.
//!
//! The library never computes with floating-point numbers. Where a model holds
//! an `f64`, it holds the value's bit pattern (`f64::to_bits`) instead, and the
//! comparisons that the models make on such values are decided here with
//! integer arithmetic. For two values that are not NaN, `a <= b` as `f64`
//! exactly when the sign-magnitude key of `a` is at most that of `b` (both
//! zeros share key 0); every comparison with a NaN is false.
use vstd::prelude::*;
use vstd::arithmetic::power2::pow2;

verus! {

/// Bit of the sign.
pub const SIGN_BIT: u64 = 0x8000_0000_0000_0000;

/// Bit pattern of positive infinity (the largest magnitude that is not NaN).
pub const POS_INFINITY_BITS: u64 = 0x7FF0_0000_0000_0000;

/// Bit pattern of negative infinity.
pub const NEG_INFINITY_BITS: u64 = 0xFFF0_0000_0000_0000;

/// Bit pattern of `0.0`.
pub const ZERO_BITS: u64 = 0;

/// Bit pattern of `1.0`.
pub const ONE_BITS: u64 = 0x3FF0_0000_0000_0000;

/// The magnitude part (all bits but the sign).
pub open spec fn magnitude(b: u64) -> int {
    (b % SIGN_BIT) as int
}

/// Whether the bit pattern encodes a NaN: all exponent bits set and a
/// non-zero fraction.
pub open spec fn is_nan(b: u64) -> bool {
    magnitude(b) > POS_INFINITY_BITS
}

/// The integer by which non-NaN values are ordered.
pub open spec fn order_key(b: u64) -> int {
    if b >= SIGN_BIT {
        -magnitude(b)
    } else {
        magnitude(b)
    }
}

/// `a <= b` on the encoded values.
pub open spec fn le(a: u64, b: u64) -> bool {
    !is_nan(a) && !is_nan(b) && order_key(a) <= order_key(b)
}

/// `a < b` on the encoded values.
pub open spec fn lt(a: u64, b: u64) -> bool {
    !is_nan(a) && !is_nan(b) && order_key(a) < order_key(b)
}

/// `min <= value && value <= max` on the encoded values, the test of
/// `RangeInclusive::contains`.
pub open spec fn in_range(value: u64, min: u64, max: u64) -> bool {
    le(min, value) && le(value, max)
}

fn key_of(b: u64) -> (k: i64)
    requires
        !is_nan(b),
    ensures
        k as int == order_key(b),
{
    let mag: u64 = b % SIGN_BIT;
    if b >= SIGN_BIT {
        -(mag as i64)
    } else {
        mag as i64
    }
}

/// Whether the encoded value is NaN.
pub fn bits_is_nan(b: u64) -> (r: bool)
    ensures
        r == is_nan(b),
{
    b % SIGN_BIT > POS_INFINITY_BITS
}

/// `a <= b` on encoded values.
pub fn bits_le(a: u64, b: u64) -> (r: bool)
    ensures
        r == le(a, b),
{
    if bits_is_nan(a) || bits_is_nan(b) {
        false
    } else {
        key_of(a) <= key_of(b)
    }
}

/// `a < b` on encoded values.
pub fn bits_lt(a: u64, b: u64) -> (r: bool)
    ensures
        r == lt(a, b),
{
    if bits_is_nan(a) || bits_is_nan(b) {
        false
    } else {
        key_of(a) < key_of(b)
    }
}

/// `min <= value <= max` on encoded values.
pub fn bits_in_range(value: u64, min: u64, max: u64) -> (r: bool)
    ensures
        r == in_range(value, min, max),
{
    bits_le(min, value) && bits_le(value, max)
}

/// The smaller of two values as `f64::min` takes it: where one is NaN, the
/// other; where neither is below the other (equal values, or the two zeros),
/// the first.
pub open spec fn min_value(a: u64, b: u64) -> u64 {
    if is_nan(a) {
        b
    } else if is_nan(b) {
        a
    } else if lt(b, a) {
        b
    } else {
        a
    }
}

/// The larger of two values as `f64::max` takes it: where one is NaN, the
/// other; where neither is above the other, the first.
pub open spec fn max_value(a: u64, b: u64) -> u64 {
    if is_nan(a) {
        b
    } else if is_nan(b) {
        a
    } else if lt(a, b) {
        b
    } else {
        a
    }
}

/// The smaller of two encoded values (see [`min_value`]).
pub fn bits_min(a: u64, b: u64) -> (r: u64)
    ensures
        r == min_value(a, b),
{
    if bits_is_nan(a) {
        b
    } else if bits_is_nan(b) {
        a
    } else if bits_lt(b, a) {
        b
    } else {
        a
    }
}

/// The larger of two encoded values (see [`max_value`]).
pub fn bits_max(a: u64, b: u64) -> (r: u64)
    ensures
        r == max_value(a, b),
{
    if bits_is_nan(a) {
        b
    } else if bits_is_nan(b) {
        a
    } else if bits_lt(a, b) {
        b
    } else {
        a
    }
}

/// The order on values that are not NaN is total and transitive, and both
/// zeros compare equal.
pub proof fn lemma_le_total_transitive(a: u64, b: u64, c: u64)
    requires
        !is_nan(a),
        !is_nan(b),
        !is_nan(c),
    ensures
        le(a, b) || le(b, a),
        le(a, b) && le(b, c) ==> le(a, c),
        le(0, SIGN_BIT) && le(SIGN_BIT, 0),
{
}

/// The position of the highest set bit of `n` (0 for 0 and 1).
pub open spec fn highest_bit(n: nat) -> nat
    decreases n,
{
    if n <= 1 {
        0
    } else {
        1 + highest_bit(n / 2)
    }
}

/// The bit pattern of `n as f64`: a 32-bit integer converts exactly, with
/// exponent `1023 + p` for its highest set bit `p` and the bits below `p`
/// as the leading fraction bits.
pub open spec fn u32_as_f64_bits(n: u32) -> u64 {
    if n == 0 {
        0
    } else {
        let p = highest_bit(n as nat);
        ((1023 + p) * pow2(52) + (n - pow2(p)) * pow2((52 - p) as nat)) as u64
    }
}

proof fn lemma_highest_bit(n: nat, p: nat)
    requires
        pow2(p) <= n < 2 * pow2(p),
    ensures
        highest_bit(n) == p,
    decreases p,
{
    vstd::arithmetic::power2::lemma_pow2_pos(p);
    if p == 0 {
        vstd::arithmetic::power2::lemma2_to64();
    } else {
        vstd::arithmetic::power2::lemma_pow2_unfold(p);
        let q = (p - 1) as nat;
        assert(pow2(p) == 2 * pow2(q));
        vstd::arithmetic::power2::lemma_pow2_pos(q);
        assert(pow2(q) <= n / 2 < 2 * pow2(q)) by (nonlinear_arith)
            requires
                2 * pow2(q) <= n < 4 * pow2(q),
                pow2(q) > 0,
        ;
        lemma_highest_bit(n / 2, q);
    }
}

/// The bit pattern of `n as f64`.
pub fn u32_to_f64_bits(n: u32) -> (b: u64)
    ensures
        b == u32_as_f64_bits(n),
{
    if n == 0 {
        return 0;
    }
    let mut p: u64 = 0;
    let mut hi: u64 = 1;
    let mut scale: u64 = 0x10_0000_0000_0000;
    proof {
        vstd::arithmetic::power2::lemma2_to64();
        vstd::arithmetic::power2::lemma2_to64_rest();
    }
    while hi * 2 <= n as u64
        invariant
            1 <= hi <= n,
            p <= 31,
            hi == pow2(p as nat),
            scale == pow2((52 - p) as nat),
            p < 52,
            (n as int) < 0x1_0000_0000,
            hi * scale == pow2(52),
        decreases n - hi,
    {
        proof {
            vstd::arithmetic::power2::lemma_pow2_unfold((p + 1) as nat);
            assert(hi * 2 == pow2((p + 1) as nat));
            vstd::arithmetic::power2::lemma2_to64();
            if p + 1 > 32 {
                vstd::arithmetic::power2::lemma_pow2_strictly_increases(32, (p + 1) as nat);
            }
            assert(p + 1 <= 31);
            vstd::arithmetic::power2::lemma_pow2_unfold((52 - p) as nat);
            let half = pow2((51 - p) as nat);
            assert(scale == 2 * half);
            assert((hi * 2) * (scale / 2) == hi * scale) by (nonlinear_arith)
                requires
                    scale == 2 * half,
            ;
        }
        hi = hi * 2;
        p = p + 1;
        scale = scale / 2;
    }
    proof {
        lemma_highest_bit(n as nat, p as nat);
        assert((n - hi) * scale < pow2(52)) by (nonlinear_arith)
            requires
                n < 2 * hi,
                hi <= n,
                hi * scale == pow2(52),
                scale > 0,
        ;
        vstd::arithmetic::power2::lemma_pow2_pos((52 - p) as nat);
    }
    (1023 + p) * 0x10_0000_0000_0000 + (n as u64 - hi) * scale
}

} // verus!
