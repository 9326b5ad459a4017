//! Sample-format adaptation.
//!
//! A normalized sample is handed to the library as the bit pattern of an
//! IEEE-754 single-precision value. Every finite value of that format is an
//! integer multiple of 2^-149, so its exact value is modelled here as an
//! integer count of such units, and the conversions are stated over it.
use vstd::arithmetic::div_mod::*;
use vstd::arithmetic::power2::*;
use vstd::prelude::*;

verus! {

/// Largest value of the signed 16-bit target.
pub const I16_TOP: i64 = 32767;

/// Magnitude of the smallest value of the signed 16-bit target.
pub const I16_BOTTOM: i64 = 32768;

/// Number of units of 2^-149 in the normalized value 1.0.
pub open spec fn units_per_one() -> nat {
    pow2(149)
}

/// The 8-bit biased exponent of a single-precision bit pattern.
pub open spec fn exponent_field(b: u32) -> nat {
    ((b as nat) / 8388608) % 256
}

/// The 23-bit fraction of a single-precision bit pattern.
pub open spec fn fraction_field(b: u32) -> nat {
    (b as nat) % 8388608
}

/// The sign bit of a single-precision bit pattern.
pub open spec fn is_negative(b: u32) -> bool {
    b >= 0x8000_0000
}

/// Not-a-number patterns: all exponent bits set and a non-zero fraction.
pub open spec fn is_nan(b: u32) -> bool {
    exponent_field(b) == 255 && fraction_field(b) != 0
}

/// The integer significand, with the hidden bit for normal values.
pub open spec fn significand(b: u32) -> nat {
    if exponent_field(b) == 0 {
        fraction_field(b)
    } else {
        fraction_field(b) + 8388608
    }
}

/// The power of two that scales the significand, in units of 2^-149.
pub open spec fn unit_shift(b: u32) -> nat {
    if exponent_field(b) == 0 {
        0
    } else {
        (exponent_field(b) - 1) as nat
    }
}

/// The magnitude of the value in units of 2^-149 (infinities count as the
/// largest exponent, so they saturate like any large value).
pub open spec fn magnitude_units(b: u32) -> nat {
    significand(b) * pow2(unit_shift(b))
}

/// The signed value in units of 2^-149.
pub open spec fn value_units(b: u32) -> int {
    if is_negative(b) {
        -(magnitude_units(b) as int)
    } else {
        magnitude_units(b) as int
    }
}

/// Nearest integer to `n * scale / units_per_one()`, halves rounded away from zero.
pub open spec fn round_scaled(n: nat, scale: nat) -> nat {
    ((2 * n * scale + units_per_one()) / (2 * units_per_one())) as nat
}

pub open spec fn min_nat(a: nat, b: nat) -> nat {
    if a <= b {
        a
    } else {
        b
    }
}

/// Signed 16-bit sample for a value in units: non-negative values are scaled
/// by 32767 and negative ones by 32768, so that 1.0 and -1.0 meet the two
/// ends of the range; the result is rounded to nearest and saturated.
pub open spec fn i16_of_units(u: int) -> int {
    if u >= 0 {
        min_nat(round_scaled(u as nat, I16_TOP as nat), I16_TOP as nat) as int
    } else {
        -(min_nat(round_scaled((-u) as nat, I16_BOTTOM as nat), I16_BOTTOM as nat) as int)
    }
}

/// Signed 16-bit sample for a bit pattern; not-a-number gives silence.
pub open spec fn i16_sample(b: u32) -> int {
    if is_nan(b) {
        0
    } else {
        i16_of_units(value_units(b))
    }
}

/// Unsigned 16-bit sample: the signed one biased to the range's midpoint.
pub open spec fn u16_sample(b: u32) -> int {
    i16_sample(b) + 32768
}

/// `pow2(k)` for a small exponent, computed by doubling.
fn small_pow2(k: u64) -> (r: u64)
    requires
        k <= 40,
    ensures
        r as nat == pow2(k as nat),
{
    proof {
        lemma2_to64();
        lemma2_to64_rest();
    }
    let mut d: u64 = 1;
    let mut i: u64 = 0;
    while i < k
        invariant
            i <= k <= 40,
            d as nat == pow2(i as nat),
        decreases k - i,
    {
        proof {
            lemma2_to64();
        lemma2_to64_rest();
            lemma_pow2_strictly_increases(i as nat, 40);
            lemma_pow2_unfold((i + 1) as nat);
        }
        d = d * 2;
        i = i + 1;
    }
    d
}

proof fn lemma_pow2_le(a: nat, b: nat)
    requires
        a <= b,
    ensures
        pow2(a) <= pow2(b),
{
    if a < b {
        lemma_pow2_strictly_increases(a, b);
    }
}

/// A value of two or more (in magnitude) saturates at either scale.
proof fn lemma_large_saturates(m: nat, scale: nat)
    requires
        m >= pow2(150),
        scale >= 1,
    ensures
        round_scaled(m, scale) >= 2 * scale,
{
    let d = units_per_one();
    lemma_pow2_pos(149);
    lemma_pow2_adds(149, 1);
    lemma2_to64();
        lemma2_to64_rest();
    assert(pow2(150) == 2 * d);
    assert(2 * m * scale + d >= (2 * scale) * (2 * d)) by (nonlinear_arith)
        requires
            m >= 2 * d,
            scale >= 1,
            d > 0,
    ;
    lemma_div_is_ordered(((2 * scale) * (2 * d)) as int, (2 * m * scale + d) as int, (2 * d) as int);
    lemma_div_by_multiple(2 * scale as int, 2 * d as int);
}

/// Below two, rounding reduces to a division of the significand by `pow2(k)`.
proof fn lemma_round_reduces(sig: nat, e: nat, scale: nat)
    requires
        e <= 126,
    ensures
        round_scaled(sig * pow2(e), scale) == (sig * scale + pow2((148 - e) as nat)) / pow2(
            (149 - e) as nat,
        ),
{
    let k = (149 - e) as nat;
    let a = sig * scale + pow2((k - 1) as nat);
    let x = pow2(e + 1);
    lemma_pow2_adds(e + 1, (k - 1) as nat);
    lemma_pow2_adds(e + 1, k);
    lemma_pow2_unfold(e + 1);
    lemma_pow2_unfold(150);
    lemma_pow2_pos(e + 1);
    lemma_pow2_pos(k);
    lemma_pow2_pos((k - 1) as nat);
    assert((e + 1) + (k - 1) == 149);
    assert((e + 1) + k == 150);
    assert(2 * (sig * pow2(e)) * scale + pow2(149) == x * a) by (nonlinear_arith)
        requires
            x == 2 * pow2(e),
            a == sig * scale + pow2((k - 1) as nat),
            pow2(149) == x * pow2((k - 1) as nat),
    ;
    assert(2 * pow2(149) == x * pow2(k));
    lemma_div_multiples_vanish_quotient(x as int, a as int, pow2(k) as int);
}

/// A significand below 2^24 scaled by at most 2^15 vanishes for `k > 40`.
proof fn lemma_tiny_rounds_to_zero(sig: nat, scale: nat, k: nat)
    requires
        sig < 16777216,
        scale <= 32768,
        40 < k,
    ensures
        (sig * scale + pow2((k - 1) as nat)) / pow2(k) == 0,
{
    lemma2_to64();
        lemma2_to64_rest();
    lemma_pow2_unfold(k);
    lemma_pow2_le(40, (k - 1) as nat);
    assert(sig * scale < 549755813888) by (nonlinear_arith)
        requires
            sig < 16777216,
            scale <= 32768,
    ;
    let p = pow2((k - 1) as nat);
    assert(pow2(k) == 2 * p);
    assert(p >= 1099511627776);
    assert(sig * scale + p < pow2(k));
    lemma_basic_div((sig * scale + p) as int, pow2(k) as int);
}

/// Saturated magnitude of a non-NaN pattern at the given scale.
fn scaled_magnitude(bits: u32, scale: u64) -> (r: u64)
    requires
        !is_nan(bits),
        scale == 32767 || scale == 32768,
    ensures
        r as nat == min_nat(round_scaled(magnitude_units(bits), scale as nat), scale as nat),
{
    let exp: u32 = (bits / 8388608) % 256;
    let frac: u32 = bits % 8388608;
    if exp >= 128 {
        proof {
            lemma_pow2_adds(23, 127);
            lemma_pow2_le(127, unit_shift(bits));
            lemma2_to64();
        lemma2_to64_rest();
            assert(magnitude_units(bits) >= pow2(150)) by (nonlinear_arith)
                requires
                    significand(bits) >= 8388608,
                    pow2(unit_shift(bits)) >= pow2(127),
                    pow2(150) == 8388608 * pow2(127),
                    magnitude_units(bits) == significand(bits) * pow2(unit_shift(bits)),
            ;
            lemma_large_saturates(magnitude_units(bits), scale as nat);
        }
        return scale;
    }
    let sig: u64 = if exp == 0 {
        frac as u64
    } else {
        frac as u64 + 8388608
    };
    let e: u64 = if exp == 0 {
        0
    } else {
        exp as u64 - 1
    };
    let k: u64 = 149 - e;
    proof {
        lemma_round_reduces(sig as nat, e as nat, scale as nat);
    }
    if k > 40 {
        proof {
            lemma_tiny_rounds_to_zero(sig as nat, scale as nat, k as nat);
        }
        return 0;
    }
    let d = small_pow2(k);
    proof {
        lemma_pow2_pos(k as nat);
        lemma_pow2_unfold(k as nat);
        lemma2_to64();
        lemma2_to64_rest();
        lemma_pow2_le(k as nat, 40);
        assert(sig * scale < 549755813888) by (nonlinear_arith)
            requires
                sig < 16777216,
                scale <= 32768,
        ;
    }
    let q: u64 = (sig * scale + d / 2) / d;
    if q > scale {
        scale
    } else {
        q
    }
}

/// Converts a normalized sample to the signed 16-bit target.
pub fn sample_i16(bits: u32) -> (r: i16)
    ensures
        r as int == i16_sample(bits),
{
    let exp: u32 = (bits / 8388608) % 256;
    let frac: u32 = bits % 8388608;
    if exp == 255 && frac != 0 {
        return 0;
    }
    proof {
        lemma_pow2_pos(149);
        lemma_basic_div(pow2(149) as int, (2 * pow2(149)) as int);
    }
    if bits >= 0x8000_0000 {
        let m = scaled_magnitude(bits, 32768);
        (0 - m as i32) as i16
    } else {
        let m = scaled_magnitude(bits, 32767);
        m as i16
    }
}

/// Converts a normalized sample to the unsigned 16-bit target.
pub fn sample_u16(bits: u32) -> (r: u16)
    ensures
        r as int == u16_sample(bits),
{
    let s = sample_i16(bits);
    (s as i32 + 32768) as u16
}

proof fn lemma_round_monotonic(n1: nat, n2: nat, scale: nat)
    requires
        n1 <= n2,
    ensures
        round_scaled(n1, scale) <= round_scaled(n2, scale),
{
    let d = units_per_one();
    lemma_pow2_pos(149);
    assert(2 * n1 * scale + d <= 2 * n2 * scale + d) by (nonlinear_arith)
        requires
            n1 <= n2,
    ;
    lemma_div_pos_is_pos((2 * n1 * scale + d) as int, (2 * d) as int);
    lemma_div_is_ordered((2 * n1 * scale + d) as int, (2 * n2 * scale + d) as int, (2 * d) as int);
}

/// Rounding reaches `scale` as soon as the value exceeds one.
proof fn lemma_round_above_one(n: nat, scale: nat)
    requires
        n >= units_per_one(),
    ensures
        round_scaled(n, scale) >= scale,
{
    let d = units_per_one();
    lemma_pow2_pos(149);
    assert(2 * n * scale + d >= scale * (2 * d)) by (nonlinear_arith)
        requires
            n >= d,
            d > 0,
    ;
    lemma_div_is_ordered((scale * (2 * d)) as int, (2 * n * scale + d) as int, (2 * d) as int);
    lemma_div_by_multiple(scale as int, (2 * d) as int);
}

/// Exactly one rounds to `scale`.
proof fn lemma_round_at_one(scale: nat)
    ensures
        round_scaled(units_per_one(), scale) == scale,
{
    let d = units_per_one();
    lemma_pow2_pos(149);
    assert(2 * d * scale + d == (2 * d) * scale + d) by (nonlinear_arith);
    lemma_div_multiples_vanish_fancy(scale as int, d as int, (2 * d) as int);
}

proof fn lemma_units_monotonic(u1: int, u2: int)
    requires
        u1 <= u2,
    ensures
        i16_of_units(u1) <= i16_of_units(u2),
{
    if u1 >= 0 {
        lemma_round_monotonic(u1 as nat, u2 as nat, I16_TOP as nat);
    } else if u2 < 0 {
        lemma_round_monotonic((-u2) as nat, (-u1) as nat, I16_BOTTOM as nat);
    }
}

/// The signed (and the unsigned) 16-bit conversion is monotonic: a value
/// that is not greater than another never converts to a greater sample.
pub proof fn lemma_i16_monotonic(a: u32, b: u32)
    requires
        !is_nan(a),
        !is_nan(b),
        value_units(a) <= value_units(b),
    ensures
        i16_sample(a) <= i16_sample(b),
        u16_sample(a) <= u16_sample(b),
{
    lemma_units_monotonic(value_units(a), value_units(b));
}

/// 1.0 converts to the largest signed 16-bit value and -1.0 to the smallest.
pub proof fn lemma_i16_endpoints(b: u32)
    requires
        !is_nan(b),
    ensures
        value_units(b) == units_per_one() ==> i16_sample(b) == 32767 && u16_sample(b) == 65535,
        value_units(b) == -units_per_one() ==> i16_sample(b) == -32768 && u16_sample(b) == 0,
{
    lemma_pow2_pos(149);
    lemma_round_at_one(I16_TOP as nat);
    lemma_round_at_one(I16_BOTTOM as nat);
}

/// Values beyond [-1.0, 1.0] saturate at the ends of the integer ranges
/// instead of wrapping around.
pub proof fn lemma_i16_saturates(b: u32)
    requires
        !is_nan(b),
    ensures
        value_units(b) > units_per_one() ==> i16_sample(b) == 32767 && u16_sample(b) == 65535,
        value_units(b) < -units_per_one() ==> i16_sample(b) == -32768 && u16_sample(b) == 0,
{
    let u = value_units(b);
    lemma_pow2_pos(149);
    if u > units_per_one() {
        lemma_round_above_one(u as nat, I16_TOP as nat);
    }
    if u < -units_per_one() {
        lemma_round_above_one((-u) as nat, I16_BOTTOM as nat);
    }
}

} // verus!
