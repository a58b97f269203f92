//! IEEE-754 double-precision values held as their 64-bit patterns.
//!
//! The bot's tunable distances and thresholds (killaura range, follow radius,
//! auto-disconnect health) and the goto coordinates arrive from the JSON
//! protocol as doubles. The library keeps them as the raw bit pattern of the
//! double (`f64::to_bits`) and does the little arithmetic it needs on them
//! (clamping, `max(0)`, flooring to a block coordinate) with integer code whose
//! meaning is stated over the numeric value of the pattern.
use vstd::arithmetic::div_mod::*;
use vstd::arithmetic::mul::*;
use vstd::arithmetic::power2::*;
use vstd::prelude::*;

verus! {

/// The sign bit of a 64-bit pattern.
pub const SIGN_BIT: u64 = 0x8000_0000_0000_0000;

/// 2^52: one unit of the biased exponent field.
pub const EXPONENT_UNIT: u64 = 0x10_0000_0000_0000;

/// Pattern of positive infinity; larger magnitudes are NaN.
pub const INFINITY_BITS: u64 = 0x7FF0_0000_0000_0000;

/// True when the sign bit of the pattern is set.
pub open spec fn f64_negative_sign(b: u64) -> bool {
    b >= SIGN_BIT
}

/// The pattern without its sign bit: the absolute value's pattern.
pub open spec fn f64_magnitude(b: u64) -> int {
    if f64_negative_sign(b) {
        b - SIGN_BIT
    } else {
        b as int
    }
}

/// The pattern encodes a NaN.
pub open spec fn f64_is_nan(b: u64) -> bool {
    f64_magnitude(b) > INFINITY_BITS
}

/// The pattern encodes an infinity.
pub open spec fn f64_is_infinite(b: u64) -> bool {
    f64_magnitude(b) == INFINITY_BITS
}

/// A key that orders doubles the way they compare numerically: for any two
/// patterns that are not NaN, `a < b` as doubles exactly when
/// `f64_key(a) < f64_key(b)`, and they are equal as doubles (including
/// `-0.0 == 0.0`) exactly when their keys are equal.
pub open spec fn f64_key(b: u64) -> int {
    if f64_negative_sign(b) {
        -f64_magnitude(b)
    } else {
        f64_magnitude(b)
    }
}

/// Numeric `a < b` on two doubles given by their patterns (false with a NaN).
pub open spec fn f64_lt(a: u64, b: u64) -> bool {
    !f64_is_nan(a) && !f64_is_nan(b) && f64_key(a) < f64_key(b)
}

/// Biased exponent field.
pub open spec fn f64_exponent_field(b: u64) -> int {
    f64_magnitude(b) / (EXPONENT_UNIT as int)
}

/// Fraction (mantissa) field.
pub open spec fn f64_fraction_field(b: u64) -> int {
    f64_magnitude(b) % (EXPONENT_UNIT as int)
}

/// Integer significand of a finite double, without sign.
pub open spec fn f64_significand(b: u64) -> int {
    if f64_exponent_field(b) == 0 {
        f64_fraction_field(b)
    } else {
        f64_fraction_field(b) + EXPONENT_UNIT
    }
}

/// Binary exponent by which the significand is scaled: a finite double is
/// `±significand * 2^scale`.
pub open spec fn f64_scale(b: u64) -> int {
    if f64_exponent_field(b) == 0 {
        -1074
    } else {
        f64_exponent_field(b) - 1075
    }
}

/// Signed significand.
pub open spec fn f64_signed_significand(b: u64) -> int {
    if f64_negative_sign(b) {
        -f64_significand(b)
    } else {
        f64_significand(b)
    }
}

/// The mathematical floor of a finite double (division rounds toward negative
/// infinity for a positive divisor).
pub open spec fn f64_floor(b: u64) -> int {
    if f64_scale(b) >= 0 {
        f64_signed_significand(b) * pow2(f64_scale(b) as nat)
    } else {
        f64_signed_significand(b) / (pow2((-f64_scale(b)) as nat) as int)
    }
}

/// An integer converted to `i32` the way Rust's float-to-int `as` saturates.
pub open spec fn saturate_i32(v: int) -> i32 {
    if v < i32::MIN {
        i32::MIN
    } else if v > i32::MAX {
        i32::MAX
    } else {
        v as i32
    }
}

/// `x.floor() as i32` for the double `x` with pattern `b`: NaN gives 0, the
/// infinities and out-of-range values saturate.
pub open spec fn f64_floor_i32(b: u64) -> i32 {
    if f64_is_nan(b) {
        0
    } else if f64_is_infinite(b) {
        if f64_negative_sign(b) {
            i32::MIN
        } else {
            i32::MAX
        }
    } else {
        saturate_i32(f64_floor(b))
    }
}

/// `x.clamp(lo, hi)` on patterns: below `lo` gives `lo`, above `hi` gives
/// `hi`, anything else (NaN included) is kept.
#[verifier::opaque]
pub open spec fn f64_clamp(x: u64, lo: u64, hi: u64) -> u64 {
    if f64_lt(x, lo) {
        lo
    } else if f64_lt(hi, x) {
        hi
    } else {
        x
    }
}

/// Pattern of the double `x`, limited from below by zero: a NaN or a negative
/// value gives `+0.0`, anything else is kept.
#[verifier::opaque]
pub open spec fn f64_at_least_zero(x: u64) -> u64 {
    if f64_is_nan(x) || f64_key(x) < 0 {
        0
    } else {
        x
    }
}

/// The order key of a pattern, as an exact machine integer.
pub fn f64_order_key(b: u64) -> (k: i64)
    ensures
        k == f64_key(b),
{
    if b >= SIGN_BIT {
        -((b - SIGN_BIT) as i64)
    } else {
        b as i64
    }
}

/// Whether the pattern encodes a NaN.
pub fn f64_bits_is_nan(b: u64) -> (r: bool)
    ensures
        r == f64_is_nan(b),
{
    let magnitude = if b >= SIGN_BIT {
        b - SIGN_BIT
    } else {
        b
    };
    magnitude > INFINITY_BITS
}

/// Numeric `a < b` on two patterns.
pub fn f64_bits_lt(a: u64, b: u64) -> (r: bool)
    ensures
        r == f64_lt(a, b),
{
    !f64_bits_is_nan(a) && !f64_bits_is_nan(b) && f64_order_key(a) < f64_order_key(b)
}

/// Numeric `a <= b` on two patterns (false when either is NaN).
pub open spec fn f64_le(a: u64, b: u64) -> bool {
    !f64_is_nan(a) && !f64_is_nan(b) && f64_key(a) <= f64_key(b)
}

/// Numeric `a <= b` on two patterns.
pub fn f64_bits_le(a: u64, b: u64) -> (r: bool)
    ensures
        r == f64_le(a, b),
{
    !f64_bits_is_nan(a) && !f64_bits_is_nan(b) && f64_order_key(a) <= f64_order_key(b)
}

/// `f64::clamp` on patterns. Like the standard method, it needs bounds that
/// are not NaN with `lo <= hi`.
pub fn f64_clamp_bits(x: u64, lo: u64, hi: u64) -> (r: u64)
    requires
        !f64_is_nan(lo),
        !f64_is_nan(hi),
        !f64_lt(hi, lo),
    ensures
        r == f64_clamp(x, lo, hi),
        !f64_is_nan(x) ==> !f64_lt(r, lo) && !f64_lt(hi, r),
{
    reveal(f64_clamp);
    if f64_bits_lt(x, lo) {
        lo
    } else if f64_bits_lt(hi, x) {
        hi
    } else {
        x
    }
}

/// `x.max(0.0)` on patterns: never NaN and never below zero.
pub fn f64_at_least_zero_bits(x: u64) -> (r: u64)
    ensures
        r == f64_at_least_zero(x),
        !f64_is_nan(r),
        f64_key(r) >= 0,
{
    reveal(f64_at_least_zero);
    if f64_bits_is_nan(x) || f64_order_key(x) < 0 {
        0
    } else {
        x
    }
}

/// `(-m) / d` in terms of `m / d` and `m % d`.
proof fn lemma_negated_floor_div(m: int, d: int)
    requires
        m >= 0,
        d > 0,
    ensures
        (-m) / d == if m % d == 0 {
            -(m / d)
        } else {
            -(m / d) - 1
        },
{
    lemma_fundamental_div_mod(m, d);
    let q = m / d;
    let r = m % d;
    assert(m == q * d + r) by {
        lemma_mul_is_commutative(d, q);
    }
    if r == 0 {
        assert(-m == (-q) * d + 0) by (nonlinear_arith)
            requires
                m == q * d + r,
                r == 0,
        ;
        lemma_fundamental_div_mod_converse_div(-m, d, -q, 0);
    } else {
        assert(-m == (-q - 1) * d + (d - r)) by (nonlinear_arith)
            requires
                m == q * d + r,
        ;
        lemma_fundamental_div_mod_converse_div(-m, d, -q - 1, d - r);
    }
}

/// `2^n` as a machine integer, for `n < 53`.
fn pow2_below_53(n: u64) -> (d: u64)
    requires
        n < 53,
    ensures
        d == pow2(n as nat),
        d <= pow2(52),
{
    proof {
        lemma2_to64();
        lemma2_to64_rest();
    }
    let mut d: u64 = 1;
    let mut i: u64 = 0;
    while i < n
        invariant
            i <= n < 53,
            d == pow2(i as nat),
            pow2(52) == 0x10_0000_0000_0000,
        decreases n - i,
    {
        proof {
            lemma_pow2_unfold((i + 1) as nat);
            if i < 52 {
                lemma_pow2_strictly_increases(i as nat, 52);
            }
        }
        d = d * 2;
        i = i + 1;
    }
    proof {
        if n < 52 {
            lemma_pow2_strictly_increases(n as nat, 52);
        }
    }
    d
}

/// Bound on the floor of a large-magnitude double: at least `2^31` in size.
proof fn lemma_large_floor(b: u64)
    requires
        !f64_is_nan(b),
        !f64_is_infinite(b),
        f64_exponent_field(b) >= 1054,
    ensures
        f64_negative_sign(b) ==> f64_floor(b) <= -0x8000_0000,
        !f64_negative_sign(b) ==> f64_floor(b) >= 0x8000_0000,
{
    lemma2_to64();
    lemma2_to64_rest();
    let m = f64_significand(b);
    let e = f64_scale(b);
    assert(m >= 0x10_0000_0000_0000);
    assert(e >= -21);
    if e >= 0 {
        lemma_pow2_pos(e as nat);
        let p = pow2(e as nat) as int;
        assert(m * p >= m) by (nonlinear_arith)
            requires
                m >= 0,
                p >= 1,
        ;
        assert((-m) * p <= -m) by (nonlinear_arith)
            requires
                m >= 0,
                p >= 1,
        ;
    } else {
        let k = (-e) as nat;
        lemma_pow2_pos(k);
        if k < 21 {
            lemma_pow2_strictly_increases(k, 21);
        }
        let d = pow2(k) as int;
        assert(d <= 0x20_0000);
        // Positive: m / d >= 2^52 / 2^21 = 2^31.
        assert(0x8000_0000 * d <= m) by (nonlinear_arith)
            requires
                d <= 0x20_0000,
                m >= 0x10_0000_0000_0000,
                d > 0,
        ;
        lemma_div_is_ordered(0x8000_0000 * d, m, d);
        lemma_fundamental_div_mod_converse_div(0x8000_0000 * d, d, 0x8000_0000, 0);
        // Negative: (-m) / d <= (-(2^31 d)) / d = -2^31.
        lemma_div_is_ordered(-m, -0x8000_0000 * d, d);
        lemma_fundamental_div_mod_converse_div(-0x8000_0000 * d, d, -0x8000_0000, 0);
    }
}

/// `x.floor() as i32` for the double whose pattern is `b`.
pub fn f64_floor_to_i32(b: u64) -> (r: i32)
    ensures
        r == f64_floor_i32(b),
{
    let negative = b >= SIGN_BIT;
    let magnitude = if negative {
        b - SIGN_BIT
    } else {
        b
    };
    if magnitude > INFINITY_BITS {
        return 0;
    }
    if magnitude == INFINITY_BITS {
        return if negative {
            i32::MIN
        } else {
            i32::MAX
        };
    }
    let exponent = magnitude / EXPONENT_UNIT;
    let fraction = magnitude % EXPONENT_UNIT;
    if exponent >= 1054 {
        proof {
            lemma_large_floor(b);
        }
        return if negative {
            i32::MIN
        } else {
            i32::MAX
        };
    }
    let significand = if exponent == 0 {
        fraction
    } else {
        fraction + EXPONENT_UNIT
    };
    // Here the scale is negative: the value is significand / 2^shift.
    let shift: u64 = if exponent == 0 {
        1074
    } else {
        1075 - exponent
    };
    assert(shift >= 22);
    assert(significand < 0x20_0000_0000_0000);
    let quotient: u64;
    let remainder: u64;
    if shift >= 53 {
        proof {
            lemma2_to64();
            lemma2_to64_rest();
            if shift > 53 {
                lemma_pow2_strictly_increases(53, shift as nat);
            }
            lemma_small_mod(significand as nat, pow2(shift as nat));
            lemma_basic_div(significand as int, pow2(shift as nat) as int);
        }
        quotient = 0;
        remainder = significand;
    } else {
        let divisor = pow2_below_53(shift);
        proof {
            lemma_pow2_pos(shift as nat);
        }
        quotient = significand / divisor;
        remainder = significand % divisor;
        proof {
            // quotient < 2^(53 - shift) <= 2^31
            lemma2_to64();
            lemma2_to64_rest();
            let p = pow2((53 - shift) as nat) as int;
            lemma_pow2_adds((53 - shift) as nat, shift as nat);
            assert(p * divisor == 0x20_0000_0000_0000);
            lemma_fundamental_div_mod(significand as int, divisor as int);
            assert(quotient < p) by (nonlinear_arith)
                requires
                    significand == divisor * quotient + remainder,
                    remainder >= 0,
                    significand < p * divisor,
                    divisor > 0,
            ;
            if shift > 22 {
                lemma_pow2_strictly_increases((53 - shift) as nat, 31);
            }
        }
    }
    assert(quotient < 0x8000_0000);
    proof {
        let d = pow2(shift as nat) as int;
        lemma_pow2_pos(shift as nat);
        assert(quotient == (significand as int) / d);
        assert(remainder == (significand as int) % d);
        assert(f64_scale(b) == -(shift as int));
        lemma_negated_floor_div(significand as int, d);
    }
    if negative {
        if remainder != 0 {
            -(quotient as i32) - 1
        } else {
            -(quotient as i32)
        }
    } else {
        quotient as i32
    }
}

} // verus!
