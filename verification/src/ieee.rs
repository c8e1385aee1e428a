//! Bit patterns of IEEE 754 numbers.

use vstd::arithmetic::power2::{
    lemma2_to64, lemma_pow2_adds, lemma_pow2_pos, lemma_pow2_strictly_increases, lemma_pow2_unfold,
    pow2,
};
use vstd::prelude::*;

verus! {

/// One more than the largest fraction of a single precision number.
pub const SINGLE_UNIT: u32 = 0x80_0000;

/// One more than the largest fraction of a double precision number.
pub const DOUBLE_UNIT: u64 = 0x10_0000_0000_0000;

/// Whether a single precision number has its sign set.
pub open spec fn single_negative(bits: u32) -> bool {
    bits >= 0x8000_0000
}

/// The biased exponent of a single precision number.
pub open spec fn single_exponent(bits: u32) -> int {
    bits as int / 0x80_0000 % 256
}

/// The fraction of a single precision number.
pub open spec fn single_fraction(bits: u32) -> int {
    bits as int % 0x80_0000
}

/// Neither infinite nor undefined.
pub open spec fn single_is_finite(bits: u32) -> bool {
    single_exponent(bits) != 255
}

/// The absolute value of a finite single precision number, in units of 2^-149.
pub open spec fn single_magnitude(bits: u32) -> int {
    if single_exponent(bits) == 0 {
        single_fraction(bits)
    } else {
        (single_fraction(bits) + SINGLE_UNIT) * pow2((single_exponent(bits) - 1) as nat)
    }
}

/// Whether a double precision number has its sign set.
pub open spec fn double_negative(bits: u64) -> bool {
    bits >= 0x8000_0000_0000_0000
}

/// The biased exponent of a double precision number.
pub open spec fn double_exponent(bits: u64) -> int {
    bits as int / 0x10_0000_0000_0000 % 2048
}

/// The fraction of a double precision number.
pub open spec fn double_fraction(bits: u64) -> int {
    bits as int % 0x10_0000_0000_0000
}

/// Neither infinite nor undefined.
pub open spec fn double_is_finite(bits: u64) -> bool {
    double_exponent(bits) != 2047
}

/// The absolute value of a finite double precision number, in units of 2^-1074.
pub open spec fn double_magnitude(bits: u64) -> int {
    if double_exponent(bits) == 0 {
        double_fraction(bits)
    } else {
        (double_fraction(bits) + DOUBLE_UNIT) * pow2((double_exponent(bits) - 1) as nat)
    }
}

/// The two bit patterns stand for the same finite number.
pub open spec fn same_number(single: u32, double: u64) -> bool {
    &&& single_is_finite(single)
    &&& double_is_finite(double)
    &&& single_negative(single) == double_negative(double)
    &&& double_magnitude(double) == single_magnitude(single) * pow2(925)
}

/// Whether a single precision number is neither infinite nor undefined.
pub fn is_finite_single(bits: u32) -> (finite: bool)
    ensures
        finite == single_is_finite(bits),
{
    bits / SINGLE_UNIT % 256 != 255
}

/// Whether a double precision number is neither infinite nor undefined.
pub fn is_finite_double(bits: u64) -> (finite: bool)
    ensures
        finite == double_is_finite(bits),
{
    bits / DOUBLE_UNIT % 2048 != 2047
}

/// The bit pattern of a double precision number.
fn double_bits(negative: bool, exponent: u64, fraction: u64) -> (bits: u64)
    requires
        exponent < 2048,
        fraction < DOUBLE_UNIT,
    ensures
        double_negative(bits) == negative,
        double_exponent(bits) == exponent,
        double_fraction(bits) == fraction,
{
    let unsigned: u64 = exponent * DOUBLE_UNIT + fraction;
    if negative {
        0x8000_0000_0000_0000 + unsigned
    } else {
        unsigned
    }
}

/// A finite single precision number in double precision. No digit is lost.
pub fn widened(bits: u32) -> (double: u64)
    requires
        single_is_finite(bits),
    ensures
        same_number(bits, double),
{
    let negative = bits >= 0x8000_0000;
    let exponent: u32 = bits / SINGLE_UNIT % 256;
    let fraction: u32 = bits % SINGLE_UNIT;
    if exponent > 0 {
        let double = double_bits(
            negative,
            exponent as u64 + 896,
            fraction as u64 * 0x2000_0000,
        );
        proof {
            lemma_rescaled(fraction as int + SINGLE_UNIT, (exponent - 1) as nat, 925);
            lemma_rescaled(
                fraction as int + SINGLE_UNIT,
                29,
                (exponent + 895) as nat,
            );
            lemma2_to64();
        }
        return double;
    }
    if fraction == 0 {
        let double = double_bits(negative, 0, 0);
        proof {
            assert(0 * pow2(925) == 0) by (nonlinear_arith);
        }
        return double;
    }
    let mut significand: u32 = fraction;
    let mut doublings: u32 = 0;
    proof {
        lemma2_to64();
    }
    while significand < SINGLE_UNIT
        invariant
            0 < fraction < SINGLE_UNIT,
            doublings <= 23,
            significand == fraction * pow2(doublings as nat),
            fraction <= significand < 2 * SINGLE_UNIT,
            significand >= pow2(doublings as nat),
        decreases 2 * SINGLE_UNIT - significand,
    {
        proof {
            lemma2_to64();
            lemma_pow2_unfold((doublings + 1) as nat);
            let power = pow2(doublings as nat) as int;
            assert(fraction * (2 * power) == 2 * (fraction * power)) by (nonlinear_arith);
            if doublings == 23 {
                assert(pow2(23) == 0x80_0000);
            }
        }
        significand = significand * 2;
        doublings = doublings + 1;
    }
    let double = double_bits(
        negative,
        (897 - doublings) as u64,
        (significand - SINGLE_UNIT) as u64 * 0x2000_0000,
    );
    proof {
        lemma2_to64();
        let n = doublings as nat;
        lemma_rescaled(fraction as int, n, (29 + (896 - n)) as nat);
        lemma_rescaled(significand as int, 29, (896 - n) as nat);
    }
    double
}

/// Scaling twice is scaling once by the product.
proof fn lemma_rescaled(value: int, first: nat, second: nat)
    ensures
        value * pow2(first) * pow2(second) == value * pow2(first + second),
{
    lemma_pow2_adds(first, second);
    let a = pow2(first) as int;
    let b = pow2(second) as int;
    assert(value * a * b == value * (a * b)) by (nonlinear_arith);
}

/// The infinite and the undefined numbers are those from the infinity of their
/// sign upwards.
pub proof fn law_finite_numbers_lie_below_infinity(single: u32, double: u64)
    ensures
        single_is_finite(single) <==> single < 0x7f80_0000 || 0x8000_0000 <= single < 0xff80_0000,
        double_is_finite(double) <==> double < 0x7ff0_0000_0000_0000 || 0x8000_0000_0000_0000
            <= double < 0xfff0_0000_0000_0000,
{
}

/// The absolute values of double precision numbers are ordered as their bits are.
pub proof fn law_larger_bits_are_larger_numbers(a: u64, b: u64)
    requires
        a < b < 0x8000_0000_0000_0000,
    ensures
        double_magnitude(a) < double_magnitude(b),
{
    let unit = DOUBLE_UNIT as int;
    let (e, f) = (double_exponent(a), double_fraction(a));
    let (g, h) = (double_exponent(b), double_fraction(b));
    assert(a == e * unit + f);
    assert(b == g * unit + h);
    assert(e < g || (e == g && f < h));
    if g > 0 {
        let q = pow2((g - 1) as nat) as int;
        lemma_pow2_pos((g - 1) as nat);
        if e == g {
            assert((f + unit) * q < (h + unit) * q) by (nonlinear_arith)
                requires
                    f < h,
                    q > 0,
            ;
        } else if e == 0 {
            assert((h + unit) * q >= unit) by (nonlinear_arith)
                requires
                    h >= 0,
                    q >= 1,
                    unit > 0,
            ;
        } else {
            let p = pow2((e - 1) as nat) as int;
            lemma_pow2_pos((e - 1) as nat);
            lemma_pow2_unfold(e as nat);
            if e < g - 1 {
                lemma_pow2_strictly_increases(e as nat, (g - 1) as nat);
            }
            assert(2 * p <= q);
            assert((f + unit) * p < (h + unit) * q) by (nonlinear_arith)
                requires
                    0 <= f < unit,
                    h >= 0,
                    p > 0,
                    2 * p <= q,
            ;
        }
    }
}

/// A number has one double precision form: what stands for the same single
/// precision number is the same.
pub proof fn law_double_form_is_unique(single: u32, a: u64, b: u64)
    requires
        same_number(single, a),
        same_number(single, b),
    ensures
        a == b,
{
    let half: u64 = 0x8000_0000_0000_0000;
    let x = (if a >= half { a - half } else { a as int }) as u64;
    let y = (if b >= half { b - half } else { b as int }) as u64;
    assert(double_magnitude(x) == double_magnitude(a)) by {
        assert(double_exponent(x) == double_exponent(a));
        assert(double_fraction(x) == double_fraction(a));
    }
    assert(double_magnitude(y) == double_magnitude(b)) by {
        assert(double_exponent(y) == double_exponent(b));
        assert(double_fraction(y) == double_fraction(b));
    }
    if x < y {
        law_larger_bits_are_larger_numbers(x, y);
    } else if y < x {
        law_larger_bits_are_larger_numbers(y, x);
    }
}

/// Widening keeps the sign, rebiases the exponent and appends zeros to the
/// fraction of a normal number; a zero stays a zero of its sign.
pub proof fn law_widening_rebiases_the_exponent(single: u32, double: u64)
    requires
        same_number(single, double),
    ensures
        ({
            let sign: int = if single >= 0x8000_0000 { 1 } else { 0 };
            let rest = single - sign * 0x8000_0000;
            &&& rest >= 0x80_0000 ==> double == sign * 0x8000_0000_0000_0000 + rest * 0x2000_0000
                + 896 * 0x10_0000_0000_0000
            &&& rest == 0 ==> double == sign * 0x8000_0000_0000_0000
            &&& double >= 0x8000_0000_0000_0000 <==> sign == 1
            &&& double - sign * 0x8000_0000_0000_0000 < 0x7ff0_0000_0000_0000
        }),
{
    let sign: int = if single >= 0x8000_0000 { 1 } else { 0 };
    let rest = single - sign * 0x8000_0000;
    let (e, f) = (single_exponent(single), single_fraction(single));
    assert(rest == e * 0x80_0000 + f);
    if rest >= 0x80_0000 {
        let expected = (sign * 0x8000_0000_0000_0000 + rest * 0x2000_0000 + 896
            * 0x10_0000_0000_0000) as u64;
        assert(expected == sign * 0x8000_0000_0000_0000 + (e + 896) * 0x10_0000_0000_0000 + f
            * 0x2000_0000);
        assert(double_exponent(expected) == e + 896);
        assert(double_fraction(expected) == f * 0x2000_0000);
        lemma_rescaled(f + SINGLE_UNIT, (e - 1) as nat, 925);
        lemma_rescaled(f + SINGLE_UNIT, 29, (e + 895) as nat);
        lemma2_to64();
        law_double_form_is_unique(single, expected, double);
    }
    if rest == 0 {
        let expected = (sign * 0x8000_0000_0000_0000) as u64;
        assert(double_exponent(expected) == 0);
        assert(double_fraction(expected) == 0);
        assert(0 * pow2(925) == 0) by (nonlinear_arith);
        law_double_form_is_unique(single, expected, double);
    }
}

} // verus!
