//! Scaling an angular rate to a whole number of pixels.
//!
//! A rate is an IEEE 754 binary64, held as its encoding in a `u64`: one sign
//! bit, eleven bits of biased exponent, fifty-two bits of fraction. [`scale`]
//! yields what the float expression `(rate * 20.0).round()` yields, brought
//! into the range of `i32`, and computes it in integers alone: the product is
//! rounded to fifty-three significant bits, ties to even, as the multiplication
//! does, and then to the nearest whole number, ties away from zero.

use vstd::prelude::*;
use vstd::arithmetic::power2::*;
use vstd::arithmetic::div_mod::*;
use vstd::bits::*;

verus! {

/// Pixels of cursor travel per unit of angular rate.
pub const SENSITIVITY: u64 = 20;

/// The encoding's sign bit, two to the power 63.
pub const SIGN_BIT: u64 = 0x8000_0000_0000_0000;

/// The significand's leading bit, two to the power 52. The encoding leaves it
/// out.
pub const HIDDEN_BIT: u64 = 0x0010_0000_0000_0000;

/// One more than the largest biased exponent, two to the power 11.
pub const EXPONENT_SPAN: u64 = 2048;

/// The biased exponent that marks an infinity or a NaN.
pub const SPECIAL_EXPONENT: u64 = 2047;

/// The magnitude from which a step no longer fits `i32`, two to the power 31.
pub const STEP_LIMIT: u64 = 0x8000_0000;

/// Whether the sign bit of an encoding is set.
pub open spec fn is_negative(bits: u64) -> bool {
    bits >= SIGN_BIT
}

/// The eleven exponent bits of an encoding.
pub open spec fn biased_exponent(bits: u64) -> int {
    (bits as int / HIDDEN_BIT as int) % EXPONENT_SPAN as int
}

/// The fifty-two fraction bits of an encoding.
pub open spec fn fraction(bits: u64) -> int {
    bits as int % HIDDEN_BIT as int
}

/// Whether an encoding stands for a number, not for an infinity or a NaN.
pub open spec fn is_finite(bits: u64) -> bool {
    biased_exponent(bits) < SPECIAL_EXPONENT
}

/// The significand of a finite encoding: its magnitude is
/// `significand × 2^exponent`.
pub open spec fn significand(bits: u64) -> int {
    if biased_exponent(bits) == 0 {
        fraction(bits)
    } else {
        HIDDEN_BIT + fraction(bits)
    }
}

/// The power of two that the significand of a finite encoding is taken by.
pub open spec fn exponent(bits: u64) -> int {
    if biased_exponent(bits) == 0 {
        -1074
    } else {
        biased_exponent(bits) - 1075
    }
}

/// The whole number nearest to `n / d`, the even one of two that are equally
/// near.
pub open spec fn nearest_ties_even(n: int, d: int) -> int
    recommends
        0 <= n,
        0 < d,
{
    let q = n / d;
    let r = n % d;
    if 2 * r < d || (2 * r == d && q % 2 == 0) {
        q
    } else {
        q + 1
    }
}

/// The whole number nearest to `n / d`, the larger one of two that are equally
/// near.
pub open spec fn nearest_ties_away(n: int, d: int) -> int
    recommends
        0 <= n,
        0 < d,
{
    (2 * n + d) / (2 * d)
}

/// How many low bits the product of a normal significand with the sensitivity
/// has beyond fifty-three. The product lies between 2^56 and 2^58.
pub open spec fn excess_bits(bits: u64) -> nat {
    if SENSITIVITY * significand(bits) < 0x0200_0000_0000_0000 {
        4
    } else {
        5
    }
}

/// The significand of the rounded product of a normal rate with the
/// sensitivity: the product is `product_significand × 2^product_exponent`.
pub open spec fn product_significand(bits: u64) -> int {
    nearest_ties_even(SENSITIVITY * significand(bits), pow2(excess_bits(bits)) as int)
}

/// The power of two that goes with [`product_significand`].
pub open spec fn product_exponent(bits: u64) -> int {
    exponent(bits) + excess_bits(bits)
}

/// The magnitude of the rounded product of a normal rate with the sensitivity,
/// rounded to the nearest whole number.
pub open spec fn whole_product(bits: u64) -> int
    recommends
        0 < biased_exponent(bits) < SPECIAL_EXPONENT,
{
    let k = product_exponent(bits);
    if k >= 0 {
        product_significand(bits) * pow2(k as nat)
    } else {
        nearest_ties_away(product_significand(bits), pow2((-k) as nat) as int)
    }
}

/// The magnitude of a scaled rate, before it is brought into range.
///
/// A zero or subnormal rate scales to less than one half, so to zero. An
/// infinity stands at the limit, and a NaN counts as zero.
pub open spec fn scaled_magnitude(bits: u64) -> int {
    if biased_exponent(bits) == 0 {
        0
    } else if biased_exponent(bits) == SPECIAL_EXPONENT {
        if fraction(bits) == 0 {
            STEP_LIMIT as int
        } else {
            0
        }
    } else {
        whole_product(bits)
    }
}

/// The pixels that a rate stands for: its scaled magnitude with the rate's
/// sign, held to the range of `i32`.
pub open spec fn scaled(bits: u64) -> int {
    let m = scaled_magnitude(bits);
    if is_negative(bits) {
        if m >= STEP_LIMIT {
            i32::MIN as int
        } else {
            -m
        }
    } else {
        if m >= STEP_LIMIT {
            i32::MAX as int
        } else {
            m
        }
    }
}

/// Whether the magnitude of a rate is less than `num / den`. No infinity and
/// no NaN is.
pub open spec fn magnitude_below(bits: u64, num: int, den: int) -> bool
    recommends
        0 <= num,
        0 < den,
{
    &&& is_finite(bits)
    &&& if exponent(bits) >= 0 {
        den * significand(bits) * pow2(exponent(bits) as nat) < num
    } else {
        den * significand(bits) < num * pow2((-exponent(bits)) as nat)
    }
}

/// Divides and rounds to the nearest whole number, ties to even.
fn divide_ties_even(n: u64, d: u64) -> (r: u64)
    requires
        0 < d,
        n < u64::MAX,
    ensures
        r == nearest_ties_even(n as int, d as int),
{
    let q: u64 = n / d;
    let rest: u64 = n % d;
    // `rest < d - rest` is `2 * rest < d` without the doubling
    if rest < d - rest || (rest == d - rest && q % 2 == 0) {
        q
    } else {
        q + 1
    }
}

/// Divides and rounds to the nearest whole number, ties upward.
fn divide_ties_away(n: u64, d: u64) -> (r: u64)
    requires
        0 < d <= 0x0040_0000_0000_0000,
        n <= 0x0020_0000_0000_0000,
    ensures
        r == nearest_ties_away(n as int, d as int),
{
    (2 * n + d) / (2 * d)
}

/// The rounded significand of a normal rate's product with the sensitivity,
/// and the number of bits that the rounding dropped.
fn round_product(f: u64) -> (r: (u64, u64))
    requires
        f < HIDDEN_BIT,
    ensures
        r.1 == (if SENSITIVITY * (HIDDEN_BIT + f) < 0x0200_0000_0000_0000 { 4int } else { 5int }),
        r.0 == nearest_ties_even(SENSITIVITY * (HIDDEN_BIT + f), pow2(r.1 as nat) as int),
        HIDDEN_BIT <= r.0 <= 2 * HIDDEN_BIT,
{
    proof {
        lemma2_to64();
    }
    let product: u64 = SENSITIVITY * (HIDDEN_BIT + f);
    if product < 0x0200_0000_0000_0000 {
        (divide_ties_even(product, 16), 4)
    } else {
        (divide_ties_even(product, 32), 5)
    }
}

/// Scales a rate by the sensitivity and rounds it to whole pixels.
pub fn scale(bits: u64) -> (r: i32)
    ensures
        r == scaled(bits),
{
    let negative = bits >= SIGN_BIT;
    let e: u64 = (bits / HIDDEN_BIT) % EXPONENT_SPAN;
    let f: u64 = bits % HIDDEN_BIT;
    let magnitude: u64 = if e == 0 {
        0
    } else if e == SPECIAL_EXPONENT {
        if f == 0 {
            STEP_LIMIT
        } else {
            0
        }
    } else {
        let (rounded, dropped) = round_product(f);
        if e + dropped >= 1054 {
            proof {
                lemma_large_product_saturates(rounded as int, e as int - 1075 + dropped as int);
            }
            STEP_LIMIT
        } else if e + dropped <= 1020 {
            proof {
                lemma_small_product_vanishes(rounded as int, 1075 - e as int - dropped as int);
            }
            0
        } else {
            let shift: u64 = 1075 - e - dropped;
            proof {
                lemma_pow2_between(shift as nat);
                lemma_u64_shl_is_mul(1, shift);
            }
            let divisor: u64 = 1u64 << shift;
            let whole: u64 = divide_ties_away(rounded, divisor);
            proof {
                lemma_whole_within_limit(rounded as int, divisor as int);
            }
            whole
        }
    };
    if negative {
        if magnitude >= STEP_LIMIT {
            i32::MIN
        } else {
            -(magnitude as i32)
        }
    } else {
        if magnitude >= STEP_LIMIT {
            i32::MAX
        } else {
            magnitude as i32
        }
    }
}

/// Powers of two from 2^22 to 2^54 lie between those two.
proof fn lemma_pow2_between(shift: nat)
    requires
        22 <= shift <= 54,
    ensures
        0x40_0000 <= pow2(shift) <= 0x0040_0000_0000_0000,
{
    lemma2_to64();
    lemma2_to64_rest();
    if shift > 22 {
        lemma_pow2_strictly_increases(22, shift);
    }
    if shift < 54 {
        lemma_pow2_strictly_increases(shift, 54);
    }
}

/// A product of fifty-three bits taken by 2^-21 or more reaches the limit.
proof fn lemma_large_product_saturates(r: int, k: int)
    requires
        HIDDEN_BIT <= r,
        -21 <= k,
    ensures
        k >= 0 ==> r * pow2(k as nat) >= STEP_LIMIT,
        k < 0 ==> nearest_ties_away(r, pow2((-k) as nat) as int) >= STEP_LIMIT,
{
    lemma2_to64();
    if k >= 0 {
        let p = pow2(k as nat) as int;
        lemma_pow2_pos(k as nat);
        assert(r * p >= r) by (nonlinear_arith)
            requires
                p >= 1,
                r >= 0,
        ;
    } else {
        let s = (-k) as nat;
        let p = pow2(s) as int;
        lemma_pow2_pos(s);
        if s < 21 {
            lemma_pow2_strictly_increases(s, 21);
        }
        assert((2 * r + p) / (2 * p) >= 0x8000_0000) by (nonlinear_arith)
            requires
                0 < p <= 0x20_0000,
                r >= 0x0010_0000_0000_0000,
        ;
    }
}

/// A product of fifty-three bits taken by 2^-55 or less rounds to zero.
proof fn lemma_small_product_vanishes(r: int, s: int)
    requires
        0 <= r <= 2 * HIDDEN_BIT,
        55 <= s,
    ensures
        nearest_ties_away(r, pow2(s as nat) as int) == 0,
{
    lemma2_to64_rest();
    let p = pow2(s as nat) as int;
    if s > 55 {
        lemma_pow2_strictly_increases(55, s as nat);
    }
    lemma_basic_div(2 * r + p, 2 * p);
}

/// A product of fifty-three bits taken by 2^-22 or less stays within the
/// width of `u64`.
proof fn lemma_whole_within_limit(r: int, d: int)
    requires
        0 <= r <= 2 * HIDDEN_BIT,
        0x40_0000 <= d,
    ensures
        0 <= nearest_ties_away(r, d) <= STEP_LIMIT,
{
    assert(0 <= (2 * r + d) / (2 * d) <= 0x8000_0000) by (nonlinear_arith)
        requires
            0 <= r <= 0x0020_0000_0000_0000,
            0x40_0000 <= d,
    ;
}

/// The scaled magnitude of a normal rate is its exact product with the
/// sensitivity, rounded twice: as long as it stays below the limit, it lies
/// within half a pixel, and half a unit in the last place of the product, of
/// `SENSITIVITY × significand × 2^exponent`.
///
/// With `s = -exponent`, the bound reads
/// `2 × |scaled_magnitude × 2^s - SENSITIVITY × significand| <= 2^s + 2^excess_bits`.
pub proof fn lemma_scaled_magnitude_is_near_product(bits: u64)
    requires
        0 < biased_exponent(bits) < SPECIAL_EXPONENT,
        scaled_magnitude(bits) < STEP_LIMIT,
    ensures
        exponent(bits) < 0,
        2 * (scaled_magnitude(bits) * pow2((-exponent(bits)) as nat) - SENSITIVITY * significand(
            bits,
        )) <= pow2((-exponent(bits)) as nat) + pow2(excess_bits(bits)),
        2 * (SENSITIVITY * significand(bits) - scaled_magnitude(bits) * pow2(
            (-exponent(bits)) as nat,
        )) <= pow2((-exponent(bits)) as nat) + pow2(excess_bits(bits)),
{
    lemma2_to64();
    let n = SENSITIVITY * significand(bits);
    let dropped = excess_bits(bits);
    let d = pow2(dropped) as int;
    let r = product_significand(bits);
    let k = product_exponent(bits);
    assert(HIDDEN_BIT <= r);
    if k >= -21 {
        lemma_large_product_saturates(r, k);
    }
    let kept = (-k) as nat;
    let p = pow2(kept) as int;
    let w = scaled_magnitude(bits);
    lemma_pow2_pos(kept);
    lemma_pow2_adds(kept, dropped);
    assert(pow2((-exponent(bits)) as nat) == p * d);
    assert(-d <= 2 * (r * d - n) <= d) by {
        if dropped == 4 {
            assert(r == nearest_ties_even(n, 16));
            assert(-16 <= 2 * (r * 16 - n) <= 16);
        } else {
            assert(r == nearest_ties_even(n, 32));
            assert(-32 <= 2 * (r * 32 - n) <= 32);
        }
    }
    lemma_fundamental_div_mod(2 * r + p, 2 * p);
    lemma_mod_bound(2 * r + p, 2 * p);
    assert(2 * r + p == (2 * p) * w + (2 * r + p) % (2 * p));
    assert(-p <= 2 * (w * p - r) <= p) by (nonlinear_arith)
        requires
            2 * r + p == (2 * p) * w + (2 * r + p) % (2 * p),
            0 <= (2 * r + p) % (2 * p) < 2 * p,
    ;
    assert(2 * (w * (p * d) - n) <= p * d + d && 2 * (n - w * (p * d)) <= p * d + d)
        by (nonlinear_arith)
        requires
            -p <= 2 * (w * p - r) <= p,
            -d <= 2 * (r * d - n) <= d,
            d > 0,
    ;
}

/// A rate of magnitude less than one part in [`SENSITIVITY`] scales to at
/// most one pixel.
pub proof fn lemma_rate_below_one_step(bits: u64)
    requires
        magnitude_below(bits, 1, SENSITIVITY as int),
    ensures
        -1 <= scaled(bits) <= 1,
{
    if biased_exponent(bits) != 0 {
        let m = significand(bits);
        let q = exponent(bits);
        let n = SENSITIVITY * m;
        lemma2_to64();
        lemma2_to64_rest();
        if q >= 0 {
            let p = pow2(q as nat) as int;
            lemma_pow2_pos(q as nat);
            assert(SENSITIVITY * m * p >= 1) by (nonlinear_arith)
                requires
                    p >= 1,
                    m >= 1,
            ;
        } else {
            let s = (-q) as nat;
            if s < 56 {
                lemma_pow2_strictly_increases(s, 56);
            }
            let dropped = excess_bits(bits);
            let d = pow2(dropped) as int;
            let kept = (s - dropped) as nat;
            let p = pow2(kept) as int;
            lemma_pow2_adds(kept, dropped);
            lemma_pow2_pos(kept);
            let r = product_significand(bits);
            assert(n / d < p) by (nonlinear_arith)
                requires
                    0 <= n < p * d,
                    d > 0,
            ;
            assert(r <= p);
            assert((2 * r + p) / (2 * p) <= 1) by (nonlinear_arith)
                requires
                    0 <= r <= p,
                    p > 0,
            ;
            assert(r >= 0) by (nonlinear_arith)
                requires
                    r >= n / d,
                    n >= 0,
                    d > 0,
            ;
            assert((2 * r + p) / (2 * p) >= 0) by (nonlinear_arith)
                requires
                    0 <= r,
                    p > 0,
            ;
        }
    }
}

} // verus!
