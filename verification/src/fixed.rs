//! Signed fixed-point arithmetic: rounded-down division, and scaling by a
//! sine or cosine given in billionths.

use vstd::prelude::*;
use vstd::arithmetic::div_mod::{lemma_fundamental_div_mod, lemma_fundamental_div_mod_converse};

verus! {

/// Billionths that make a sine or cosine of one.
pub const SINE_SCALE: i64 = 1_000_000_000;

/// A sine or cosine in billionths lies between minus one and one.
pub open spec fn is_sine(billionths: int) -> bool {
    -SINE_SCALE <= billionths <= SINE_SCALE
}

/// A quantity times a sine or cosine in billionths, rounded down.
pub open spec fn scale_by(value: int, billionths: int) -> int {
    (value * billionths) / 1_000_000_000
}

/// The size of a quantity without its sign.
pub open spec fn magnitude(value: int) -> int {
    if value < 0 {
        -value
    } else {
        value
    }
}

/// Tells whether a value in billionths can be a sine or cosine.
pub fn sine_in_range(billionths: i64) -> (valid: bool)
    ensures
        valid == is_sine(billionths as int),
{
    -SINE_SCALE <= billionths && billionths <= SINE_SCALE
}

/// Divides rounding down, also below zero, and gives the remainder that
/// goes with it.
pub fn floor_div_rem(numerator: i128, divisor: i128) -> (result: (i128, i128))
    requires
        divisor > 0,
    ensures
        result.0 == numerator as int / divisor as int,
        result.1 == numerator as int % divisor as int,
        0 <= result.1 < divisor,
{
    let truncated: i128 = numerator / divisor;
    let rest: i128 = numerator % divisor;
    proof {
        let n = numerator as int;
        let d = divisor as int;
        if n >= 0 {
            lemma_fundamental_div_mod(n, d);
        } else {
            lemma_fundamental_div_mod(-n, d);
            assert(d * (-((-n) / d)) == -(d * ((-n) / d))) by (nonlinear_arith);
            assert(n == d * truncated + rest);
            assert(d * (truncated - 1) == d * truncated - d) by (nonlinear_arith);
            assert(0 <= (-n) / d <= -n) by (nonlinear_arith)
                requires
                    -n > 0,
                    d > 0,
            ;
            if rest < 0 {
                // A remainder needs a divisor of two or more, which halves the
                // quotient: it is then well above the least integer.
                assert(2 * ((-n) / d) <= -n) by (nonlinear_arith)
                    requires
                        -n == d * ((-n) / d) + (-n) % d,
                        0 <= (-n) % d,
                        0 <= (-n) / d,
                        d >= 2,
                ;
            }
        }
        if rest < 0 {
            lemma_fundamental_div_mod_converse(n, d, truncated - 1, rest + d);
        } else {
            lemma_fundamental_div_mod_converse(n, d, truncated as int, rest as int);
        }
    }
    if rest < 0 {
        (truncated - 1, rest + divisor)
    } else {
        (truncated, rest)
    }
}

/// Scales a quantity by a sine or cosine.
pub fn scale(value: i64, billionths: i64) -> (scaled: i64)
    requires
        value > i64::MIN,
        is_sine(billionths as int),
    ensures
        scaled == scale_by(value as int, billionths as int),
        -magnitude(value as int) <= scaled <= magnitude(value as int),
{
    proof {
        lemma_scale_bounded(value as int, billionths as int);
    }
    let product: i128 = (value as i128) * (billionths as i128);
    let quotient: (i128, i128) = floor_div_rem(product, 1_000_000_000);
    quotient.0 as i64
}

/// Scaling by a sine or cosine never enlarges a quantity.
pub proof fn lemma_scale_bounded(value: int, billionths: int)
    requires
        is_sine(billionths),
    ensures
        -magnitude(value) <= scale_by(value, billionths) <= magnitude(value),
        -magnitude(value) * 1_000_000_000 <= value * billionths <= magnitude(value)
            * 1_000_000_000,
{
    let size = magnitude(value);
    assert(-size * 1_000_000_000 <= value * billionths <= size * 1_000_000_000)
        by (nonlinear_arith)
        requires
            -size <= value <= size,
            -1_000_000_000 <= billionths <= 1_000_000_000,
    ;
}

/// A quotient is no larger than a bound whose multiple the dividend does not
/// exceed.
pub proof fn lemma_quotient_bounded(dividend: int, bound: int, divisor: int)
    requires
        0 <= dividend <= bound * divisor,
        0 <= bound,
        0 < divisor,
    ensures
        0 <= dividend / divisor <= bound,
{
    vstd::arithmetic::div_mod::lemma_div_is_ordered(dividend, bound * divisor, divisor);
    vstd::arithmetic::div_mod::lemma_div_by_multiple(bound, divisor);
    vstd::arithmetic::div_mod::lemma_div_pos_is_pos(dividend, divisor);
}

} // verus!
