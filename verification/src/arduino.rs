//! Range helpers on integers.
use vstd::prelude::*;

verus! {

/// `x` limited to the range from `low` to `high`.
pub open spec fn spec_constrain(x: int, low: int, high: int) -> int {
    if x <= low {
        low
    } else if x >= high {
        high
    } else {
        x
    }
}

/// The magnitude of `x`.
pub open spec fn magnitude(x: int) -> int {
    if x < 0 {
        -x
    } else {
        x
    }
}

/// The quotient of `num` by `den`, rounded towards zero.
pub open spec fn quotient_towards_zero(num: int, den: int) -> int {
    if (num < 0) == (den < 0) {
        magnitude(num) / magnitude(den)
    } else {
        -(magnitude(num) / magnitude(den))
    }
}

/// `x` carried from the range `in_min..in_max` over to `out_min..out_max`:
/// `(x - in_min) * (out_max - out_min) / (in_max - in_min) + out_min`, the
/// quotient rounded towards zero.
pub open spec fn spec_map(x: int, in_min: int, in_max: int, out_min: int, out_max: int) -> int {
    quotient_towards_zero((x - in_min) * (out_max - out_min), in_max - in_min) + out_min
}

/// Limits `x` to the range from `low` to `high`.
pub fn constrain(x: i32, low: i32, high: i32) -> (limited: i32)
    ensures
        limited == spec_constrain(x as int, low as int, high as int),
{
    if x <= low {
        return low;
    }
    if x >= high {
        return high;
    }
    x
}

/// The magnitude of the difference `a - b`, and whether it is negative.
fn difference(a: i32, b: i32) -> (d: (u64, bool))
    ensures
        d.0 == magnitude(a - b),
        d.1 == (a - b < 0),
        d.0 <= 0xFFFF_FFFF,
{
    let a: i64 = a as i64;
    let b: i64 = b as i64;
    if a < b {
        ((b - a) as u64, true)
    } else {
        ((a - b) as u64, false)
    }
}

/// Carries `x` from the range `in_min..in_max` over to `out_min..out_max`.
/// The two ends of the input range must differ, and the result must fit.
pub fn map(x: i32, in_min: i32, in_max: i32, out_min: i32, out_max: i32) -> (mapped: i32)
    requires
        in_min != in_max,
        i32::MIN <= spec_map(x as int, in_min as int, in_max as int, out_min as int, out_max as int)
            <= i32::MAX,
    ensures
        mapped == spec_map(x as int, in_min as int, in_max as int, out_min as int, out_max as int),
{
    let (dx, dx_negative) = difference(x, in_min);
    let (dout, dout_negative) = difference(out_max, out_min);
    let (den, den_negative) = difference(in_max, in_min);
    assert(dx * dout <= 0xFFFF_FFFF * 0xFFFF_FFFF) by (nonlinear_arith)
        requires
            dx <= 0xFFFF_FFFF,
            dout <= 0xFFFF_FFFF,
    ;
    let num: u128 = dx as u128 * dout as u128;
    let quotient: u128 = num / den as u128;
    let num_negative = dx_negative != dout_negative;
    proof {
        let n = (x - in_min) * (out_max - out_min);
        assert(magnitude(n) == dx * dout) by (nonlinear_arith)
            requires
                n == (x - in_min) * (out_max - out_min),
                dx == magnitude(x - in_min),
                dout == magnitude(out_max - out_min),
        ;
        assert(n < 0 ==> num_negative) by (nonlinear_arith)
            requires
                n == (x - in_min) * (out_max - out_min),
                num_negative == ((x - in_min < 0) != (out_max - out_min < 0)),
        ;
        assert(quotient <= num) by (nonlinear_arith)
            requires
                quotient == num / (den as u128),
                den >= 1,
        ;
        if n >= 0 && num_negative {
            assert(n == 0) by (nonlinear_arith)
                requires
                    n == (x - in_min) * (out_max - out_min),
                    n >= 0,
                    (x - in_min < 0) != (out_max - out_min < 0),
            ;
            assert(quotient == 0);
        }
    }
    if num_negative == den_negative {
        (quotient as i128 + out_min as i128) as i32
    } else {
        (out_min as i128 - quotient as i128) as i32
    }
}

} // verus!
