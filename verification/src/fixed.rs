//! Fixed-point scalars.
//!
//! A scalar is an `i64` holding `UNIT` times its real value, so `UNIT`
//! stands for one and `-UNIT` for minus one. The arithmetic used by the
//! evaluator is defined here exactly: addition saturates at the `i64`
//! bounds, multiplication rescales the product by `UNIT` (truncating toward
//! zero, saturating), and the remainder follows the sign of the dividend,
//! as the source-language floating remainder does.

use vstd::prelude::*;

verus! {

/// The number that stands for one.
pub const UNIT: i64 = 65536;

/// Magnitude of an integer.
pub open spec fn abs_val(v: int) -> int {
    if v < 0 {
        -v
    } else {
        v
    }
}

/// Saturate an unbounded integer into the `i64` range.
pub open spec fn clamp_to_i64(v: int) -> int {
    if v < i64::MIN {
        i64::MIN as int
    } else if v > i64::MAX {
        i64::MAX as int
    } else {
        v
    }
}

/// Fixed-point addition: the exact sum, saturated.
pub open spec fn fx_add(a: int, b: int) -> int {
    clamp_to_i64(a + b)
}

/// Fixed-point multiplication: the product rescaled by `UNIT`, truncated
/// toward zero, saturated.
pub open spec fn fx_mul(a: int, b: int) -> int {
    let m = (abs_val(a) * abs_val(b)) / (UNIT as int);
    if (a < 0) == (b < 0) {
        clamp_to_i64(m)
    } else {
        clamp_to_i64(-m)
    }
}

/// Fixed-point remainder with the dividend's sign: the magnitude is the
/// remainder of the magnitudes, the sign is the dividend's. A zero divisor
/// gives zero.
pub open spec fn fx_rem(a: int, b: int) -> int {
    if b == 0 {
        0
    } else {
        let m = abs_val(a) % abs_val(b);
        if a < 0 {
            -m
        } else {
            m
        }
    }
}

/// The 8-bit channel for a scalar `v`: `v` in `[-UNIT, UNIT]` maps linearly
/// onto `0 ..= 255`, rounding half up, and values outside are clamped.
pub open spec fn channel_spec(v: int) -> int {
    if v <= -(UNIT as int) {
        0
    } else if v >= UNIT as int {
        255
    } else {
        ((v + UNIT) * 255 + UNIT) / (2 * UNIT as int)
    }
}

/// The normalized coordinate of pixel `i` of `extent` pixels:
/// `2 * i / extent - 1`, in fixed point, truncated.
pub open spec fn pixel_coord_spec(i: int, extent: int) -> int
    recommends
        extent >= 1,
{
    (2 * UNIT * i) / extent - UNIT
}

/// Magnitude of an `i64`, as a `u64` so that `i64::MIN` has one too.
fn abs_u64(a: i64) -> (m: u64)
    ensures
        m as int == abs_val(a as int),
{
    if a >= 0 {
        a as u64
    } else if a == i64::MIN {
        9223372036854775808u64
    } else {
        (-a) as u64
    }
}

/// Exact saturating addition of two fixed-point scalars.
pub fn fixed_add(a: i64, b: i64) -> (r: i64)
    ensures
        r as int == fx_add(a as int, b as int),
{
    if b >= 0 && a > i64::MAX - b {
        i64::MAX
    } else if b < 0 && a < i64::MIN - b {
        i64::MIN
    } else {
        a + b
    }
}

/// Exact fixed-point multiplication, truncating toward zero and saturating.
pub fn fixed_mul(a: i64, b: i64) -> (r: i64)
    ensures
        r as int == fx_mul(a as int, b as int),
{
    let ma = abs_u64(a);
    let mb = abs_u64(b);
    proof {
        assert((ma as int) * (mb as int) <= 0x8000000000000000int * 0x8000000000000000int)
            by (nonlinear_arith)
            requires
                0 <= ma as int <= 0x8000000000000000int,
                0 <= mb as int <= 0x8000000000000000int,
        ;
    }
    let prod: u128 = (ma as u128) * (mb as u128);
    let q: u128 = prod / (UNIT as u128);
    if (a < 0) == (b < 0) {
        if q > 9223372036854775807u128 {
            i64::MAX
        } else {
            q as i64
        }
    } else {
        if q >= 9223372036854775808u128 {
            i64::MIN
        } else {
            -(q as i64)
        }
    }
}

/// Exact remainder with the dividend's sign; zero when the divisor is zero.
pub fn fixed_rem(a: i64, b: i64) -> (r: i64)
    ensures
        r as int == fx_rem(a as int, b as int),
{
    if b == 0 {
        return 0;
    }
    let ma = abs_u64(a);
    let mb = abs_u64(b);
    let m: u64 = ma % mb;
    if a < 0 {
        -(m as i64)
    } else {
        m as i64
    }
}

/// The 8-bit channel for a scalar, per `channel_spec`.
pub fn channel_of(v: i64) -> (c: u8)
    ensures
        c as int == channel_spec(v as int),
{
    if v <= -UNIT {
        0
    } else if v >= UNIT {
        255
    } else {
        let num: u64 = ((v + UNIT) as u64) * 255 + (UNIT as u64);
        let denom: u64 = (2 * UNIT) as u64;
        let q: u64 = num / denom;
        q as u8
    }
}

/// The normalized fixed-point coordinate of pixel `i` out of `extent`.
pub fn pixel_coord(i: u32, extent: u32) -> (c: i64)
    requires
        extent >= 1,
    ensures
        c as int == pixel_coord_spec(i as int, extent as int),
{
    let num: u64 = 131072u64 * (i as u64);
    assert(num == 2 * UNIT * i);
    let q: u64 = num / (extent as u64);
    proof {
        vstd::arithmetic::div_mod::lemma_div_nonincreasing(num as int, extent as int);
    }
    assert(q <= num);
    (q as i64) - UNIT
}

} // verus!
