//! Fixed-point arithmetic for world coordinates.
//!
//! Every length, position, velocity and force in this crate is a signed 32-bit
//! count of steps, with [`UNIT`] steps to one world unit. Sums are formed
//! exactly in 64 bits and then brought back into the 32-bit range by
//! saturation, so no operation wraps around.

use vstd::prelude::*;

verus! {

/// Number of fixed-point steps in one world unit.
pub const UNIT: i32 = 1000;

/// The nearest value to `v` that fits in 32 signed bits.
pub open spec fn clamp_i32(v: int) -> int {
    if v < i32::MIN as int {
        i32::MIN as int
    } else if v > i32::MAX as int {
        i32::MAX as int
    } else {
        v
    }
}

/// Half of `v`, rounded toward zero.
pub open spec fn half(v: int) -> int {
    if v >= 0 {
        v / 2
    } else {
        -((-v) / 2)
    }
}

/// `v` taken `fraction` steps out of [`UNIT`], rounded toward zero.
pub open spec fn scaled(v: int, fraction: int) -> int {
    let product = v * fraction;
    if product >= 0 {
        product / (UNIT as int)
    } else {
        -((-product) / (UNIT as int))
    }
}

/// Brings a 64-bit intermediate result back into the 32-bit coordinate range.
pub fn saturate(v: i64) -> (r: i32)
    ensures
        r as int == clamp_i32(v as int),
{
    if v < -2147483648i64 {
        -2147483648i32
    } else if v > 2147483647i64 {
        2147483647i32
    } else {
        v as i32
    }
}

/// Saturating sum of two coordinates.
pub fn plus(a: i32, b: i32) -> (r: i32)
    ensures
        r as int == clamp_i32(a as int + b as int),
{
    saturate(a as i64 + b as i64)
}

/// Saturating difference of two coordinates.
pub fn minus(a: i32, b: i32) -> (r: i32)
    ensures
        r as int == clamp_i32(a as int - b as int),
{
    saturate(a as i64 - b as i64)
}

/// Half of a length, rounded toward zero.
pub fn half_of(v: i32) -> (r: i32)
    ensures
        r as int == half(v as int),
{
    v / 2
}

/// `v` scaled by `fraction / UNIT`, rounded toward zero and saturated.
pub fn scale(v: i32, fraction: i32) -> (r: i32)
    ensures
        r as int == clamp_i32(scaled(v as int, fraction as int)),
{
    proof {
        assert(-0x8000_0000 * 0x8000_0000 <= (v as int) * (fraction as int) <= 0x8000_0000
            * 0x8000_0000) by (nonlinear_arith)
            requires
                -0x8000_0000 <= v as int <= 0x7fff_ffff,
                -0x8000_0000 <= fraction as int <= 0x7fff_ffff,
        ;
    }
    let product: i64 = (v as i64) * (fraction as i64);
    saturate(product / 1000i64)
}

} // verus!
