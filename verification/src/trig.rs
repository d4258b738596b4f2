//! Fixed-point sine and cosine over millidegree angles, used to turn a yaw
//! into a horizontal forward vector and a pitch into a camera offset.
//!
//! The half-turn kernel is the classical rational approximation
//! `4 d (180 - d) / (40500 - d (180 - d))` (d in degrees), carried here in
//! millidegrees on a component scale of 1 000. It is exact at 0, 30, 90,
//! 150 and 180 degrees, which pins the axis-aligned directions exactly.

use crate::angle::{wrapped, FULL_TURN, HALF_TURN, QUARTER_TURN};
use vstd::prelude::*;

verus! {

/// Scale of a unit-vector component: 1.0 is carried as 1 000.
pub const UNIT: i64 = 1_000;

/// Sine over the first half turn, `d` in `[0, HALF_TURN]` millidegrees.
pub open spec fn sin_half(d: int) -> int {
    let t = d * (HALF_TURN - d);
    (4000 * t) / (40_500_000_000 - t)
}

/// Fixed-point sine of an angle in `[0, FULL_TURN)`, component scale 1 000.
pub open spec fn sin_mdeg(a: int) -> int {
    if a <= HALF_TURN {
        sin_half(a)
    } else {
        -sin_half(a - HALF_TURN)
    }
}

/// Fixed-point cosine of an angle in `[0, FULL_TURN)`, component scale 1 000.
pub open spec fn cos_mdeg(a: int) -> int {
    sin_mdeg(wrapped(a + QUARTER_TURN))
}

/// The kernel's argument product `d (HALF_TURN - d)` stays in `[0, 8.1e9]`.
proof fn lemma_kernel_product_bounds(d: int)
    requires
        0 <= d <= HALF_TURN,
    ensures
        0 <= d * (HALF_TURN - d) <= 8_100_000_000,
{
    assert(d * (HALF_TURN - d) == 8_100_000_000 - (d - 90_000) * (d - 90_000))
        by (nonlinear_arith);
    assert((d - 90_000) * (d - 90_000) >= 0) by (nonlinear_arith);
    assert((d - 90_000) * (d - 90_000) <= 8_100_000_000) by (nonlinear_arith)
        requires
            -90_000 <= d - 90_000 <= 90_000,
    ;
}

/// The half-turn kernel stays within one unit.
pub proof fn lemma_sin_half_bounds(d: int)
    requires
        0 <= d <= HALF_TURN,
    ensures
        0 <= sin_half(d) <= UNIT,
{
    lemma_kernel_product_bounds(d);
    let t = d * (HALF_TURN - d);
    let num = 4000 * t;
    let den = 40_500_000_000 - t;
    vstd::arithmetic::div_mod::lemma_div_pos_is_pos(num, den);
    assert(num <= 1000 * den);
    vstd::arithmetic::div_mod::lemma_div_is_ordered(num, 1000 * den, den);
    vstd::arithmetic::div_mod::lemma_div_by_multiple(1000, den);
}

fn sin_half_fixed(d: i64) -> (r: i64)
    requires
        0 <= d <= HALF_TURN,
    ensures
        r == sin_half(d as int),
        0 <= r <= UNIT,
{
    proof {
        lemma_kernel_product_bounds(d as int);
        lemma_sin_half_bounds(d as int);
    }
    let t: i64 = d * (HALF_TURN - d);
    let num: u64 = (4000 * t) as u64;
    let den: u64 = (40_500_000_000 - t) as u64;
    let r: u64 = num / den;
    r as i64
}

/// Fixed-point sine on the millidegree scale.
pub fn sine(a: i64) -> (r: i64)
    requires
        0 <= a < FULL_TURN,
    ensures
        r == sin_mdeg(a as int),
        -UNIT <= r <= UNIT,
{
    if a <= HALF_TURN {
        sin_half_fixed(a)
    } else {
        -sin_half_fixed(a - HALF_TURN)
    }
}

/// Fixed-point cosine on the millidegree scale.
pub fn cosine(a: i64) -> (r: i64)
    requires
        0 <= a < FULL_TURN,
    ensures
        r == cos_mdeg(a as int),
        -UNIT <= r <= UNIT,
{
    let s: i64 = a + QUARTER_TURN;
    let b: i64 = if s >= FULL_TURN {
        s - FULL_TURN
    } else {
        s
    };
    proof {
        if s >= FULL_TURN {
            vstd::arithmetic::div_mod::lemma_fundamental_div_mod_converse_mod(
                s as int,
                FULL_TURN as int,
                1,
                b as int,
            );
        } else {
            vstd::arithmetic::div_mod::lemma_fundamental_div_mod_converse_mod(
                s as int,
                FULL_TURN as int,
                0,
                b as int,
            );
        }
    }
    sine(b)
}

} // verus!
