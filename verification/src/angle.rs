//! Angle and range arithmetic: folding a yaw into one turn and pulling
//! pitch and distance into their invariant bounds.

use vstd::prelude::*;

verus! {

/// One full turn in millidegrees; every angle in this crate is measured in
/// thousandths of a degree.
pub const FULL_TURN: i64 = 360_000;

/// Half a turn in millidegrees.
pub const HALF_TURN: i64 = 180_000;

/// A quarter turn in millidegrees.
pub const QUARTER_TURN: i64 = 90_000;

/// Lowest camera pitch: one degree above the horizontal plane.
pub const PITCH_MIN: i64 = 1_000;

/// Highest camera pitch: straight above the character.
pub const PITCH_MAX: i64 = 90_000;

/// Shortest camera boom in milli-units.
pub const DISTANCE_MIN: i64 = 5_000;

/// Longest camera boom in milli-units.
pub const DISTANCE_MAX: i64 = 30_000;

/// An angle folded into `[0, FULL_TURN)`: the Euclidean remainder of a turn.
pub open spec fn wrapped(a: int) -> int {
    a % (FULL_TURN as int)
}

/// A value pulled into `[lo, hi]`.
pub open spec fn clamped(v: int, lo: int, hi: int) -> int {
    if v < lo {
        lo
    } else if v > hi {
        hi
    } else {
        v
    }
}

/// Folds an angle into `[0, FULL_TURN)`. The argument is wide so that a yaw
/// already in range plus any one-tick look delta can never overflow it.
pub fn wrap_angle(a: i128) -> (r: i64)
    ensures
        r == wrapped(a as int),
        0 <= r < FULL_TURN,
{
    let m: u128 = FULL_TURN as u128;
    if a >= 0 {
        let r: u128 = (a as u128) % m;
        r as i64
    } else {
        let b: u128 = ((-(a + 1)) as u128) % m;
        let r: i64 = (FULL_TURN - 1) - (b as i64);
        proof {
            let n: int = -(a + 1);
            let mi: int = FULL_TURN as int;
            vstd::arithmetic::div_mod::lemma_fundamental_div_mod(n, mi);
            let q: int = n / mi;
            vstd::arithmetic::div_mod::lemma_fundamental_div_mod_converse_mod(
                a as int,
                mi,
                -q - 1,
                mi - 1 - n % mi,
            );
        }
        r
    }
}

/// Pulls a wide intermediate value into `[lo, hi]`.
pub fn clamp_wide(v: i128, lo: i64, hi: i64) -> (r: i64)
    requires
        lo <= hi,
    ensures
        r == clamped(v as int, lo as int, hi as int),
{
    if v < lo as i128 {
        lo
    } else if v > hi as i128 {
        hi
    } else {
        v as i64
    }
}

/// A clamped value lies inside its bounds.
pub proof fn lemma_clamp_bounds(v: int, lo: int, hi: int)
    requires
        lo <= hi,
    ensures
        lo <= clamped(v, lo, hi) <= hi,
{
}

/// Clamping is idempotent: however many times the bounds are applied after
/// the first, the value no longer moves.
pub proof fn lemma_clamp_idempotent(v: int, lo: int, hi: int)
    requires
        lo <= hi,
    ensures
        clamped(clamped(v, lo, hi), lo, hi) == clamped(v, lo, hi),
{
}

/// A value already inside the bounds is left untouched.
pub proof fn lemma_clamp_inside(v: int, lo: int, hi: int)
    requires
        lo <= v <= hi,
    ensures
        clamped(v, lo, hi) == v,
{
}

/// Folding is idempotent: an angle already inside one turn stays put.
pub proof fn lemma_wrap_idempotent(a: int)
    ensures
        wrapped(wrapped(a)) == wrapped(a),
        0 <= a < FULL_TURN ==> wrapped(a) == a,
{
    let m: int = FULL_TURN as int;
    vstd::arithmetic::div_mod::lemma_mod_bound(a, m);
    vstd::arithmetic::div_mod::lemma_mod_twice(a, m);
}

} // verus!
