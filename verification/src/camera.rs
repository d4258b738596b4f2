//! Camera orbit: places the chase camera on a sphere around the character at
//! the controller's pitch and distance. The offset lies in the vertical
//! plane fixed relative to the character's facing — it does not depend on
//! yaw — and the camera looks back at the character with world-up as the
//! up-reference; the look orientation itself is the runtime's affair.

use crate::angle::{DISTANCE_MAX, DISTANCE_MIN, PITCH_MAX, PITCH_MIN, QUARTER_TURN};
use crate::trig::{cos_mdeg, cosine, lemma_sin_half_bounds, sin_mdeg, sine, sin_half};
use crate::vector::Vec3I;
use vstd::prelude::*;

verus! {

/// Where the camera goes this tick, relative to the character's position,
/// in milli-units.
#[derive(Clone, Copy, Debug, PartialEq, Eq, Structural)]
pub struct CameraPlacement {
    pub offset: Vec3I,
}

/// Height of the orbit offset: the boom length scaled by the pitch cosine.
pub open spec fn orbit_offset_y(pitch: int, distance: int) -> int {
    distance * cos_mdeg(pitch) / 1000
}

/// Horizontal reach of the orbit offset: behind the character (negative z)
/// by the boom length scaled by the pitch sine.
pub open spec fn orbit_offset_z(pitch: int, distance: int) -> int {
    -(distance * sin_mdeg(pitch) / 1000)
}

/// The whole per-tick camera pose relative to the character.
pub open spec fn orbit_placement(pitch: int, distance: int) -> CameraPlacement {
    CameraPlacement {
        offset: Vec3I {
            x: 0,
            y: orbit_offset_y(pitch, distance) as i64,
            z: orbit_offset_z(pitch, distance) as i64,
        },
    }
}

/// Within the pitch invariant the camera never dips below the character and
/// never drifts behind more than the boom: both trig factors are
/// nonnegative there.
pub proof fn lemma_orbit_trig_nonneg(pitch: int)
    requires
        PITCH_MIN <= pitch <= PITCH_MAX,
    ensures
        0 <= sin_mdeg(pitch) <= 1000,
        0 <= cos_mdeg(pitch) <= 1000,
{
    lemma_sin_half_bounds(pitch);
    let s = pitch + QUARTER_TURN;
    vstd::arithmetic::div_mod::lemma_fundamental_div_mod_converse_mod(s, 360_000, 0, s);
    assert(cos_mdeg(pitch) == sin_half(s));
    lemma_sin_half_bounds(s);
}

/// Computes the camera offset for one tick: a point on the sphere of radius
/// `distance` at `pitch`, azimuth fixed behind the character.
pub fn camera_placement(pitch: i64, distance: i64) -> (p: CameraPlacement)
    requires
        PITCH_MIN <= pitch <= PITCH_MAX,
        DISTANCE_MIN <= distance <= DISTANCE_MAX,
    ensures
        p == orbit_placement(pitch as int, distance as int),
        p.offset.x == 0,
        0 <= p.offset.y <= distance,
        -distance <= p.offset.z <= 0,
{
    let s: i64 = sine(pitch);
    let c: i64 = cosine(pitch);
    proof {
        lemma_orbit_trig_nonneg(pitch as int);
        assert(0 <= distance * s <= 30_000_000 && 0 <= distance * c <= 30_000_000)
            by (nonlinear_arith)
            requires
                0 <= s <= 1000,
                0 <= c <= 1000,
                0 < distance <= 30_000,
        ;
        assert(distance * s <= distance * 1000 && distance * c <= distance * 1000)
            by (nonlinear_arith)
            requires
                0 <= s <= 1000,
                0 <= c <= 1000,
                0 < distance,
        ;
        vstd::arithmetic::div_mod::lemma_div_pos_is_pos(distance * c, 1000);
        vstd::arithmetic::div_mod::lemma_div_is_ordered(distance * c, distance * 1000, 1000);
        vstd::arithmetic::div_mod::lemma_div_by_multiple(distance as int, 1000);
        vstd::arithmetic::div_mod::lemma_div_pos_is_pos(distance * s, 1000);
        vstd::arithmetic::div_mod::lemma_div_is_ordered(distance * s, distance * 1000, 1000);
    }
    let y: i64 = (((distance as u64) * (c as u64)) / 1000) as i64;
    let z: i64 = -((((distance as u64) * (s as u64)) / 1000) as i64);
    CameraPlacement { offset: Vec3I { x: 0, y, z } }
}

} // verus!
