//! Grounded detection: classifies the downward ground probe's result. A
//! contact counts as ground only when it is near enough and its surface
//! normal leans away from world-up by less than the walkable slope bound.

use crate::vector::Vec3I;
use vstd::prelude::*;

verus! {

/// Height above the character's feet the ground probe starts from, in
/// milli-units.
pub const RAY_OFFSET: i64 = 300;

/// Farthest contact distance still counted as near-contact, in milli-units.
pub const RAY_MAX_RANGE: i64 = 500;

/// Cosine of the steepest walkable slope (44 degrees), as the fraction
/// `SLOPE_COS_NUM / SLOPE_COS_DEN`.
pub const SLOPE_COS_NUM: i64 = 71_934;

/// Denominator of the walkable-slope cosine fraction.
pub const SLOPE_COS_DEN: i64 = 100_000;

/// First contact of the downward ground probe: distance along the ray in
/// milli-units and the surface normal on the unit scale of 1 000.
#[derive(Clone, Copy, Debug, PartialEq, Eq, Structural)]
pub struct RayHit {
    pub distance: i64,
    pub normal: Vec3I,
}

/// Squared length of a normal on the unit scale.
pub open spec fn norm_sq(n: Vec3I) -> int {
    n.x * n.x + n.y * n.y + n.z * n.z
}

impl RayHit {
    /// What the physics backend hands back: a nonnegative distance and a
    /// nonzero normal whose components fit the unit scale.
    pub open spec fn wf(self) -> bool {
        &&& 0 <= self.distance
        &&& -1000 <= self.normal.x <= 1000
        &&& -1000 <= self.normal.y <= 1000
        &&& -1000 <= self.normal.z <= 1000
        &&& norm_sq(self.normal) > 0
    }
}

/// Whether a contact normal leans less than the walkable slope bound away
/// from world-up: the cosine of the angle between them, `n.y / |n|`, is
/// strictly greater than cos(44 degrees). Stated squared to stay in
/// integers; the sign guard keeps the squaring faithful.
pub open spec fn walkable_normal(n: Vec3I) -> bool {
    &&& n.y > 0
    &&& (SLOPE_COS_DEN * SLOPE_COS_DEN) * (n.y * n.y) > (SLOPE_COS_NUM * SLOPE_COS_NUM) * norm_sq(
        n,
    )
}

/// Ground state for the tick: a miss is airborne; a contact counts only when
/// within range and on a walkable slope.
pub open spec fn ground_state(hit: Option<RayHit>) -> bool {
    match hit {
        Option::None => false,
        Option::Some(h) => h.distance <= RAY_MAX_RANGE && walkable_normal(h.normal),
    }
}

/// Classifies the ground probe's result for this tick.
pub fn classify_ground(hit: &Option<RayHit>) -> (grounded: bool)
    requires
        hit matches Some(h) ==> h.wf(),
    ensures
        grounded == ground_state(*hit),
{
    match hit {
        Option::None => false,
        Option::Some(h) => {
            if h.distance > RAY_MAX_RANGE {
                false
            } else if h.normal.y <= 0 {
                false
            } else {
                let n = h.normal;
                proof {
                    assert(0 <= n.x * n.x <= 1_000_000 && 0 <= n.y * n.y <= 1_000_000 && 0 <= n.z
                        * n.z <= 1_000_000) by (nonlinear_arith)
                        requires
                            -1000 <= n.x <= 1000,
                            -1000 <= n.y <= 1000,
                            -1000 <= n.z <= 1000,
                    ;
                }
                let ny2: i64 = n.y * n.y;
                let ns: i64 = n.x * n.x + ny2 + n.z * n.z;
                proof {
                    assert((SLOPE_COS_DEN as int) * (SLOPE_COS_DEN as int) == 10_000_000_000int);
                    assert((SLOPE_COS_NUM as int) * (SLOPE_COS_NUM as int) == 5_174_500_356int)
                        by (nonlinear_arith);
                }
                let lhs: i64 = 10_000_000_000 * ny2;
                let rhs: i64 = 5_174_500_356 * ns;
                lhs > rhs
            }
        },
    }
}

/// A flat surface — normal pointing straight up — within range is always
/// classified grounded.
pub proof fn lemma_flat_surface_grounded(h: RayHit)
    requires
        h.wf(),
        h.normal.x == 0,
        h.normal.z == 0,
        h.normal.y > 0,
        h.distance <= RAY_MAX_RANGE,
    ensures
        ground_state(Some(h)),
{
    let y = h.normal.y;
    assert((100_000int * 100_000) * (y * y) > (71_934int * 71_934) * (y * y)) by (nonlinear_arith)
        requires
            y > 0,
    ;
}

/// A vertical wall — normal perpendicular to world-up — is never classified
/// grounded, at any distance.
pub proof fn lemma_wall_never_grounded(h: RayHit)
    requires
        h.normal.y == 0,
    ensures
        !ground_state(Some(h)),
{
}

/// A contact past the probe's range never counts as ground.
pub proof fn lemma_far_hit_not_grounded(h: RayHit)
    requires
        h.distance > RAY_MAX_RANGE,
    ensures
        !ground_state(Some(h)),
{
}

/// Start of the ground probe: a little above the character's feet.
pub fn ray_origin(position: Vec3I) -> (origin: Vec3I)
    requires
        position.y + RAY_OFFSET <= i64::MAX,
    ensures
        origin.x == position.x,
        origin.y == position.y + RAY_OFFSET,
        origin.z == position.z,
{
    Vec3I { x: position.x, y: position.y + RAY_OFFSET, z: position.z }
}

/// Direction of the ground probe: straight down, unit scale.
pub fn ray_direction() -> (dir: Vec3I)
    ensures
        dir.x == 0,
        dir.y == -1000,
        dir.z == 0,
{
    Vec3I { x: 0, y: -1000, z: 0 }
}

} // verus!
