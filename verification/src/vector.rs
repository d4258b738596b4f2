//! Small fixed-point vector types shared by the input, grounded-detection,
//! controller and camera modules.

use vstd::prelude::*;

verus! {

/// A planar fixed-point vector (input intent, look delta).
#[derive(Clone, Copy, Debug, PartialEq, Eq, Structural)]
pub struct Vec2I {
    pub x: i64,
    pub y: i64,
}

/// A spatial fixed-point vector in milli-units, y up.
#[derive(Clone, Copy, Debug, PartialEq, Eq, Structural)]
pub struct Vec3I {
    pub x: i64,
    pub y: i64,
    pub z: i64,
}

} // verus!
