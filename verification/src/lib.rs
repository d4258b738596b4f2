//! Core of a third-person character controller, on fixed-point integers.
//!
//! Angles are measured in millidegrees (one full turn is 360 000), lengths in
//! milli-units (one unit is 1 000), and unit-vector components on a scale of
//! 1 000. The surrounding runtime converts the engine's floating-point values
//! to and from these scales; everything that decides — input aggregation,
//! yaw/pitch/distance updates, grounded classification, the collider builder,
//! the terrain activation state machine and the camera orbit — lives here.

pub mod angle;
pub mod body;
pub mod camera;
pub mod collider;
pub mod grounded;
pub mod input;
pub mod player;
pub mod terrain;
pub mod trig;
pub mod vector;
