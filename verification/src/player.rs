//! The character controller: per-tick orbit-state updates and the velocity,
//! impulse, orientation and camera commands one tick asks of the physics
//! backend. The controller owns no physics state; everything it decides is
//! returned as plain commands for the runtime to carry out through the
//! backend's handle.

use crate::angle::{
    clamp_wide, clamped, wrap_angle, wrapped, DISTANCE_MAX, DISTANCE_MIN, FULL_TURN, PITCH_MAX,
    PITCH_MIN,
};
use crate::camera::{camera_placement, orbit_placement, CameraPlacement};
use crate::grounded::{classify_ground, ground_state, RayHit};
use crate::input::{
    intent_x, intent_y, motion_sum_x, motion_sum_y, saturated, update_input, wheel_sum,
    InputBindings,
};
use crate::trig::{cos_mdeg, cosine, sin_mdeg, sine};
use crate::vector::Vec2I;
use vstd::prelude::*;

verus! {

/// Ground speed at full movement intent, in units per second.
pub const MOVE_SPEED: i64 = 500;

/// Upward impulse of one grounded jump, in milli-units.
pub const JUMP_IMPULSE: i64 = 10_000;

/// Per-character orbit and ground state: yaw in `[0, FULL_TURN)`
/// millidegrees, pitch and distance clamped to their invariant ranges, the
/// camera entity this character drives, and the last tick's ground contact.
#[derive(Clone, Copy, Debug, PartialEq, Eq, Structural)]
pub struct CharacterController {
    pub yaw: i64,
    pub camera_pitch: i64,
    pub camera_distance: i64,
    pub camera_entity: Option<u64>,
    pub grounded: bool,
}

impl CharacterController {
    /// The state invariant every tick preserves.
    pub open spec fn wf(self) -> bool {
        &&& 0 <= self.yaw < FULL_TURN
        &&& PITCH_MIN <= self.camera_pitch <= PITCH_MAX
        &&& DISTANCE_MIN <= self.camera_distance <= DISTANCE_MAX
    }
}

impl Default for CharacterController {
    /// A fresh character: facing zero yaw, camera 30 degrees up and 20 units
    /// out, no camera entity yet, standing on the ground.
    fn default() -> (c: Self)
        ensures
            c.yaw == 0,
            c.camera_pitch == 30_000,
            c.camera_distance == 20_000,
            c.camera_entity is None,
            c.grounded,
            c.wf(),
    {
        CharacterController {
            yaw: 0,
            camera_pitch: 30_000,
            camera_distance: 20_000,
            camera_entity: None,
            grounded: true,
        }
    }
}

/// Horizontal components of a velocity override, in micro-units per second
/// (the product of two unit scales and the speed constant).
#[derive(Clone, Copy, Debug, PartialEq, Eq, Structural)]
pub struct HorizontalVelocity {
    pub x: i64,
    pub z: i64,
}

/// Everything one controller tick asks of the runtime.
#[derive(Clone, Copy, Debug, PartialEq, Eq, Structural)]
pub struct PlayerUpdate {
    /// While grounded: overwrite the body's horizontal velocity with this,
    /// leaving the vertical component untouched. Airborne: leave the whole
    /// velocity alone.
    pub horizontal_velocity: Option<HorizontalVelocity>,
    /// On a grounded jump edge: apply this upward impulse, milli-units.
    pub jump_impulse: Option<i64>,
    /// Force-set the body's orientation to this yaw-only rotation about
    /// world-up, every tick, grounded or not.
    pub set_yaw: i64,
    /// Where to put the camera relative to the character, when the
    /// character drives one.
    pub camera: Option<CameraPlacement>,
}

/// Horizontal forward axis of a body facing `yaw`: +z at zero yaw, unit
/// scale 1 000.
pub open spec fn forward_x(yaw: int) -> int {
    sin_mdeg(yaw)
}

/// See [`forward_x`]; this is the z component.
pub open spec fn forward_z(yaw: int) -> int {
    cos_mdeg(yaw)
}

/// x component of the grounded velocity command: the forward axis scaled by
/// the forward intent plus the right axis (forward crossed with world-up)
/// scaled by the strafe intent, times the speed constant. Micro-units/s.
pub open spec fn velocity_x(yaw: int, intent: Vec2I) -> int {
    (forward_x(yaw) * intent.y + (-forward_z(yaw)) * intent.x) * MOVE_SPEED
}

/// See [`velocity_x`]; this is the z component.
pub open spec fn velocity_z(yaw: int, intent: Vec2I) -> int {
    (forward_z(yaw) * intent.y + forward_x(yaw) * intent.x) * MOVE_SPEED
}

/// Applies one tick's look and zoom to the orbit state: yaw accumulates and
/// wraps into one turn, pitch and distance accumulate and clamp to their
/// invariant ranges. Exactly the orbit half of a full tick.
pub fn update_orbit(player: &mut CharacterController, look: Vec2I, zoom: i64)
    requires
        old(player).wf(),
    ensures
        final(player).yaw == wrapped(old(player).yaw + look.x),
        final(player).camera_pitch == clamped(
            old(player).camera_pitch + look.y,
            PITCH_MIN as int,
            PITCH_MAX as int,
        ),
        final(player).camera_distance == clamped(
            old(player).camera_distance + zoom,
            DISTANCE_MIN as int,
            DISTANCE_MAX as int,
        ),
        final(player).camera_entity == old(player).camera_entity,
        final(player).grounded == old(player).grounded,
        final(player).wf(),
{
    player.yaw = wrap_angle(player.yaw as i128 + look.x as i128);
    player.camera_pitch = clamp_wide(
        player.camera_pitch as i128 + look.y as i128,
        PITCH_MIN,
        PITCH_MAX,
    );
    player.camera_distance = clamp_wide(
        player.camera_distance as i128 + zoom as i128,
        DISTANCE_MIN,
        DISTANCE_MAX,
    );
}

/// One full controller tick. Orbit state first; then the ground probe's
/// result decides the tick's ground state; a velocity override is issued
/// only while grounded, a single jump impulse only on a grounded jump edge;
/// the orientation is force-set to the new yaw whatever the ground state;
/// and the camera is placed when the character drives one.
pub fn update_player(
    player: &mut CharacterController,
    input: &InputBindings,
    ground_hit: Option<RayHit>,
) -> (cmd: PlayerUpdate)
    requires
        old(player).wf(),
        -1000 <= input.movement.x <= 1000,
        -1000 <= input.movement.y <= 1000,
        ground_hit matches Some(h) ==> h.wf(),
    ensures
        final(player).yaw == wrapped(old(player).yaw + input.look.x),
        final(player).camera_pitch == clamped(
            old(player).camera_pitch + input.look.y,
            PITCH_MIN as int,
            PITCH_MAX as int,
        ),
        final(player).camera_distance == clamped(
            old(player).camera_distance + input.scroll,
            DISTANCE_MIN as int,
            DISTANCE_MAX as int,
        ),
        final(player).camera_entity == old(player).camera_entity,
        final(player).grounded == ground_state(ground_hit),
        final(player).wf(),
        ground_state(ground_hit) ==> (cmd.horizontal_velocity matches Some(v) && v.x
            == velocity_x(final(player).yaw as int, input.movement) && v.z == velocity_z(
            final(player).yaw as int,
            input.movement,
        )),
        !ground_state(ground_hit) ==> cmd.horizontal_velocity is None,
        cmd.jump_impulse == (if ground_state(ground_hit) && input.do_jump {
            Some(JUMP_IMPULSE)
        } else {
            None::<i64>
        }),
        cmd.set_yaw == final(player).yaw,
        old(player).camera_entity is Some ==> (cmd.camera matches Some(p) && p == orbit_placement(
            final(player).camera_pitch as int,
            final(player).camera_distance as int,
        )),
        old(player).camera_entity is None ==> cmd.camera is None,
{
    update_orbit(player, input.look, input.scroll);

    let grounded = classify_ground(&ground_hit);
    player.grounded = grounded;

    let fx: i64 = sine(player.yaw);
    let fz: i64 = cosine(player.yaw);

    let horizontal_velocity = if grounded {
        let mx = input.movement.x;
        let my = input.movement.y;
        proof {
            assert(-1_000_000 <= fx * my <= 1_000_000 && -1_000_000 <= fz * my <= 1_000_000
                && -1_000_000 <= fx * mx <= 1_000_000 && -1_000_000 <= fz * mx <= 1_000_000
                && -1_000_000 <= (-fz) * mx <= 1_000_000) by (nonlinear_arith)
                requires
                    -1000 <= fx <= 1000,
                    -1000 <= fz <= 1000,
                    -1000 <= mx <= 1000,
                    -1000 <= my <= 1000,
            ;
        }
        let vx: i64 = (fx * my + (-fz) * mx) * MOVE_SPEED;
        let vz: i64 = (fz * my + fx * mx) * MOVE_SPEED;
        Some(HorizontalVelocity { x: vx, z: vz })
    } else {
        None
    };

    let jump_impulse = if grounded && input.do_jump {
        Some(JUMP_IMPULSE)
    } else {
        None
    };

    let camera = match player.camera_entity {
        Option::Some(_) => Some(camera_placement(player.camera_pitch, player.camera_distance)),
        Option::None => None,
    };

    PlayerUpdate { horizontal_velocity, jump_impulse, set_yaw: player.yaw, camera }
}

/// One whole simulation tick in the fixed system order: aggregate the raw
/// device readings into a frame intent, classify the ground probe, run the
/// controller, place the camera. Returns the frame intent beside the
/// commands so the runtime can log or replay it.
pub fn simulation_tick(
    player: &mut CharacterController,
    forward_key: bool,
    back_key: bool,
    right_key: bool,
    left_key: bool,
    jump_key: bool,
    jump_key_before: bool,
    motion: &Vec<Vec2I>,
    wheel: &Vec<i64>,
    ground_hit: Option<RayHit>,
) -> (r: (InputBindings, PlayerUpdate))
    requires
        old(player).wf(),
        ground_hit matches Some(h) ==> h.wf(),
    ensures
        r.0.movement.x == intent_x(forward_key, back_key, right_key, left_key),
        r.0.movement.y == intent_y(forward_key, back_key, right_key, left_key),
        r.0.do_jump == (jump_key && !jump_key_before),
        r.0.look.x == saturated(motion_sum_x(motion@)),
        r.0.look.y == saturated(-motion_sum_y(motion@)),
        r.0.scroll == saturated(-wheel_sum(wheel@)),
        final(player).yaw == wrapped(old(player).yaw + r.0.look.x),
        final(player).camera_pitch == clamped(
            old(player).camera_pitch + r.0.look.y,
            PITCH_MIN as int,
            PITCH_MAX as int,
        ),
        final(player).camera_distance == clamped(
            old(player).camera_distance + r.0.scroll,
            DISTANCE_MIN as int,
            DISTANCE_MAX as int,
        ),
        final(player).camera_entity == old(player).camera_entity,
        final(player).grounded == ground_state(ground_hit),
        final(player).wf(),
        ground_state(ground_hit) ==> (r.1.horizontal_velocity matches Some(v) && v.x == velocity_x(
            final(player).yaw as int,
            r.0.movement,
        ) && v.z == velocity_z(final(player).yaw as int, r.0.movement)),
        !ground_state(ground_hit) ==> r.1.horizontal_velocity is None,
        r.1.jump_impulse == (if ground_state(ground_hit) && r.0.do_jump {
            Some(JUMP_IMPULSE)
        } else {
            None::<i64>
        }),
        r.1.set_yaw == final(player).yaw,
        old(player).camera_entity is Some ==> (r.1.camera matches Some(p) && p == orbit_placement(
            final(player).camera_pitch as int,
            final(player).camera_distance as int,
        )),
        old(player).camera_entity is None ==> r.1.camera is None,
{
    let input = update_input(
        forward_key,
        back_key,
        right_key,
        left_key,
        jump_key,
        jump_key_before,
        motion,
        wheel,
    );
    let cmd = update_player(player, &input, ground_hit);
    (input, cmd)
}

} // verus!
