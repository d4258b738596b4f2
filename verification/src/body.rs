//! Interaction groups and rigid-body creation parameters handed to the
//! physics backend: the player's dynamic capsule and the filters that keep
//! the ground probe and the colliders apart.

use vstd::prelude::*;

verus! {

/// Interaction bit of the player's own collider.
pub const PLAYER_GROUP: u16 = 0x0001;

/// Interaction bit of walkable terrain colliders.
pub const WALKABLE_GROUP: u16 = 0x0002;

/// Every interaction bit set.
pub const ALL_GROUPS: u16 = 0xffff;

/// Every interaction bit but the player's.
pub const NOT_PLAYER_MASK: u16 = 0xfffe;

/// A bitset pair filtering which colliders detect which: the groups a
/// collider belongs to, and the groups it collides with.
#[derive(Clone, Copy, Debug, PartialEq, Eq, Structural)]
pub struct InteractionGroups {
    pub memberships: u16,
    pub filter: u16,
}

/// Groups of the player's capsule collider: in the player group, colliding
/// with everything.
pub fn player_collider_groups() -> (g: InteractionGroups)
    ensures
        g.memberships == PLAYER_GROUP,
        g.filter == ALL_GROUPS,
{
    InteractionGroups { memberships: PLAYER_GROUP, filter: ALL_GROUPS }
}

/// Groups of a terrain collider: in the walkable group, colliding with
/// everything.
pub fn terrain_collider_groups() -> (g: InteractionGroups)
    ensures
        g.memberships == WALKABLE_GROUP,
        g.filter == ALL_GROUPS,
{
    InteractionGroups { memberships: WALKABLE_GROUP, filter: ALL_GROUPS }
}

/// Groups of the ground probe: tested against everything except the player's
/// own collider.
pub fn ground_ray_groups() -> (g: InteractionGroups)
    ensures
        g.memberships == ALL_GROUPS,
        g.filter == NOT_PLAYER_MASK,
{
    InteractionGroups { memberships: ALL_GROUPS, filter: NOT_PLAYER_MASK }
}

/// The ground probe's filter is exactly the complement of the player bit: it
/// ignores the player's collider and still sees walkable terrain.
pub proof fn lemma_ray_filter_excludes_player()
    ensures
        NOT_PLAYER_MASK == !PLAYER_GROUP,
        NOT_PLAYER_MASK & PLAYER_GROUP == 0,
        NOT_PLAYER_MASK & WALKABLE_GROUP == WALKABLE_GROUP,
{
    assert(0xfffeu16 == !0x0001u16) by (bit_vector);
    assert(0xfffeu16 & 0x0001u16 == 0u16) by (bit_vector);
    assert(0xfffeu16 & 0x0002u16 == 0x0002u16) by (bit_vector);
}

/// Creation parameters of the player's dynamic rigid body: one mass unit,
/// rotations locked, spawned asleep, with an upright capsule collider lifted
/// half a unit above the feet, tagged with the player group.
#[derive(Clone, Copy, Debug, PartialEq, Eq, Structural)]
pub struct PlayerBodyDesc {
    /// Body mass in milli-mass-units.
    pub mass: i64,
    /// The backend must never let physics torque the body.
    pub rotations_locked: bool,
    /// The body sleeps until something first wakes it.
    pub starts_asleep: bool,
    /// Capsule half-height between the cap centres, milli-units.
    pub capsule_half_height: i64,
    /// Capsule radius, milli-units.
    pub capsule_radius: i64,
    /// Upward offset of the collider from the body origin, milli-units.
    pub collider_offset_y: i64,
    /// Height the body is lifted to when terrain activation completes, so
    /// the character starts above the freshly collidable ground.
    pub spawn_height: i64,
    pub groups: InteractionGroups,
}

/// The one player body this controller ever asks the backend to create.
pub fn player_body_desc() -> (d: PlayerBodyDesc)
    ensures
        d.mass == 1000,
        d.rotations_locked,
        d.starts_asleep,
        d.capsule_half_height == 250,
        d.capsule_radius == 250,
        d.collider_offset_y == 500,
        d.spawn_height == 10_000,
        d.groups.memberships == PLAYER_GROUP,
        d.groups.filter == ALL_GROUPS,
{
    PlayerBodyDesc {
        mass: 1000,
        rotations_locked: true,
        starts_asleep: true,
        capsule_half_height: 250,
        capsule_radius: 250,
        collider_offset_y: 500,
        spawn_height: 10_000,
        groups: player_collider_groups(),
    }
}

} // verus!
