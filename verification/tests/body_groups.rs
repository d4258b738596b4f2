use character_control::body::{
    ground_ray_groups, player_body_desc, player_collider_groups, terrain_collider_groups,
    ALL_GROUPS, NOT_PLAYER_MASK, PLAYER_GROUP, WALKABLE_GROUP,
};

#[test]
fn groups_are_distinct_bits() {
    assert_eq!(PLAYER_GROUP, 0x0001);
    assert_eq!(WALKABLE_GROUP, 0x0002);
    assert_eq!(PLAYER_GROUP & WALKABLE_GROUP, 0);
}

#[test]
fn player_and_terrain_collider_filters() {
    let p = player_collider_groups();
    assert_eq!((p.memberships, p.filter), (PLAYER_GROUP, ALL_GROUPS));
    let t = terrain_collider_groups();
    assert_eq!((t.memberships, t.filter), (WALKABLE_GROUP, ALL_GROUPS));
}

#[test]
fn ground_probe_ignores_player_sees_terrain() {
    let g = ground_ray_groups();
    assert_eq!(g.memberships, ALL_GROUPS);
    assert_eq!(g.filter, NOT_PLAYER_MASK);
    assert_eq!(g.filter & PLAYER_GROUP, 0);
    assert_eq!(g.filter & WALKABLE_GROUP, WALKABLE_GROUP);
    assert_eq!(NOT_PLAYER_MASK, !PLAYER_GROUP);
}

#[test]
fn player_body_creation_parameters() {
    let d = player_body_desc();
    assert_eq!(d.mass, 1000);
    assert!(d.rotations_locked);
    assert!(d.starts_asleep);
    assert_eq!(d.capsule_half_height, 250);
    assert_eq!(d.capsule_radius, 250);
    assert_eq!(d.collider_offset_y, 500);
    assert_eq!(d.spawn_height, 10_000);
    assert_eq!(d.groups.memberships, PLAYER_GROUP);
    assert_eq!(d.groups.filter, ALL_GROUPS);
}
