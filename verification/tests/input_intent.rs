use character_control::input::{jump_edge, movement_vector, update_input, InputBindings};
use character_control::vector::Vec2I;

#[test]
fn movement_single_key_is_full_unit() {
    let m = movement_vector(true, false, false, false);
    assert_eq!((m.x, m.y), (0, 1000));
    let m = movement_vector(false, true, false, false);
    assert_eq!((m.x, m.y), (0, -1000));
    let m = movement_vector(false, false, true, false);
    assert_eq!((m.x, m.y), (1000, 0));
    let m = movement_vector(false, false, false, true);
    assert_eq!((m.x, m.y), (-1000, 0));
}

#[test]
fn movement_diagonal_is_capped_not_stretched() {
    let m = movement_vector(true, false, true, false);
    assert_eq!((m.x, m.y), (707, 707));
    let m = movement_vector(false, true, false, true);
    assert_eq!((m.x, m.y), (-707, -707));
}

#[test]
fn movement_opposing_keys_cancel() {
    let m = movement_vector(true, true, false, false);
    assert_eq!((m.x, m.y), (0, 0));
    // one axis cancelled, the other alone: full unit, no diagonal cap
    let m = movement_vector(true, true, true, false);
    assert_eq!((m.x, m.y), (1000, 0));
    let m = movement_vector(true, true, true, true);
    assert_eq!((m.x, m.y), (0, 0));
}

#[test]
fn movement_magnitude_never_exceeds_unit() {
    for bits in 0u32..16 {
        let f: bool = bits & 1 != 0;
        let b: bool = bits & 2 != 0;
        let r: bool = bits & 4 != 0;
        let l: bool = bits & 8 != 0;
        let m = movement_vector(f, b, r, l);
        assert!(m.x * m.x + m.y * m.y <= 1_000_000);
    }
}

#[test]
fn jump_fires_only_on_press_edge() {
    assert!(jump_edge(true, false));
    assert!(!jump_edge(true, true));
    assert!(!jump_edge(false, false));
    assert!(!jump_edge(false, true));
}

#[test]
fn jump_once_per_press_release_cycle() {
    // held for four ticks, released, pressed again
    let keys: Vec<bool> = vec![true, true, true, true, false, true];
    let mut previous: bool = false;
    let mut fires: Vec<bool> = Vec::new();
    for k in keys {
        fires.push(jump_edge(k, previous));
        previous = k;
    }
    assert_eq!(fires, vec![true, false, false, false, false, true]);
}

#[test]
fn aggregate_sums_and_flips_look() {
    let motion: Vec<Vec2I> = vec![
        Vec2I { x: 10, y: 4 },
        Vec2I { x: -3, y: 9 },
        Vec2I { x: 5, y: -1 },
    ];
    let wheel: Vec<i64> = vec![2, -5, 1];
    let r: InputBindings = update_input(true, false, false, false, true, false, &motion, &wheel);
    assert_eq!((r.movement.x, r.movement.y), (0, 1000));
    assert!(r.do_jump);
    // x sums straight, y sums then flips, scroll sums then flips
    assert_eq!((r.look.x, r.look.y), (12, -12));
    assert_eq!(r.scroll, 2);
}

#[test]
fn aggregate_held_jump_does_not_fire() {
    let motion: Vec<Vec2I> = Vec::new();
    let wheel: Vec<i64> = Vec::new();
    let r = update_input(false, false, false, false, true, true, &motion, &wheel);
    assert!(!r.do_jump);
    assert_eq!((r.look.x, r.look.y), (0, 0));
    assert_eq!(r.scroll, 0);
}

#[test]
fn aggregate_saturates_extreme_sums() {
    let motion: Vec<Vec2I> = vec![
        Vec2I { x: i64::MAX, y: i64::MIN },
        Vec2I { x: i64::MAX, y: i64::MIN },
    ];
    let wheel: Vec<i64> = vec![i64::MIN, i64::MIN];
    let r = update_input(false, false, false, false, false, false, &motion, &wheel);
    assert_eq!(r.look.x, i64::MAX);
    assert_eq!(r.look.y, i64::MAX);
    assert_eq!(r.scroll, i64::MAX);
}

#[test]
fn getters_hand_fields_back() {
    let motion: Vec<Vec2I> = vec![Vec2I { x: 7, y: 2 }];
    let wheel: Vec<i64> = vec![-3];
    let r = update_input(false, true, true, false, true, false, &motion, &wheel);
    assert_eq!(r.movement(), r.movement);
    assert_eq!(r.look(), r.look);
    assert_eq!(r.do_jump(), r.do_jump);
    assert_eq!(r.scroll(), r.scroll);
    assert_eq!((r.movement.x, r.movement.y), (707, -707));
    assert_eq!(r.scroll, 3);
}
