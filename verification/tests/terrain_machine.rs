use character_control::collider::{IndexBuffer, MalformedMeshError, MeshData, VertexAttribute};
use character_control::terrain::{
    advance_terrain, build_terrain_colliders, LoadStatus, TerrainAction, TerrainActivationState,
};
use character_control::vector::Vec3I;

#[test]
fn machine_requests_load_first() {
    let (s, a) = advance_terrain(TerrainActivationState::NotStarted, LoadStatus::NotLoaded);
    assert_eq!(s, TerrainActivationState::Loading);
    assert_eq!(a, TerrainAction::RequestLoad);
}

#[test]
fn machine_waits_while_loading() {
    let (s, a) = advance_terrain(TerrainActivationState::Loading, LoadStatus::InProgress);
    assert_eq!(s, TerrainActivationState::Loading);
    assert_eq!(a, TerrainAction::Wait);
    let (s, a) = advance_terrain(TerrainActivationState::Loading, LoadStatus::NotLoaded);
    assert_eq!(s, TerrainActivationState::Loading);
    assert_eq!(a, TerrainAction::Wait);
}

#[test]
fn load_failure_surfaces_retry_and_stays_loading() {
    let mut s = TerrainActivationState::Loading;
    for _ in 0..5 {
        let (next, a) = advance_terrain(s, LoadStatus::Failed);
        assert_eq!(next, TerrainActivationState::Loading);
        assert_eq!(a, TerrainAction::RetryLoad);
        s = next;
    }
    // a later successful load still activates normally
    let (next, a) = advance_terrain(s, LoadStatus::Loaded);
    assert_eq!(next, TerrainActivationState::ColliderBuilt);
    assert_eq!(a, TerrainAction::BuildColliders);
}

#[test]
fn machine_builds_then_activates() {
    let (s, a) = advance_terrain(TerrainActivationState::Loading, LoadStatus::Loaded);
    assert_eq!(s, TerrainActivationState::ColliderBuilt);
    assert_eq!(a, TerrainAction::BuildColliders);
    let (s, a) = advance_terrain(s, LoadStatus::Loaded);
    assert_eq!(s, TerrainActivationState::PlayerActivated);
    assert_eq!(a, TerrainAction::ActivatePlayer);
}

#[test]
fn terminal_state_does_nothing() {
    let (s, a) = advance_terrain(TerrainActivationState::PlayerActivated, LoadStatus::Loaded);
    assert_eq!(s, TerrainActivationState::PlayerActivated);
    assert_eq!(a, TerrainAction::Wait);
}

#[test]
fn build_runs_once_despite_repeated_loaded_reports() {
    // the loader keeps answering "loaded"; the attach step must fire once
    let mut s = TerrainActivationState::NotStarted;
    let mut builds: u32 = 0;
    let mut activations: u32 = 0;
    let mut saw_build_before_activate: bool = false;
    for tick in 0..10 {
        let status = if tick < 3 { LoadStatus::InProgress } else { LoadStatus::Loaded };
        let (next, a) = advance_terrain(s, status);
        if a == TerrainAction::BuildColliders {
            builds += 1;
        }
        if a == TerrainAction::ActivatePlayer {
            activations += 1;
            saw_build_before_activate = builds > 0;
        }
        s = next;
    }
    assert_eq!(builds, 1);
    assert_eq!(activations, 1);
    assert!(saw_build_before_activate);
    assert_eq!(s, TerrainActivationState::PlayerActivated);
}

#[test]
fn player_never_active_before_colliders() {
    // brute force over short report runs: wherever the machine stands at
    // PlayerActivated, some earlier tick ran the collider build
    let statuses = [
        LoadStatus::NotLoaded,
        LoadStatus::InProgress,
        LoadStatus::Loaded,
        LoadStatus::Failed,
    ];
    for code in 0u32..256 {
        let mut s = TerrainActivationState::NotStarted;
        let mut built: bool = false;
        let mut c = code;
        for _ in 0..4 {
            let status = statuses[(c % 4) as usize];
            c /= 4;
            let (next, a) = advance_terrain(s, status);
            if a == TerrainAction::BuildColliders {
                built = true;
            }
            if next == TerrainActivationState::PlayerActivated {
                assert!(built);
            }
            s = next;
        }
    }
}

#[test]
fn malformed_mesh_is_skipped_not_fatal() {
    let good = MeshData {
        positions: Some(VertexAttribute::Points(vec![
            Vec3I { x: 0, y: 0, z: 0 },
            Vec3I { x: 1_000, y: 0, z: 0 },
            Vec3I { x: 0, y: 0, z: 1_000 },
        ])),
        indices: Some(IndexBuffer::U32(vec![0, 1, 2])),
    };
    let bad = MeshData { positions: None, indices: Some(IndexBuffer::U32(vec![0, 1, 2])) };
    let out = build_terrain_colliders(&vec![good, bad]);
    assert_eq!(out.len(), 2);
    let g = out[0].as_ref().unwrap();
    assert_eq!(g.vertices.len(), 3);
    assert_eq!(g.triangles.len(), 1);
    assert_eq!(*out[1].as_ref().unwrap_err(), MalformedMeshError::MissingPositions);
}
