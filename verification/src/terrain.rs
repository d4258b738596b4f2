//! Terrain activation: the one-time synchronization point between
//! asynchronous mesh loading and synchronous physics setup. The machine
//! walks `NotStarted -> Loading -> ColliderBuilt -> PlayerActivated`, only
//! ever forward: colliders are attached exactly once, and the player's body
//! is created only after they exist.

use crate::collider::{
    create_collider_for_mesh, geometry_matches, mesh_error, mesh_ok, CollisionGeometry,
    MalformedMeshError, MeshData,
};
use vstd::prelude::*;

verus! {

/// Where the level stands between "nothing requested" and "player active".
/// Process-wide: one value per level, torn down with it.
#[derive(Clone, Copy, Debug, PartialEq, Eq, Structural)]
pub enum TerrainActivationState {
    NotStarted,
    Loading,
    ColliderBuilt,
    PlayerActivated,
}

/// What the asset loader reports for the terrain mesh this tick.
#[derive(Clone, Copy, Debug, PartialEq, Eq, Structural)]
pub enum LoadStatus {
    NotLoaded,
    InProgress,
    Loaded,
    Failed,
}

/// What the runtime must carry out after one step of the machine.
#[derive(Clone, Copy, Debug, PartialEq, Eq, Structural)]
pub enum TerrainAction {
    /// Nothing to do this tick.
    Wait,
    /// Issue the terrain asset request.
    RequestLoad,
    /// The load failed: surface it and re-issue the request (the runtime
    /// decides how often to retry before giving up).
    RetryLoad,
    /// Build and attach static colliders for every tagged terrain entity.
    BuildColliders,
    /// Create (or wake) the player's dynamic body.
    ActivatePlayer,
}

/// The state one step later. A load failure keeps the machine in `Loading`:
/// non-fatal by design, surfaced through the step's action.
pub open spec fn next_state(s: TerrainActivationState, status: LoadStatus) -> TerrainActivationState {
    match s {
        TerrainActivationState::NotStarted => TerrainActivationState::Loading,
        TerrainActivationState::Loading => if status is Loaded {
            TerrainActivationState::ColliderBuilt
        } else {
            TerrainActivationState::Loading
        },
        TerrainActivationState::ColliderBuilt => TerrainActivationState::PlayerActivated,
        TerrainActivationState::PlayerActivated => TerrainActivationState::PlayerActivated,
    }
}

/// The action one step asks of the runtime. The collider-attachment work is
/// tied to the single `Loading -> ColliderBuilt` transition, so re-checking
/// a "loaded" status on later ticks can never re-run it.
pub open spec fn step_action(s: TerrainActivationState, status: LoadStatus) -> TerrainAction {
    match s {
        TerrainActivationState::NotStarted => TerrainAction::RequestLoad,
        TerrainActivationState::Loading => if status is Loaded {
            TerrainAction::BuildColliders
        } else if status is Failed {
            TerrainAction::RetryLoad
        } else {
            TerrainAction::Wait
        },
        TerrainActivationState::ColliderBuilt => TerrainAction::ActivatePlayer,
        TerrainActivationState::PlayerActivated => TerrainAction::Wait,
    }
}

/// How far along the one-way road a state lies.
pub open spec fn state_rank(s: TerrainActivationState) -> int {
    match s {
        TerrainActivationState::NotStarted => 0,
        TerrainActivationState::Loading => 1,
        TerrainActivationState::ColliderBuilt => 2,
        TerrainActivationState::PlayerActivated => 3,
    }
}

/// Runs the machine one tick: the new state and what the runtime must do.
pub fn advance_terrain(s: TerrainActivationState, status: LoadStatus) -> (r: (
    TerrainActivationState,
    TerrainAction,
))
    ensures
        r.0 == next_state(s, status),
        r.1 == step_action(s, status),
{
    match s {
        TerrainActivationState::NotStarted => (
            TerrainActivationState::Loading,
            TerrainAction::RequestLoad,
        ),
        TerrainActivationState::Loading => {
            if matches!(status, LoadStatus::Loaded) {
                (TerrainActivationState::ColliderBuilt, TerrainAction::BuildColliders)
            } else if matches!(status, LoadStatus::Failed) {
                (TerrainActivationState::Loading, TerrainAction::RetryLoad)
            } else {
                (TerrainActivationState::Loading, TerrainAction::Wait)
            }
        },
        TerrainActivationState::ColliderBuilt => (
            TerrainActivationState::PlayerActivated,
            TerrainAction::ActivatePlayer,
        ),
        TerrainActivationState::PlayerActivated => (
            TerrainActivationState::PlayerActivated,
            TerrainAction::Wait,
        ),
    }
}

/// Transitions only ever move forward, one station at a time.
pub proof fn lemma_transition_monotonic(s: TerrainActivationState, status: LoadStatus)
    ensures
        state_rank(s) <= state_rank(next_state(s, status)) <= state_rank(s) + 1,
{
}

/// The only way into `PlayerActivated` is out of `ColliderBuilt` (or staying
/// put once there).
pub proof fn lemma_player_needs_colliders(s: TerrainActivationState, status: LoadStatus)
    requires
        next_state(s, status) is PlayerActivated,
    ensures
        s is ColliderBuilt || s is PlayerActivated,
{
}

/// The state after a whole run of load-status reports.
pub open spec fn run_state(init: TerrainActivationState, reports: Seq<LoadStatus>) -> TerrainActivationState
    decreases reports.len(),
{
    if reports.len() == 0 {
        init
    } else {
        next_state(run_state(init, reports.drop_last()), reports.last())
    }
}

/// How many steps of a run ask the runtime to build colliders.
pub open spec fn build_count(init: TerrainActivationState, reports: Seq<LoadStatus>) -> int
    decreases reports.len(),
{
    if reports.len() == 0 {
        0int
    } else {
        build_count(init, reports.drop_last()) + (if step_action(
            run_state(init, reports.drop_last()),
            reports.last(),
        ) is BuildColliders {
            1int
        } else {
            0int
        })
    }
}

/// Once a run has asked for the collider build, the machine stands at
/// `ColliderBuilt` or beyond.
proof fn lemma_build_implies_past_loading(init: TerrainActivationState, reports: Seq<LoadStatus>)
    requires
        build_count(init, reports) >= 1,
    ensures
        state_rank(run_state(init, reports)) >= 2,
    decreases reports.len(),
{
    if reports.len() > 0 {
        let pre = run_state(init, reports.drop_last());
        if step_action(pre, reports.last()) is BuildColliders {
        } else {
            lemma_build_implies_past_loading(init, reports.drop_last());
        }
    }
}

/// However long the machine is ticked and whatever the loader reports, the
/// collider-attachment step runs at most once.
pub proof fn lemma_build_at_most_once(init: TerrainActivationState, reports: Seq<LoadStatus>)
    ensures
        build_count(init, reports) <= 1,
    decreases reports.len(),
{
    if reports.len() > 0 {
        lemma_build_at_most_once(init, reports.drop_last());
        if build_count(init, reports.drop_last()) >= 1 {
            lemma_build_implies_past_loading(init, reports.drop_last());
        }
    }
}

/// A run from the start never stands at `PlayerActivated` without having
/// stood at `ColliderBuilt` on the way.
pub proof fn lemma_player_after_colliders_in_run(reports: Seq<LoadStatus>)
    requires
        run_state(TerrainActivationState::NotStarted, reports) is PlayerActivated,
    ensures
        exists|i: int|
            0 <= i < reports.len() && run_state(
                TerrainActivationState::NotStarted,
                #[trigger] reports.take(i),
            ) is ColliderBuilt,
    decreases reports.len(),
{
    let init = TerrainActivationState::NotStarted;
    let pre = run_state(init, reports.drop_last());
    assert(reports.len() > 0);
    lemma_player_needs_colliders(pre, reports.last());
    if pre is ColliderBuilt {
        assert(reports.take(reports.len() - 1) =~= reports.drop_last());
        assert(run_state(init, reports.take(reports.len() - 1)) is ColliderBuilt);
    } else {
        lemma_player_after_colliders_in_run(reports.drop_last());
        let i = choose|i: int|
            0 <= i < reports.drop_last().len() && run_state(
                init,
                #[trigger] reports.drop_last().take(i),
            ) is ColliderBuilt;
        assert(reports.drop_last().take(i) =~= reports.take(i));
        assert(run_state(init, reports.take(i)) is ColliderBuilt);
    }
}

/// Runs the collider builder over every terrain mesh tagged as needing
/// collision, in order. A malformed mesh yields its error in place — the
/// runtime surfaces it and skips that one entity — and never aborts the
/// others.
pub fn build_terrain_colliders(meshes: &Vec<MeshData>) -> (out: Vec<
    Result<CollisionGeometry, MalformedMeshError>,
>)
    ensures
        out@.len() == meshes@.len(),
        forall|i: int|
            0 <= i < meshes@.len() ==> {
                &&& mesh_ok(meshes@[i]) ==> ((#[trigger] out@[i]) matches Ok(g)
                    && geometry_matches(meshes@[i], g))
                &&& !mesh_ok(meshes@[i]) ==> out@[i] == Err::<
                    CollisionGeometry,
                    MalformedMeshError,
                >(mesh_error(meshes@[i]))
            },
{
    let mut out: Vec<Result<CollisionGeometry, MalformedMeshError>> = Vec::new();
    let mut i: usize = 0;
    while i < meshes.len()
        invariant
            0 <= i <= meshes@.len(),
            out@.len() == i,
            forall|k: int|
                0 <= k < i ==> {
                    &&& mesh_ok(meshes@[k]) ==> ((#[trigger] out@[k]) matches Ok(g)
                        && geometry_matches(meshes@[k], g))
                    &&& !mesh_ok(meshes@[k]) ==> out@[k] == Err::<
                        CollisionGeometry,
                        MalformedMeshError,
                    >(mesh_error(meshes@[k]))
                },
        decreases meshes@.len() - i,
    {
        let r = create_collider_for_mesh(&meshes[i]);
        out.push(r);
        i = i + 1;
    }
    out
}

} // verus!
