//! Collider builder: turns a loaded mesh's position and index buffers into
//! immutable triangle-soup collision geometry, or reports exactly why the
//! mesh is malformed. Point order and triangle winding are preserved.

use crate::vector::Vec3I;
use vstd::prelude::*;

verus! {

/// A mesh's position attribute as the asset loader hands it over: either
/// three-component points, already on the milli-unit scale, or data in some
/// format this builder refuses.
#[derive(Debug)]
pub enum VertexAttribute {
    Points(Vec<Vec3I>),
    OtherFormat,
}

/// A mesh's index buffer: a flat unsigned-32-bit list, or a narrower format
/// this builder refuses.
#[derive(Debug)]
pub enum IndexBuffer {
    U32(Vec<u32>),
    U16(Vec<u16>),
}

/// What the collider builder reads from a loaded mesh.
#[derive(Debug)]
pub struct MeshData {
    pub positions: Option<VertexAttribute>,
    pub indices: Option<IndexBuffer>,
}

/// One triangle as indices into the vertex sequence, winding preserved.
#[derive(Clone, Copy, Debug, PartialEq, Eq, Structural)]
pub struct Triangle {
    pub a: u32,
    pub b: u32,
    pub c: u32,
}

/// Immutable triangle soup handed to the physics backend; never mutated
/// after construction.
#[derive(Debug)]
pub struct CollisionGeometry {
    pub vertices: Vec<Vec3I>,
    pub triangles: Vec<Triangle>,
}

/// Why a mesh cannot become collision geometry.
#[derive(Clone, Copy, Debug, PartialEq, Eq, Structural)]
pub enum MalformedMeshError {
    /// The mesh has no position attribute at all.
    MissingPositions,
    /// The position attribute is not three-component point data.
    WrongPositionFormat,
    /// The mesh has no index buffer.
    MissingIndices,
    /// The index buffer is not flat unsigned-32-bit data.
    WrongIndexFormat,
    /// The index count is not a multiple of three.
    PartialTriangle,
}

/// A mesh the builder accepts: three-component points, a flat 32-bit index
/// buffer, whole triangles only.
pub open spec fn mesh_ok(m: MeshData) -> bool {
    &&& m.positions is Some
    &&& m.positions->Some_0 is Points
    &&& m.indices is Some
    &&& m.indices->Some_0 is U32
    &&& m.indices->Some_0->U32_0@.len() % 3 == 0
}

/// The vertex sequence of an accepted mesh.
pub open spec fn mesh_points(m: MeshData) -> Seq<Vec3I>
    recommends
        mesh_ok(m),
{
    m.positions->Some_0->Points_0@
}

/// The flat index sequence of an accepted mesh.
pub open spec fn mesh_indices(m: MeshData) -> Seq<u32>
    recommends
        mesh_ok(m),
{
    m.indices->Some_0->U32_0@
}

/// The error a malformed mesh is refused with, first failing check first.
pub open spec fn mesh_error(m: MeshData) -> MalformedMeshError {
    if m.positions is None {
        MalformedMeshError::MissingPositions
    } else if !(m.positions->Some_0 is Points) {
        MalformedMeshError::WrongPositionFormat
    } else if m.indices is None {
        MalformedMeshError::MissingIndices
    } else if !(m.indices->Some_0 is U32) {
        MalformedMeshError::WrongIndexFormat
    } else {
        MalformedMeshError::PartialTriangle
    }
}

/// Whether a geometry is exactly what an accepted mesh describes: one point
/// per input vertex in the order given, one triangle per consecutive
/// index triple in the order given.
pub open spec fn geometry_matches(m: MeshData, g: CollisionGeometry) -> bool
    recommends
        mesh_ok(m),
{
    let pts = mesh_points(m);
    let idx = mesh_indices(m);
    &&& g.vertices@ == pts
    &&& g.triangles@.len() == idx.len() / 3
    &&& forall|t: int|
        0 <= t < g.triangles@.len() ==> (#[trigger] g.triangles@[t]) == (Triangle {
            a: idx[3 * t],
            b: idx[3 * t + 1],
            c: idx[3 * t + 2],
        })
}

/// Builds collision geometry from a loaded mesh, or says what is malformed.
/// On success the geometry keeps every vertex in order and one triangle per
/// consecutive index triple in order.
pub fn create_collider_for_mesh(mesh: &MeshData) -> (r: Result<
    CollisionGeometry,
    MalformedMeshError,
>)
    ensures
        mesh_ok(*mesh) ==> (r matches Ok(g) && geometry_matches(*mesh, g)),
        !mesh_ok(*mesh) ==> r == Err::<CollisionGeometry, MalformedMeshError>(mesh_error(*mesh)),
{
    let pts: &Vec<Vec3I> = match &mesh.positions {
        Option::None => {
            return Err(MalformedMeshError::MissingPositions);
        },
        Option::Some(attr) => match attr {
            VertexAttribute::Points(p) => p,
            VertexAttribute::OtherFormat => {
                return Err(MalformedMeshError::WrongPositionFormat);
            },
        },
    };
    let idx: &Vec<u32> = match &mesh.indices {
        Option::None => {
            return Err(MalformedMeshError::MissingIndices);
        },
        Option::Some(buf) => match buf {
            IndexBuffer::U32(v) => v,
            IndexBuffer::U16(_) => {
                return Err(MalformedMeshError::WrongIndexFormat);
            },
        },
    };
    if idx.len() % 3 != 0 {
        return Err(MalformedMeshError::PartialTriangle);
    }

    let mut vertices: Vec<Vec3I> = Vec::new();
    let mut j: usize = 0;
    while j < pts.len()
        invariant
            0 <= j <= pts.len(),
            vertices@ == pts@.take(j as int),
        decreases pts.len() - j,
    {
        vertices.push(pts[j]);
        proof {
            assert(pts@.take(j + 1) =~= pts@.take(j as int).push(pts@[j as int]));
        }
        j = j + 1;
    }
    proof {
        assert(pts@.take(pts@.len() as int) =~= pts@);
    }

    let triangle_count: usize = idx.len() / 3;
    proof {
        vstd::arithmetic::div_mod::lemma_fundamental_div_mod(idx@.len() as int, 3);
    }
    let mut triangles: Vec<Triangle> = Vec::new();
    let mut t: usize = 0;
    while t < triangle_count
        invariant
            0 <= t <= triangle_count,
            3 * triangle_count == idx@.len(),
            3 * triangle_count <= usize::MAX,
            triangles@.len() == t,
            forall|k: int|
                0 <= k < t ==> (#[trigger] triangles@[k]) == (Triangle {
                    a: idx@[3 * k],
                    b: idx@[3 * k + 1],
                    c: idx@[3 * k + 2],
                }),
        decreases triangle_count - t,
    {
        let tri = Triangle { a: idx[3 * t], b: idx[3 * t + 1], c: idx[3 * t + 2] };
        triangles.push(tri);
        t = t + 1;
    }

    Ok(CollisionGeometry { vertices, triangles })
}

/// The collider round trip keeps the counts: an accepted mesh with N
/// vertices and 3 M indices yields exactly N points and M triangles, and the
/// order of both is the input order.
pub proof fn lemma_collider_round_trip(m: MeshData, g: CollisionGeometry)
    requires
        mesh_ok(m),
        geometry_matches(m, g),
    ensures
        g.vertices@.len() == mesh_points(m).len(),
        g.triangles@.len() == mesh_indices(m).len() / 3,
        forall|v: int| 0 <= v < mesh_points(m).len() ==> g.vertices@[v] == mesh_points(m)[v],
        forall|t: int|
            0 <= t < g.triangles@.len() ==> (#[trigger] g.triangles@[t]) == (Triangle {
                a: mesh_indices(m)[3 * t],
                b: mesh_indices(m)[3 * t + 1],
                c: mesh_indices(m)[3 * t + 2],
            }),
{
}

} // verus!
