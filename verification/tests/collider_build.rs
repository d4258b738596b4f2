use character_control::collider::{
    create_collider_for_mesh, IndexBuffer, MalformedMeshError, MeshData, Triangle,
    VertexAttribute,
};
use character_control::vector::Vec3I;

fn quad_points() -> Vec<Vec3I> {
    vec![
        Vec3I { x: 0, y: 0, z: 0 },
        Vec3I { x: 1_000, y: 0, z: 0 },
        Vec3I { x: 1_000, y: 0, z: 1_000 },
        Vec3I { x: 0, y: 0, z: 1_000 },
    ]
}

#[test]
fn round_trip_keeps_counts_and_order() {
    // four vertices, two triangles: exactly four points and two triangles out
    let mesh = MeshData {
        positions: Some(VertexAttribute::Points(quad_points())),
        indices: Some(IndexBuffer::U32(vec![0, 1, 2, 0, 2, 3])),
    };
    let g = create_collider_for_mesh(&mesh).unwrap();
    assert_eq!(g.vertices.len(), 4);
    assert_eq!(g.triangles.len(), 2);
    assert_eq!(g.vertices, quad_points());
    assert_eq!(g.triangles[0], Triangle { a: 0, b: 1, c: 2 });
    assert_eq!(g.triangles[1], Triangle { a: 0, b: 2, c: 3 });
}

#[test]
fn empty_mesh_builds_empty_geometry() {
    let mesh = MeshData {
        positions: Some(VertexAttribute::Points(Vec::new())),
        indices: Some(IndexBuffer::U32(Vec::new())),
    };
    let g = create_collider_for_mesh(&mesh).unwrap();
    assert_eq!(g.vertices.len(), 0);
    assert_eq!(g.triangles.len(), 0);
}

#[test]
fn missing_positions_is_refused() {
    let mesh = MeshData { positions: None, indices: Some(IndexBuffer::U32(vec![0, 1, 2])) };
    assert_eq!(create_collider_for_mesh(&mesh).unwrap_err(), MalformedMeshError::MissingPositions);
}

#[test]
fn wrong_position_format_is_refused() {
    let mesh = MeshData {
        positions: Some(VertexAttribute::OtherFormat),
        indices: Some(IndexBuffer::U32(vec![0, 1, 2])),
    };
    assert_eq!(
        create_collider_for_mesh(&mesh).unwrap_err(),
        MalformedMeshError::WrongPositionFormat
    );
}

#[test]
fn missing_indices_is_refused() {
    let mesh = MeshData { positions: Some(VertexAttribute::Points(quad_points())), indices: None };
    assert_eq!(create_collider_for_mesh(&mesh).unwrap_err(), MalformedMeshError::MissingIndices);
}

#[test]
fn narrow_index_format_is_refused() {
    let mesh = MeshData {
        positions: Some(VertexAttribute::Points(quad_points())),
        indices: Some(IndexBuffer::U16(vec![0, 1, 2])),
    };
    assert_eq!(create_collider_for_mesh(&mesh).unwrap_err(), MalformedMeshError::WrongIndexFormat);
}

#[test]
fn partial_triangle_is_refused() {
    let mesh = MeshData {
        positions: Some(VertexAttribute::Points(quad_points())),
        indices: Some(IndexBuffer::U32(vec![0, 1, 2, 3])),
    };
    assert_eq!(create_collider_for_mesh(&mesh).unwrap_err(), MalformedMeshError::PartialTriangle);
}
