use renderer::builder::TriangularMeshBuilder;
use renderer::constants::SCALE;
use renderer::triangular_mesh::{FaceNormalMode, MeshError, MeshPoint, TriangularMesh,
    VertexNormalMode};
use renderer::vector3::Vector3;

fn tetrahedron() -> TriangularMesh {
    let positions = vec![
        Vector3::new(0, 0, 0),
        Vector3::new(SCALE, 0, 0),
        Vector3::new(0, SCALE, 0),
        Vector3::new(0, 0, SCALE),
    ];
    let triangles = vec![[0, 2, 1], [0, 1, 3], [0, 3, 2], [1, 2, 3]];
    TriangularMeshBuilder::new(
        positions,
        None,
        triangles,
        VertexNormalMode::AVERAGED,
        FaceNormalMode::FLAT,
        None,
    )
    .build()
    .unwrap()
}

fn right_triangle_mesh() -> TriangularMesh {
    let positions = vec![
        Vector3::new(0, 0, 0),
        Vector3::new(SCALE, 0, 0),
        Vector3::new(0, SCALE, 0),
    ];
    TriangularMeshBuilder::new(
        positions,
        None,
        vec![[0, 1, 2]],
        VertexNormalMode::AVERAGED,
        FaceNormalMode::FLAT,
        None,
    )
    .build()
    .unwrap()
}

#[test]
fn tetrahedron_is_closed() {
    let m = tetrahedron();
    assert_eq!(m.vertex_count(), 4);
    assert_eq!(m.face_count(), 4);
    assert_eq!(m.edge_count(), 12);
    assert_eq!(m.boundary_edge_count(), 0);
}

#[test]
fn single_triangle_has_three_boundary_edges() {
    let m = right_triangle_mesh();
    assert_eq!(m.edge_count(), 3);
    assert_eq!(m.boundary_edge_count(), 3);
}

#[test]
fn twins_are_symmetric_and_opposite() {
    let m = tetrahedron();
    for k in 0..m.edge_count() {
        let e = m.edge(k).unwrap().clone();
        let j = e.twin_edge.expect("closed mesh edge lacks twin");
        let t = m.edge(j).unwrap().clone();
        assert_eq!(t.twin_edge, Some(k));
        assert_eq!(t.start_vertex, e.end_vertex);
        assert_eq!(t.end_vertex, e.start_vertex);
        assert_ne!(t.face, e.face);
    }
}

#[test]
fn half_edges_form_face_cycles() {
    let m = tetrahedron();
    for k in 0..m.edge_count() {
        let e = m.edge(k).unwrap().clone();
        let n1 = m.edge(e.next_edge).unwrap().clone();
        let n2 = m.edge(n1.next_edge).unwrap().clone();
        assert_eq!(n2.next_edge, k);
        assert_eq!(m.edge(e.prev_edge).unwrap().next_edge, k);
        assert_eq!(n1.face, e.face);
        assert_eq!(n2.face, e.face);
        assert_eq!(e.end_vertex, n1.start_vertex);
    }
}

#[test]
fn non_manifold_soup_is_rejected() {
    // three triangles sharing the directed edge 0 -> 1
    let positions = vec![
        Vector3::new(0, 0, 0),
        Vector3::new(SCALE, 0, 0),
        Vector3::new(0, SCALE, 0),
        Vector3::new(0, 0, SCALE),
        Vector3::new(0, -SCALE, 0),
    ];
    let triangles = vec![[0, 1, 2], [0, 1, 3], [0, 1, 4]];
    let r = TriangularMeshBuilder::new(
        positions,
        None,
        triangles,
        VertexNormalMode::AVERAGED,
        FaceNormalMode::FLAT,
        None,
    )
    .build();
    assert_eq!(r.unwrap_err(), MeshError::ManifoldViolation);
}

#[test]
fn out_of_bounds_index_is_rejected() {
    let positions = vec![
        Vector3::new(0, 0, 0),
        Vector3::new(SCALE, 0, 0),
        Vector3::new(0, SCALE, 0),
    ];
    let r = TriangularMeshBuilder::new(
        positions,
        None,
        vec![[0, 1, 5]],
        VertexNormalMode::AVERAGED,
        FaceNormalMode::FLAT,
        None,
    )
    .build();
    assert_eq!(r.unwrap_err(), MeshError::InvalidTopology);
}

#[test]
fn repeated_index_is_rejected() {
    let positions = vec![
        Vector3::new(0, 0, 0),
        Vector3::new(SCALE, 0, 0),
        Vector3::new(0, SCALE, 0),
    ];
    let r = TriangularMeshBuilder::new(
        positions,
        None,
        vec![[0, 0, 1]],
        VertexNormalMode::AVERAGED,
        FaceNormalMode::FLAT,
        None,
    )
    .build();
    assert_eq!(r.unwrap_err(), MeshError::InvalidTopology);
}

#[test]
fn degenerate_triangle_is_rejected_when_flat_normals_needed() {
    let positions = vec![
        Vector3::new(0, 0, 0),
        Vector3::new(SCALE, 0, 0),
        Vector3::new(2 * SCALE, 0, 0),
    ];
    let r = TriangularMeshBuilder::new(
        positions.clone(),
        None,
        vec![[0, 1, 2]],
        VertexNormalMode::USER_SPECIFIED,
        FaceNormalMode::FLAT,
        None,
    );
    // missing vertex normals fail first
    assert_eq!(r.build().unwrap_err(), MeshError::InvalidInput);
    let r2 = TriangularMeshBuilder::new(
        positions,
        Some(vec![Vector3::z_unit(), Vector3::z_unit(), Vector3::z_unit()]),
        vec![[0, 1, 2]],
        VertexNormalMode::USER_SPECIFIED,
        FaceNormalMode::FLAT,
        None,
    );
    assert_eq!(r2.build().unwrap_err(), MeshError::Degeneracy);
}

#[test]
fn degenerate_triangle_is_accepted_under_user_face_normals() {
    // with user-specified face normals no flat normal is computed, so a
    // collinear triangle still builds
    let positions = vec![
        Vector3::new(0, 0, 0),
        Vector3::new(SCALE, 0, 0),
        Vector3::new(2 * SCALE, 0, 0),
    ];
    let m = TriangularMeshBuilder::new(
        positions,
        None,
        vec![[0, 1, 2]],
        VertexNormalMode::AVERAGED,
        FaceNormalMode::USER_SPECIFIED,
        Some(vec![Vector3::z_unit()]),
    )
    .build()
    .unwrap();
    assert_eq!(m.face(0).unwrap().normal, Some(Vector3::z_unit()));
}

#[test]
fn mismatched_normal_array_lengths_are_rejected() {
    let positions = vec![
        Vector3::new(0, 0, 0),
        Vector3::new(SCALE, 0, 0),
        Vector3::new(0, SCALE, 0),
    ];
    let r = TriangularMeshBuilder::new(
        positions.clone(),
        Some(vec![Vector3::z_unit()]),
        vec![[0, 1, 2]],
        VertexNormalMode::USER_SPECIFIED,
        FaceNormalMode::FLAT,
        None,
    )
    .build();
    assert_eq!(r.unwrap_err(), MeshError::InvalidInput);
    let r2 = TriangularMeshBuilder::new(
        positions,
        None,
        vec![[0, 1, 2]],
        VertexNormalMode::AVERAGED,
        FaceNormalMode::USER_SPECIFIED,
        Some(vec![Vector3::z_unit(), Vector3::z_unit()]),
    )
    .build();
    assert_eq!(r2.unwrap_err(), MeshError::InvalidInput);
}

#[test]
fn mesh_point_rejects_bad_parameters() {
    // one negative component, though the sum is one
    let r = MeshPoint::new(0, Vector3::new(500_000, 600_000, -100_000));
    assert_eq!(r.unwrap_err(), MeshError::InvalidInput);
    // components in range but summing to 0.9
    let r2 = MeshPoint::new(0, Vector3::new(300_000, 300_000, 300_000));
    assert_eq!(r2.unwrap_err(), MeshError::InvalidInput);
    // a component above one
    let r3 = MeshPoint::new(0, Vector3::new(1_100_000, 0, -100_000));
    assert!(r3.is_err());
}

#[test]
fn mesh_point_accepts_valid_parameters() {
    let p = MeshPoint::new(2, Vector3::new(500_000, 300_000, 200_000)).unwrap();
    assert_eq!(p.face_id(), 2);
    assert_eq!(p.params(), Vector3::new(500_000, 300_000, 200_000));
    // the sum may be off by one unit in either direction
    assert!(MeshPoint::new(0, Vector3::new(333_333, 333_333, 333_333)).is_ok());
    assert!(MeshPoint::new(0, Vector3::new(SCALE, 0, 0)).is_ok());
    assert!(MeshPoint::new(0, Vector3::new(333_333, 333_332, 333_333)).is_err());
}

#[test]
fn evaluate_position_at_corners_returns_vertices() {
    let m = right_triangle_mesh();
    let p0 = MeshPoint::new(0, Vector3::new(SCALE, 0, 0)).unwrap();
    let p1 = MeshPoint::new(0, Vector3::new(0, SCALE, 0)).unwrap();
    let p2 = MeshPoint::new(0, Vector3::new(0, 0, SCALE)).unwrap();
    assert_eq!(m.evaluate_position(&p0), Vector3::new(0, 0, 0));
    assert_eq!(m.evaluate_position(&p1), Vector3::new(SCALE, 0, 0));
    assert_eq!(m.evaluate_position(&p2), Vector3::new(0, SCALE, 0));
}

#[test]
fn evaluate_position_at_centroid() {
    let m = right_triangle_mesh();
    let c = MeshPoint::new(0, Vector3::new(333_333, 333_333, 333_334)).unwrap();
    let r = m.evaluate_position(&c);
    // exact fixed-point centroid of (0,0,0), (1,0,0), (0,1,0)
    assert_eq!(r, Vector3::new(333_333, 333_334, 0));
}

#[test]
fn flat_mesh_round_trip() {
    // a single right triangle: flat normal +z, box (0,0,0)-(1,1,0),
    // surface area one half
    let m = right_triangle_mesh();
    assert_eq!(m.face(0).unwrap().normal, Some(Vector3::new(0, 0, SCALE)));
    let bb = m.bounding_box();
    assert_eq!(bb.min_corner(), Vector3::new(0, 0, 0));
    assert_eq!(bb.max_corner(), Vector3::new(SCALE, SCALE, 0));
    let tri = m.face_triangle(0).unwrap();
    assert_eq!(tri.surface_area(), 500_000_000_000);
    assert_eq!(tri.normal(), Vector3::new(0, 0, SCALE));
}

#[test]
fn bounding_box_spans_all_faces() {
    let m = tetrahedron();
    let bb = m.bounding_box();
    assert_eq!(bb.min_corner(), Vector3::new(0, 0, 0));
    assert_eq!(bb.max_corner(), Vector3::new(SCALE, SCALE, SCALE));
}

#[test]
fn averaged_normals_of_coplanar_faces_match_flat_normal() {
    // two coplanar triangles in the z = 0 plane sharing an edge
    let positions = vec![
        Vector3::new(0, 0, 0),
        Vector3::new(SCALE, 0, 0),
        Vector3::new(0, SCALE, 0),
        Vector3::new(SCALE, SCALE, 0),
    ];
    let triangles = vec![[0, 1, 2], [1, 3, 2]];
    let m = TriangularMeshBuilder::new(
        positions,
        None,
        triangles,
        VertexNormalMode::AVERAGED,
        FaceNormalMode::FLAT,
        None,
    )
    .build()
    .unwrap();
    assert_eq!(m.face(0).unwrap().normal, Some(Vector3::new(0, 0, SCALE)));
    assert_eq!(m.face(1).unwrap().normal, Some(Vector3::new(0, 0, SCALE)));
    for v in 0..m.vertex_count() {
        assert_eq!(m.vertex(v).unwrap().normal, Some(Vector3::new(0, 0, SCALE)));
    }
}

#[test]
fn user_vertex_normals_are_stored_verbatim() {
    let positions = vec![
        Vector3::new(0, 0, 0),
        Vector3::new(SCALE, 0, 0),
        Vector3::new(0, SCALE, 0),
    ];
    let normals = vec![Vector3::z_unit(), Vector3::x_unit(), Vector3::y_unit()];
    let m = TriangularMeshBuilder::new(
        positions,
        Some(normals),
        vec![[0, 1, 2]],
        VertexNormalMode::USER_SPECIFIED,
        FaceNormalMode::FLAT,
        None,
    )
    .build()
    .unwrap();
    assert_eq!(m.vertex(0).unwrap().normal, Some(Vector3::z_unit()));
    assert_eq!(m.vertex(1).unwrap().normal, Some(Vector3::x_unit()));
    assert_eq!(m.vertex(2).unwrap().normal, Some(Vector3::y_unit()));
}

#[test]
fn evaluate_normal_flat_ignores_weights() {
    let m = right_triangle_mesh();
    let p = MeshPoint::new(0, Vector3::new(200_000, 300_000, 500_000)).unwrap();
    assert_eq!(m.evaluate_normal(&p).unwrap(), Vector3::new(0, 0, SCALE));
}

#[test]
fn evaluate_normal_user_returns_stored_normal() {
    let positions = vec![
        Vector3::new(0, 0, 0),
        Vector3::new(SCALE, 0, 0),
        Vector3::new(0, SCALE, 0),
    ];
    let face_normal = Vector3::new(100, 200, 300);
    let m = TriangularMeshBuilder::new(
        positions,
        None,
        vec![[0, 1, 2]],
        VertexNormalMode::AVERAGED,
        FaceNormalMode::USER_SPECIFIED,
        Some(vec![face_normal]),
    )
    .build()
    .unwrap();
    let p = MeshPoint::new(0, Vector3::new(SCALE, 0, 0)).unwrap();
    assert_eq!(m.evaluate_normal(&p).unwrap(), face_normal);
}

#[test]
fn evaluate_normal_phong_interpolates() {
    let positions = vec![
        Vector3::new(0, 0, 0),
        Vector3::new(SCALE, 0, 0),
        Vector3::new(0, SCALE, 0),
    ];
    let m = TriangularMeshBuilder::new(
        positions,
        Some(vec![Vector3::z_unit(), Vector3::z_unit(), Vector3::z_unit()]),
        vec![[0, 1, 2]],
        VertexNormalMode::USER_SPECIFIED,
        FaceNormalMode::PHONG,
        None,
    )
    .build()
    .unwrap();
    let c = MeshPoint::new(0, Vector3::new(333_333, 333_333, 333_334)).unwrap();
    assert_eq!(m.evaluate_normal(&c).unwrap(), Vector3::new(0, 0, SCALE));
}

#[test]
fn evaluate_normal_phong_detects_cancelling_blend() {
    let positions = vec![
        Vector3::new(0, 0, 0),
        Vector3::new(SCALE, 0, 0),
        Vector3::new(0, SCALE, 0),
    ];
    let up = Vector3::new(0, 0, SCALE);
    let down = Vector3::new(0, 0, -SCALE);
    let m = TriangularMeshBuilder::new(
        positions,
        Some(vec![up, down, Vector3::x_unit()]),
        vec![[0, 1, 2]],
        VertexNormalMode::USER_SPECIFIED,
        FaceNormalMode::PHONG,
        None,
    )
    .build()
    .unwrap();
    let p = MeshPoint::new(0, Vector3::new(500_000, 500_000, 0)).unwrap();
    assert_eq!(m.evaluate_normal(&p).unwrap_err(), MeshError::Degeneracy);
}

#[test]
fn accessors_check_bounds() {
    let m = right_triangle_mesh();
    assert!(m.face(0).is_ok());
    assert_eq!(m.face(1).unwrap_err(), MeshError::InvalidInput);
    assert!(m.vertex(2).is_ok());
    assert_eq!(m.vertex(3).unwrap_err(), MeshError::InvalidInput);
    assert!(m.edge(2).is_ok());
    assert_eq!(m.edge(3).unwrap_err(), MeshError::InvalidInput);
    assert!(m.face_triangle(1).is_err());
    assert!(m.edges_of_face(1).is_err());
    assert!(m.outgoing_edges(3).is_err());
}

#[test]
fn traversal_helpers_follow_structure() {
    let m = tetrahedron();
    let cycle = m.edges_of_face(0).unwrap();
    assert_eq!(cycle, [0, 1, 2]);
    // vertex 0 starts one half-edge in each of its three incident faces
    assert_eq!(m.outgoing_edges(0).unwrap(), vec![0, 3, 6]);
    let tri = m.face_triangle(3).unwrap();
    assert_eq!(tri.v(0), Vector3::new(SCALE, 0, 0));
    assert_eq!(tri.v(1), Vector3::new(0, SCALE, 0));
    assert_eq!(tri.v(2), Vector3::new(0, 0, SCALE));
}

#[test]
fn builder_stores_the_soup() {
    let b = TriangularMeshBuilder::new(
        vec![Vector3::zero()],
        None,
        vec![],
        VertexNormalMode::AVERAGED,
        FaceNormalMode::FLAT,
        None,
    );
    assert_eq!(b.positions.len(), 1);
    assert!(b.vertex_normals.is_none());
    assert_eq!(b.triangles.len(), 0);
    let m = b.build().unwrap();
    assert_eq!(m.face_count(), 0);
    assert_eq!(m.bounding_box().min_corner(), Vector3::zero());
    assert_eq!(m.bounding_box().max_corner(), Vector3::zero());
}
