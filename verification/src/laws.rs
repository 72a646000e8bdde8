//! Structural laws every built mesh obeys, stated as public proof
//! functions over the mesh invariant.

use vstd::prelude::*;
use crate::arith::{isqrt_spec, lemma_isqrt_unique, lemma_tdiv_common_factor, lemma_tdiv_exact,
    tdiv};
use crate::constants::SCALE;
use crate::triangular_mesh::{edges_opposite, normal_sum_x, normal_sum_y, normal_sum_z,
    TriangularMesh};
use crate::vector3::{is_normalized_triple, spec_len2, Vector3};

verus! {

/// Index of the half-edge following `k` in its face's cycle.
pub open spec fn next_of(m: TriangularMesh, k: int) -> int {
    m.edges@[k].next_edge as int
}

/// Index of the half-edge preceding `k` in its face's cycle.
pub open spec fn prev_of(m: TriangularMesh, k: int) -> int {
    m.edges@[k].prev_edge as int
}

/// Every half-edge belongs to exactly one face: it appears in its own
/// face's edge array and in no other's, and following `next_edge` (or
/// `prev_edge`) three times returns to it without leaving the face,
/// visiting vertices consistently.
pub proof fn lemma_half_edge_face_cycle(m: TriangularMesh, k: int)
    requires
        m.wf(),
        0 <= k < m.edges@.len(),
    ensures
        (m.edges@[k].face as int) == k / 3 < m.faces@.len(),
        m.faces@[k / 3].edges[k % 3] == k,
        forall|t: int|
            0 <= t < m.faces@.len() && ((#[trigger] m.faces@[t]).edges[0] == k || m.faces@[t].edges[1]
                == k || m.faces@[t].edges[2] == k) ==> t == k / 3,
        0 <= next_of(m, k) < m.edges@.len(),
        0 <= prev_of(m, k) < m.edges@.len(),
        m.edges@[next_of(m, k)].face == m.edges@[k].face,
        m.edges@[prev_of(m, k)].face == m.edges@[k].face,
        next_of(m, next_of(m, next_of(m, k))) == k,
        prev_of(m, prev_of(m, prev_of(m, k))) == k,
        prev_of(m, next_of(m, k)) == k,
        next_of(m, prev_of(m, k)) == k,
        next_of(m, k) != k,
        m.edges@[k].end_vertex == m.edges@[next_of(m, k)].start_vertex,
        m.edges@[k].start_vertex == m.edges@[prev_of(m, k)].end_vertex,
{
    assert(m.edge_wf_at(k));
    assert(m.face_wf_at(k / 3));
    let n1 = next_of(m, k);
    assert(m.edge_wf_at(n1));
    let n2 = next_of(m, n1);
    assert(m.edge_wf_at(n2));
    let p1 = prev_of(m, k);
    assert(m.edge_wf_at(p1));
    let p2 = prev_of(m, p1);
    assert(m.edge_wf_at(p2));
    assert forall|t: int|
        0 <= t < m.faces@.len() && ((#[trigger] m.faces@[t]).edges[0] == k || m.faces@[t].edges[1]
            == k || m.faces@[t].edges[2] == k) implies t == k / 3 by {
        assert(m.face_wf_at(t));
    }
}

/// For every half-edge with a twin, the twin relation is symmetric,
/// the two half-edges span the same unordered vertex pair in opposite
/// directions, and they belong to different faces.
pub proof fn lemma_twin_symmetric(m: TriangularMesh, k: int)
    requires
        m.wf(),
        0 <= k < m.edges@.len(),
        m.edges@[k].twin_edge is Some,
    ensures
        ({
            let j = m.edges@[k].twin_edge.unwrap() as int;
            &&& 0 <= j < m.edges@.len()
            &&& j != k
            &&& m.edges@[j].twin_edge == Some(k as usize)
            &&& m.edges@[j].start_vertex == m.edges@[k].end_vertex
            &&& m.edges@[j].end_vertex == m.edges@[k].start_vertex
            &&& m.edges@[j].face != m.edges@[k].face
        }),
{
    assert(m.twin_wf_at(k));
    let j = m.edges@[k].twin_edge.unwrap() as int;
    assert(edges_opposite(m.edges@[k], m.edges@[j]));
}

/// A half-edge without a twin has no oppositely directed partner
/// anywhere in the mesh: it lies on the boundary.
pub proof fn lemma_boundary_edge_unpaired(m: TriangularMesh, k: int, j: int)
    requires
        m.wf(),
        0 <= k < m.edges@.len(),
        0 <= j < m.edges@.len(),
        j != k,
        m.edges@[k].twin_edge is None,
    ensures
        !(m.edges@[j].start_vertex == m.edges@[k].end_vertex && m.edges@[j].end_vertex
            == m.edges@[k].start_vertex),
{
    assert(m.twin_wf_at(k));
    assert(!edges_opposite(m.edges@[k], m.edges@[j]));
}

/// Boundary counts are never negative.
proof fn lemma_boundary_count_nonneg(es: Seq<crate::triangular_mesh::Edge>, n: int)
    ensures
        TriangularMesh::boundary_count_upto(es, n) >= 0,
    decreases n,
{
    if n > 0 {
        lemma_boundary_count_nonneg(es, n - 1);
    }
}

/// The boundary-edge count is zero precisely when every half-edge has
/// a twin: a mesh with no boundary edges is closed.
pub proof fn lemma_zero_boundary_means_closed(es: Seq<crate::triangular_mesh::Edge>, n: int)
    requires
        0 <= n <= es.len(),
    ensures
        (TriangularMesh::boundary_count_upto(es, n) == 0) <==> (forall|k: int|
            0 <= k < n ==> (#[trigger] es[k]).twin_edge is Some),
    decreases n,
{
    if n > 0 {
        lemma_zero_boundary_means_closed(es, n - 1);
        lemma_boundary_count_nonneg(es, n - 1);
    }
}

/// Barycentric weights that put all the weight on one corner
/// interpolate exactly that corner's value.
pub proof fn lemma_interpolation_at_corners(a0: int, a1: int, a2: int)
    ensures
        TriangularMesh::interpolated_coord(Vector3 { x: SCALE, y: 0i64, z: 0i64 }, a0, a1, a2)
            == a0,
        TriangularMesh::interpolated_coord(Vector3 { x: 0i64, y: SCALE, z: 0i64 }, a0, a1, a2)
            == a1,
        TriangularMesh::interpolated_coord(Vector3 { x: 0i64, y: 0i64, z: SCALE }, a0, a1, a2)
            == a2,
{
    assert(SCALE * a0 + 0 * a1 + 0 * a2 == a0 * SCALE) by (nonlinear_arith);
    assert(0 * a0 + SCALE * a1 + 0 * a2 == a1 * SCALE) by (nonlinear_arith);
    assert(0 * a0 + 0 * a1 + SCALE * a2 == a2 * SCALE) by (nonlinear_arith);
    lemma_tdiv_exact(a0, SCALE as int);
    lemma_tdiv_exact(a1, SCALE as int);
    lemma_tdiv_exact(a2, SCALE as int);
}

/// `evaluate_position` at the barycentric corners (1,0,0), (0,1,0) and
/// (0,0,1) returns exactly the face's three vertex positions.
pub proof fn lemma_evaluate_position_at_corners(m: TriangularMesh, t: int, i: int)
    requires
        m.wf(),
        0 <= t < m.faces@.len(),
        0 <= i < 3,
    ensures
        ({
            let w = if i == 0 {
                Vector3 { x: SCALE, y: 0i64, z: 0i64 }
            } else if i == 1 {
                Vector3 { x: 0i64, y: SCALE, z: 0i64 }
            } else {
                Vector3 { x: 0i64, y: 0i64, z: SCALE }
            };
            let p = m.corner_pos(t, i);
            &&& TriangularMesh::interpolated_coord(
                w,
                m.corner_pos(t, 0).x as int,
                m.corner_pos(t, 1).x as int,
                m.corner_pos(t, 2).x as int,
            ) == p.x
            &&& TriangularMesh::interpolated_coord(
                w,
                m.corner_pos(t, 0).y as int,
                m.corner_pos(t, 1).y as int,
                m.corner_pos(t, 2).y as int,
            ) == p.y
            &&& TriangularMesh::interpolated_coord(
                w,
                m.corner_pos(t, 0).z as int,
                m.corner_pos(t, 1).z as int,
                m.corner_pos(t, 2).z as int,
            ) == p.z
        }),
{
    lemma_interpolation_at_corners(
        m.corner_pos(t, 0).x as int,
        m.corner_pos(t, 1).x as int,
        m.corner_pos(t, 2).x as int,
    );
    lemma_interpolation_at_corners(
        m.corner_pos(t, 0).y as int,
        m.corner_pos(t, 1).y as int,
        m.corner_pos(t, 2).y as int,
    );
    lemma_interpolation_at_corners(
        m.corner_pos(t, 0).z as int,
        m.corner_pos(t, 1).z as int,
        m.corner_pos(t, 2).z as int,
    );
}

/// The stored normal of the face that the `i`-th outgoing half-edge of
/// vertex `v` belongs to.
pub open spec fn incident_face_normal(m: TriangularMesh, v: int, i: int) -> Vector3 {
    m.faces@[m.edges@[m.vertices@[v].edges@[i] as int].face as int].normal.unwrap()
}

/// Under the `AVERAGED` vertex-normal mode, a vertex shared by exactly
/// two faces whose stored normals are equal and exactly one unit long
/// receives that very normal: averaging two coplanar faces reproduces
/// their common flat normal. (When the shared normal's stored length
/// is not exactly `SCALE`, rounding in the final normalization may
/// move single components by one unit.)
pub proof fn lemma_averaged_normal_of_coplanar_pair(m: TriangularMesh, v: int)
    requires
        m.wf(),
        m.vertex_normal_mode is AVERAGED,
        0 <= v < m.vertices@.len(),
        m.vertices@[v].edges@.len() == 2,
        (m.vertices@[v].edges@[0] as int) < m.edges@.len(),
        (m.vertices@[v].edges@[1] as int) < m.edges@.len(),
        (m.edges@[m.vertices@[v].edges@[0] as int].face as int) < m.faces@.len(),
        (m.edges@[m.vertices@[v].edges@[1] as int].face as int) < m.faces@.len(),
        incident_face_normal(m, v, 0) == incident_face_normal(m, v, 1),
        spec_len2(incident_face_normal(m, v, 0)) == SCALE * SCALE,
    ensures
        m.vertices@[v].normal == Some(incident_face_normal(m, v, 0)),
{
    let lst = m.vertices@[v].edges@;
    let n = incident_face_normal(m, v, 0);
    assert(m.vertex_normal_wf_at(v));
    assert(m.face_normal_wf_at(m.edges@[lst[0] as int].face as int));
    assert(m.face_normal_wf_at(m.edges@[lst[1] as int].face as int));
    let sx = normal_sum_x(m.faces@, m.edges@, lst);
    let sy = normal_sum_y(m.faces@, m.edges@, lst);
    let sz = normal_sum_z(m.faces@, m.edges@, lst);
    let dl = lst.drop_last();
    assert(dl.len() == 1);
    assert(dl.drop_last().len() == 0);
    assert(lst.last() == lst[1]);
    assert(dl.last() == lst[0]);
    assert(m.faces@[m.edges@[lst[0] as int].face as int].normal == Some(n));
    assert(m.faces@[m.edges@[lst[1] as int].face as int].normal == Some(n));
    assert(crate::triangular_mesh::edge_face_normal_x(m.faces@, m.edges@, lst[1]) == n.x);
    assert(crate::triangular_mesh::edge_face_normal_x(m.faces@, m.edges@, lst[0]) == n.x);
    assert(sx == normal_sum_x(m.faces@, m.edges@, dl) + n.x);
    assert(normal_sum_x(m.faces@, m.edges@, dl) == normal_sum_x(m.faces@, m.edges@, dl.drop_last())
        + n.x);
    assert(sy == normal_sum_y(m.faces@, m.edges@, dl) + n.y);
    assert(normal_sum_y(m.faces@, m.edges@, dl) == normal_sum_y(m.faces@, m.edges@, dl.drop_last())
        + n.y);
    assert(sz == normal_sum_z(m.faces@, m.edges@, dl) + n.z);
    assert(normal_sum_z(m.faces@, m.edges@, dl) == normal_sum_z(m.faces@, m.edges@, dl.drop_last())
        + n.z);
    assert(sx == 2 * n.x && sy == 2 * n.y && sz == 2 * n.z);
    assert(SCALE * SCALE > 0) by (nonlinear_arith);
    assert(!(sx == 0 && sy == 0 && sz == 0)) by {
        if sx == 0 && sy == 0 && sz == 0 {
            assert(n.x == 0 && n.y == 0 && n.z == 0);
            assert(spec_len2(n) == 0) by (nonlinear_arith)
                requires
                    n.x == 0 && n.y == 0 && n.z == 0,
            ;
        }
    }
    let nrm = m.vertices@[v].normal.unwrap();
    assert(is_normalized_triple(nrm, sx, sy, sz));
    assert(sx * sx + sy * sy + sz * sz == 4 * (SCALE * SCALE)) by (nonlinear_arith)
        requires
            sx == 2 * n.x,
            sy == 2 * n.y,
            sz == 2 * n.z,
            n.x * n.x + n.y * n.y + n.z * n.z == SCALE * SCALE,
    ;
    let l = isqrt_spec((sx * sx + sy * sy + sz * sz) as nat);
    assert((2 * SCALE) * (2 * SCALE) == 4 * (SCALE * SCALE) && 4 * (SCALE * SCALE) < (2 * SCALE
        + 1) * (2 * SCALE + 1)) by (nonlinear_arith);
    lemma_isqrt_unique((4 * (SCALE * SCALE)) as nat, (2 * SCALE) as nat);
    assert(l == 2 * SCALE);
    assert(nrm.x == tdiv(sx * SCALE, 2 * SCALE as int));
    assert(sx * SCALE == 2 * (n.x * SCALE) && sy * SCALE == 2 * (n.y * SCALE) && sz * SCALE == 2 * (
    n.z * SCALE)) by (nonlinear_arith)
        requires
            sx == 2 * n.x,
            sy == 2 * n.y,
            sz == 2 * n.z,
    ;
    lemma_tdiv_common_factor(n.x * SCALE, SCALE as int, 2);
    lemma_tdiv_common_factor(n.y * SCALE, SCALE as int, 2);
    lemma_tdiv_common_factor(n.z * SCALE, SCALE as int, 2);
    lemma_tdiv_exact(n.x as int, SCALE as int);
    lemma_tdiv_exact(n.y as int, SCALE as int);
    lemma_tdiv_exact(n.z as int, SCALE as int);
    assert(nrm.x == n.x && nrm.y == n.y && nrm.z == n.z);
    assert(nrm == n);
}

} // verus!
