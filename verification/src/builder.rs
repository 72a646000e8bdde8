//! The mesh builder: consumes an unconnected triangle soup (vertex
//! positions, optional normals, index triples) and produces a
//! topologically validated, immutable `TriangularMesh`, or reports why
//! the soup is invalid. All entity tables are local to the build until
//! it succeeds: no partial mesh is ever observable.

use vstd::prelude::*;
use crate::constants::{COORD_LIMIT, MAX_TRIANGLES, SCALE};
use crate::triangular_mesh::{corner_pos_in, edge_recorded_in, edge_wf_in, edges_opposite,
    edges_same_pair, face_wf_in, face_normal_wf_in, manifold_ok, match_count_upto, normal_sum_x,
    normal_sum_y, normal_sum_z, twin_wf_in, vertex_normal_wf_in, vertex_wf_in, Edge, Face,
    FaceNormalMode, MeshError, TriangularMesh, Vertex, VertexNormalMode};
use crate::vector3::{bounded, Vector3};

verus! {

/// The half-edge that triangle soup `tris` induces at index `k`: the
/// directed edge from corner `k % 3` to the next corner of triangle
/// `k / 3`, linked into that triangle's 3-cycle, with no twin yet.
pub open spec fn soup_edge(tris: Seq<[usize; 3]>, k: int) -> Edge {
    let t = k / 3;
    let i = k % 3;
    Edge {
        start_vertex: tris[t][i],
        end_vertex: tris[t][(i + 1) % 3],
        face: t as usize,
        twin_edge: None,
        next_edge: (3 * t + (i + 1) % 3) as usize,
        prev_edge: (3 * t + (i + 2) % 3) as usize,
    }
}

/// All half-edges the triangle soup induces, three per triangle.
pub open spec fn soup_edges(tris: Seq<[usize; 3]>) -> Seq<Edge> {
    Seq::new((3 * tris.len()) as nat, |k: int| soup_edge(tris, k))
}

/// A triangle's indices are within bounds and pairwise distinct.
pub open spec fn tri_ok(tri: [usize; 3], nverts: int) -> bool {
    &&& (tri[0] as int) < nverts
    &&& (tri[1] as int) < nverts
    &&& (tri[2] as int) < nverts
    &&& tri[0] != tri[1]
    &&& tri[1] != tri[2]
    &&& tri[0] != tri[2]
}

/// The raw triangle soup and the normal policies a mesh is built from.
/// `vertex_normals` is consulted only under the `USER_SPECIFIED` vertex
/// mode, `face_normals` only under the `USER_SPECIFIED` face mode.
pub struct TriangularMeshBuilder {
    pub positions: Vec<Vector3>,
    pub vertex_normals: Option<Vec<Vector3>>,
    pub triangles: Vec<[usize; 3]>,
    pub vertex_normal_mode: VertexNormalMode,
    pub face_normal_mode: FaceNormalMode,
    pub face_normals: Option<Vec<Vector3>>,
}

impl TriangularMeshBuilder {
    /// Positions are within the coordinate bound and the supplied
    /// normals within the unit-vector bound.
    pub open spec fn inputs_bounded(self) -> bool {
        &&& (forall|v: int|
            0 <= v < self.positions@.len() ==> bounded(
                #[trigger] self.positions@[v],
                COORD_LIMIT as int,
            ))
        &&& match self.vertex_normals {
            Some(vn) => forall|v: int|
                0 <= v < vn@.len() ==> bounded(#[trigger] vn@[v], SCALE as int),
            None => true,
        }
        &&& match self.face_normals {
            Some(fns) => forall|t: int|
                0 <= t < fns@.len() ==> bounded(#[trigger] fns@[t], SCALE as int),
            None => true,
        }
    }

    /// The auxiliary normal arrays demanded by the selected modes are
    /// present and of the right length.
    pub open spec fn lengths_ok(self) -> bool {
        &&& (self.vertex_normal_mode is USER_SPECIFIED ==> match self.vertex_normals {
            Some(vn) => vn@.len() == self.positions@.len(),
            None => false,
        })
        &&& (self.face_normal_mode is USER_SPECIFIED ==> match self.face_normals {
            Some(fns) => fns@.len() == self.triangles@.len(),
            None => false,
        })
    }

    /// Every triangle references three distinct valid vertices.
    pub open spec fn tris_ok(self) -> bool {
        forall|t: int|
            0 <= t < self.triangles@.len() ==> tri_ok(
                #[trigger] self.triangles@[t],
                self.positions@.len() as int,
            )
    }

    /// Flat normals have to be computed: they are the stored face
    /// normals under the `FLAT` and `PHONG` face modes.
    pub open spec fn needs_flat(self) -> bool {
        self.face_normal_mode is FLAT || self.face_normal_mode is PHONG
    }

    /// Triangle `t` of the soup is degenerate: its two leading edges
    /// are parallel or of zero length.
    pub open spec fn face_degenerate(self, t: int) -> bool {
        crate::triangle3::tri_degenerate(
            self.positions@[self.triangles@[t][0] as int],
            self.positions@[self.triangles@[t][1] as int],
            self.positions@[self.triangles@[t][2] as int],
        )
    }

    /// All conditions under which construction succeeds.
    pub open spec fn build_succeeds(self) -> bool {
        &&& self.lengths_ok()
        &&& self.tris_ok()
        &&& manifold_ok(soup_edges(self.triangles@))
        &&& (self.needs_flat() ==> !(exists|t: int|
            0 <= t < self.triangles@.len() && self.face_degenerate(t)))
    }

    /// Stores the whole soup; validation happens in `build`.
    pub fn new(
        positions: Vec<Vector3>,
        vertex_normals: Option<Vec<Vector3>>,
        triangles: Vec<[usize; 3]>,
        vertex_normal_mode: VertexNormalMode,
        face_normal_mode: FaceNormalMode,
        face_normals: Option<Vec<Vector3>>,
    ) -> (r: Self)
        ensures
            r.positions == positions,
            r.vertex_normals == vertex_normals,
            r.triangles == triangles,
            r.vertex_normal_mode == vertex_normal_mode,
            r.face_normal_mode == face_normal_mode,
            r.face_normals == face_normals,
    {
        Self {
            positions,
            vertex_normals,
            triangles,
            vertex_normal_mode,
            face_normal_mode,
            face_normals,
        }
    }
}

/// Checks that every triangle references three distinct vertex indices
/// within bounds.
fn triangles_valid(positions: &Vec<Vector3>, triangles: &Vec<[usize; 3]>) -> (r: bool)
    ensures
        r == forall|t: int|
            0 <= t < triangles@.len() ==> tri_ok(#[trigger] triangles@[t], positions@.len() as int),
{
    let nverts = positions.len();
    let mut t: usize = 0;
    while t < triangles.len()
        invariant
            t <= triangles@.len(),
            nverts == positions@.len(),
            forall|t2: int| 0 <= t2 < t ==> tri_ok(#[trigger] triangles@[t2], nverts as int),
        decreases triangles@.len() - t,
    {
        let tri = triangles[t];
        if tri[0] >= nverts || tri[1] >= nverts || tri[2] >= nverts || tri[0] == tri[1] || tri[1]
            == tri[2] || tri[0] == tri[2] {
            return false;
        }
        t = t + 1;
    }
    true
}

/// Creates the three half-edges of every triangle, in order, linked
/// into their per-face 3-cycles, with no twins yet.
fn make_edges(triangles: &Vec<[usize; 3]>) -> (r: Vec<Edge>)
    requires
        triangles@.len() <= MAX_TRIANGLES,
    ensures
        r@ == soup_edges(triangles@),
        r@.len() == 3 * triangles@.len(),
{
    let mut edges: Vec<Edge> = Vec::new();
    let mut t: usize = 0;
    while t < triangles.len()
        invariant
            t <= triangles@.len(),
            triangles@.len() <= MAX_TRIANGLES,
            edges@.len() == 3 * t,
            forall|k: int| 0 <= k < 3 * t ==> edges@[k] == soup_edge(triangles@, k),
        decreases triangles@.len() - t,
    {
        let tri = triangles[t];
        edges.push(
            Edge {
                start_vertex: tri[0],
                end_vertex: tri[1],
                face: t,
                twin_edge: None,
                next_edge: 3 * t + 1,
                prev_edge: 3 * t + 2,
            },
        );
        edges.push(
            Edge {
                start_vertex: tri[1],
                end_vertex: tri[2],
                face: t,
                twin_edge: None,
                next_edge: 3 * t + 2,
                prev_edge: 3 * t,
            },
        );
        edges.push(
            Edge {
                start_vertex: tri[2],
                end_vertex: tri[0],
                face: t,
                twin_edge: None,
                next_edge: 3 * t,
                prev_edge: 3 * t + 1,
            },
        );
        proof {
            assert((3 * t) / 3 == t && (3 * t) % 3 == 0);
            assert((3 * t + 1) / 3 == t && (3 * t + 1) % 3 == 1);
            assert((3 * t + 2) / 3 == t && (3 * t + 2) % 3 == 2);
            assert(edges@[3 * t] == soup_edge(triangles@, 3 * t));
            assert(edges@[3 * t + 1] == soup_edge(triangles@, 3 * t + 1));
            assert(edges@[3 * t + 2] == soup_edge(triangles@, 3 * t + 2));
        }
        t = t + 1;
    }
    proof {
        assert(edges@ =~= soup_edges(triangles@));
    }
    edges
}

/// Creates one face record per triangle, owning the three consecutive
/// half-edges starting at three times its index, with no normal yet.
fn make_faces(triangles: &Vec<[usize; 3]>) -> (r: Vec<Face>)
    requires
        triangles@.len() <= MAX_TRIANGLES,
    ensures
        r@.len() == triangles@.len(),
        forall|t: int|
            0 <= t < triangles@.len() ==> {
                &&& (#[trigger] r@[t]).vertices == triangles@[t]
                &&& r@[t].edges[0] == 3 * t
                &&& r@[t].edges[1] == 3 * t + 1
                &&& r@[t].edges[2] == 3 * t + 2
                &&& r@[t].normal is None
            },
{
    let mut faces: Vec<Face> = Vec::new();
    let mut t: usize = 0;
    while t < triangles.len()
        invariant
            t <= triangles@.len(),
            triangles@.len() <= MAX_TRIANGLES,
            faces@.len() == t,
            forall|t2: int|
                0 <= t2 < t ==> {
                    &&& (#[trigger] faces@[t2]).vertices == triangles@[t2]
                    &&& faces@[t2].edges[0] == 3 * t2
                    &&& faces@[t2].edges[1] == 3 * t2 + 1
                    &&& faces@[t2].edges[2] == 3 * t2 + 2
                    &&& faces@[t2].normal is None
                },
        decreases triangles@.len() - t,
    {
        let tri = triangles[t];
        faces.push(Face::new(tri, [3 * t, 3 * t + 1, 3 * t + 2]));
        t = t + 1;
    }
    faces
}

/// Creates one vertex per position (carrying the user normal under the
/// `USER_SPECIFIED` vertex mode), then records every half-edge in the
/// outgoing list of its start vertex, in discovery order.
fn assemble_vertices(
    positions: &Vec<Vector3>,
    vertex_normals: &Option<Vec<Vector3>>,
    mode: VertexNormalMode,
    edges: &Vec<Edge>,
) -> (r: Vec<Vertex>)
    requires
        mode is USER_SPECIFIED ==> match vertex_normals {
            Some(vn) => vn@.len() == positions@.len(),
            None => false,
        },
        forall|k: int|
            0 <= k < edges@.len() ==> ((#[trigger] edges@[k]).start_vertex as int)
                < positions@.len(),
    ensures
        r@.len() == positions@.len(),
        forall|v: int| 0 <= v < r@.len() ==> (#[trigger] r@[v]).pos == positions@[v],
        forall|v: int|
            0 <= v < r@.len() ==> (#[trigger] r@[v]).normal == if mode is USER_SPECIFIED {
                Some(vertex_normals.unwrap()@[v])
            } else {
                None::<Vector3>
            },
        forall|v: int, i: int|
            0 <= v < r@.len() && 0 <= i < r@[v].edges@.len() ==> ((#[trigger] r@[v].edges@[i]) as int)
                < edges@.len() && edges@[r@[v].edges@[i] as int].start_vertex == v,
        forall|v: int, i: int, j: int|
            #![trigger r@[v].edges@[i], r@[v].edges@[j]]
            0 <= v < r@.len() && 0 <= i < j < r@[v].edges@.len() ==> r@[v].edges@[i]
                < r@[v].edges@[j],
        forall|k: int|
            0 <= k < edges@.len() ==> edge_recorded_in(r@, edges@, k),
{
    let n = positions.len();
    let mut verts: Vec<Vertex> = Vec::new();
    let mut v: usize = 0;
    while v < n
        invariant
            v <= n,
            n == positions@.len(),
            mode is USER_SPECIFIED ==> match vertex_normals {
                Some(vn) => vn@.len() == positions@.len(),
                None => false,
            },
            verts@.len() == v,
            forall|v2: int| 0 <= v2 < v ==> (#[trigger] verts@[v2]).pos == positions@[v2],
            forall|v2: int|
                0 <= v2 < v ==> (#[trigger] verts@[v2]).normal == if mode is USER_SPECIFIED {
                    Some(vertex_normals.unwrap()@[v2])
                } else {
                    None::<Vector3>
                },
            forall|v2: int| 0 <= v2 < v ==> (#[trigger] verts@[v2]).edges@.len() == 0,
        decreases n - v,
    {
        let pos = positions[v];
        let vert = match (matches!(mode, VertexNormalMode::USER_SPECIFIED), vertex_normals) {
            (true, Some(vn)) => Vertex::new_with_normal(pos, vn[v]),
            _ => Vertex::new(pos),
        };
        verts.push(vert);
        v = v + 1;
    }
    let mut k: usize = 0;
    while k < edges.len()
        invariant
            k <= edges@.len(),
            verts@.len() == positions@.len(),
            forall|k2: int|
                0 <= k2 < edges@.len() ==> ((#[trigger] edges@[k2]).start_vertex as int)
                    < positions@.len(),
            forall|v2: int| 0 <= v2 < verts@.len() ==> (#[trigger] verts@[v2]).pos == positions@[v2],
            forall|v2: int|
                0 <= v2 < verts@.len() ==> (#[trigger] verts@[v2]).normal == if mode
                    is USER_SPECIFIED {
                    Some(vertex_normals.unwrap()@[v2])
                } else {
                    None::<Vector3>
                },
            forall|v2: int, i: int|
                0 <= v2 < verts@.len() && 0 <= i < verts@[v2].edges@.len() ==> ((
                #[trigger] verts@[v2].edges@[i]) as int) < k && edges@[verts@[v2].edges@[i] as int].start_vertex
                    == v2,
            forall|v2: int, i: int, j: int|
                #![trigger verts@[v2].edges@[i], verts@[v2].edges@[j]]
                0 <= v2 < verts@.len() && 0 <= i < j < verts@[v2].edges@.len()
                    ==> verts@[v2].edges@[i] < verts@[v2].edges@[j],
            forall|k2: int| 0 <= k2 < k ==> edge_recorded_in(verts@, edges@, k2),
        decreases edges@.len() - k,
    {
        let s = edges[k].start_vertex;
        let ghost old_verts = verts@;
        verts[s].edges.push(k);
        proof {
            assert(verts@[s as int].edges@ == old_verts[s as int].edges@.push(k as usize));
            assert(forall|v2: int|
                0 <= v2 < verts@.len() && v2 != s as int ==> verts@[v2] == old_verts[v2]);
            assert forall|v2: int, i: int|
                0 <= v2 < verts@.len() && 0 <= i < verts@[v2].edges@.len() implies ((
            #[trigger] verts@[v2].edges@[i]) as int) < k + 1 && edges@[verts@[v2].edges@[i] as int].start_vertex
                == v2 by {
                if v2 == s as int && i == verts@[v2].edges@.len() - 1 {
                    assert(verts@[v2].edges@[i] == k as usize);
                } else {
                    assert(verts@[v2].edges@[i] == old_verts[v2].edges@[i]);
                }
            }
            assert forall|v2: int, i: int, j: int|
                #![trigger verts@[v2].edges@[i], verts@[v2].edges@[j]]
                0 <= v2 < verts@.len() && 0 <= i < j < verts@[v2].edges@.len() implies verts@[v2].edges@[i]
                < verts@[v2].edges@[j] by {
                if v2 == s as int && j == verts@[v2].edges@.len() - 1 {
                    assert(verts@[v2].edges@[i] == old_verts[v2].edges@[i]);
                    assert((old_verts[v2].edges@[i] as int) < k);
                } else {
                    assert(verts@[v2].edges@[i] == old_verts[v2].edges@[i]);
                    assert(verts@[v2].edges@[j] == old_verts[v2].edges@[j]);
                }
            }
            assert forall|k2: int| 0 <= k2 < k + 1 implies edge_recorded_in(verts@, edges@, k2) by {
                let sv = edges@[k2].start_vertex as int;
                if k2 == k as int {
                    assert(verts@[sv].edges@[verts@[sv].edges@.len() - 1] == k as usize);
                } else {
                    assert(edge_recorded_in(old_verts, edges@, k2));
                    let idx = choose|idx: int|
                        0 <= idx < old_verts[sv].edges@.len() && old_verts[sv].edges@[idx]
                            == k2 as usize;
                    assert(verts@[sv].edges@[idx] == k2 as usize);
                }
            }
        }
        k = k + 1;
    }
    verts
}

/// Everything but the twin links agrees between two edge tables.
pub open spec fn endpoints_preserved(es1: Seq<Edge>, es2: Seq<Edge>) -> bool {
    &&& es1.len() == es2.len()
    &&& forall|k: int|
        0 <= k < es1.len() ==> {
            &&& (#[trigger] es2[k]).start_vertex == es1[k].start_vertex
            &&& es2[k].end_vertex == es1[k].end_vertex
            &&& es2[k].face == es1[k].face
            &&& es2[k].next_edge == es1[k].next_edge
            &&& es2[k].prev_edge == es1[k].prev_edge
        }
}

/// The twin recorded at `k` spans the same pair backwards; no twin
/// means no half-edge runs opposite to `k`. (Symmetry of the relation
/// follows separately, from manifoldness.)
pub open spec fn twin_assigned(es: Seq<Edge>, k: int) -> bool {
    match es[k].twin_edge {
        Some(j) => {
            &&& (j as int) < es.len()
            &&& (j as int) != k
            &&& edges_opposite(es[k], es[j as int])
        },
        None => forall|j: int|
            0 <= j < es.len() && j != k ==> !edges_opposite(es[k], #[trigger] es[j]),
    }
}

/// Match counts only read edge endpoints, so they agree between
/// endpoint-preserving tables.
proof fn lemma_match_count_endpoints(es1: Seq<Edge>, es2: Seq<Edge>, i: int, n: int)
    requires
        endpoints_preserved(es1, es2),
        0 <= i < es1.len(),
        n <= es1.len(),
    ensures
        match_count_upto(es1, i, n) == match_count_upto(es2, i, n),
    decreases n,
{
    if n > 0 {
        lemma_match_count_endpoints(es1, es2, i, n - 1);
    }
}

/// Match counts grow with the prefix length.
proof fn lemma_match_count_mono(es: Seq<Edge>, i: int, m: int, n: int)
    requires
        m <= n,
    ensures
        match_count_upto(es, i, m) <= match_count_upto(es, i, n),
    decreases n - m,
{
    if n > m {
        lemma_match_count_mono(es, i, m, n - 1);
    }
}

/// Match counts are never negative.
proof fn lemma_match_count_nonneg(es: Seq<Edge>, i: int, n: int)
    ensures
        match_count_upto(es, i, n) >= 0,
    decreases n,
{
    if n > 0 {
        lemma_match_count_nonneg(es, i, n - 1);
    }
}

/// A half-edge with two distinct pair-mates is counted at least twice.
proof fn lemma_two_matches(es: Seq<Edge>, i: int, a: int, b: int)
    requires
        0 <= a < b < es.len(),
        0 <= i < es.len(),
        a != i,
        b != i,
        edges_same_pair(es[i], es[a]),
        edges_same_pair(es[i], es[b]),
    ensures
        match_count_upto(es, i, es.len() as int) >= 2,
{
    lemma_match_count_nonneg(es, i, a);
    assert(match_count_upto(es, i, a + 1) >= 1);
    lemma_match_count_mono(es, i, a + 1, b);
    assert(match_count_upto(es, i, b + 1) >= 2);
    lemma_match_count_mono(es, i, b + 1, es.len() as int);
}

/// Pairs up twin half-edges by scanning for opposite-direction mates.
/// Returns false (leaving some twins unset) when a vertex pair is
/// spanned by more than two half-edges: the soup is not manifold.
fn pair_twins(edges: &mut Vec<Edge>) -> (ok: bool)
    requires
        forall|k: int| 0 <= k < old(edges)@.len() ==> (#[trigger] old(edges)@[k]).twin_edge is None,
    ensures
        endpoints_preserved(old(edges)@, final(edges)@),
        ok == manifold_ok(old(edges)@),
        ok ==> manifold_ok(final(edges)@),
        ok ==> forall|k: int|
            0 <= k < final(edges)@.len() ==> #[trigger] twin_assigned(final(edges)@, k),
{
    let n = edges.len();
    let mut i: usize = 0;
    while i < n
        invariant
            i <= n,
            n == edges@.len(),
            endpoints_preserved(old(edges)@, edges@),
            forall|k: int| 0 <= k < i ==> #[trigger] twin_assigned(edges@, k),
            forall|k: int| 0 <= k < i ==> #[trigger] match_count_upto(edges@, k, n as int) <= 1,
            forall|k: int| i <= k < n ==> (#[trigger] edges@[k]).twin_edge is None,
        decreases n - i,
    {
        let mut cnt: usize = 0;
        let mut opp: Option<usize> = None;
        let mut j: usize = 0;
        while j < n
            invariant
                j <= n,
                i < n,
                n == edges@.len(),
                endpoints_preserved(old(edges)@, edges@),
                cnt == match_count_upto(edges@, i as int, j as int),
                cnt <= 1,
                match opp {
                    Some(o) => (o as int) < n && o != i && edges_opposite(
                        edges@[i as int],
                        edges@[o as int],
                    ),
                    None => forall|j2: int|
                        0 <= j2 < j && j2 != i ==> !edges_opposite(
                            edges@[i as int],
                            #[trigger] edges@[j2],
                        ),
                },
                forall|k: int| 0 <= k < i ==> #[trigger] twin_assigned(edges@, k),
                forall|k: int| 0 <= k < i ==> #[trigger] match_count_upto(edges@, k, n as int) <= 1,
                forall|k: int| i <= k < n ==> (#[trigger] edges@[k]).twin_edge is None,
            decreases n - j,
        {
            if j != i {
                let same = (edges[j].start_vertex == edges[i].start_vertex && edges[j].end_vertex
                    == edges[i].end_vertex) || (edges[j].start_vertex == edges[i].end_vertex
                    && edges[j].end_vertex == edges[i].start_vertex);
                if same {
                    if cnt >= 1 {
                        proof {
                            lemma_match_count_mono(edges@, i as int, j as int + 1, n as int);
                            assert(!manifold_ok(edges@));
                            assert forall|k: int|
                                0 <= k < old(edges)@.len() implies match_count_upto(
                                old(edges)@,
                                k,
                                old(edges)@.len() as int,
                            ) == match_count_upto(edges@, k, edges@.len() as int) by {
                                lemma_match_count_endpoints(
                                    old(edges)@,
                                    edges@,
                                    k,
                                    old(edges)@.len() as int,
                                );
                            }
                            assert(!manifold_ok(old(edges)@));
                        }
                        return false;
                    }
                    cnt = cnt + 1;
                    if edges[j].start_vertex == edges[i].end_vertex && edges[j].end_vertex
                        == edges[i].start_vertex {
                        opp = Some(j);
                    }
                }
            }
            j = j + 1;
        }
        match opp {
            Some(o) => {
                let ghost pre = edges@;
                edges[i].twin_edge = Some(o);
                proof {
                    assert(edges@ =~= pre.update(
                        i as int,
                        Edge { twin_edge: Some(o), ..pre[i as int] },
                    ));
                    assert(endpoints_preserved(old(edges)@, edges@));
                    assert forall|k: int| 0 <= k < i + 1 implies #[trigger] match_count_upto(
                        edges@,
                        k,
                        n as int,
                    ) <= 1 by {
                        if k == i as int {
                            assert(match_count_upto(pre, k, n as int) == cnt);
                        }
                        assert(match_count_upto(pre, k, n as int) <= 1);
                        lemma_match_count_endpoints(pre, edges@, k, n as int);
                    }
                    assert forall|k: int| 0 <= k < i + 1 implies #[trigger] twin_assigned(
                        edges@,
                        k,
                    ) by {
                        if k < i as int {
                            assert(twin_assigned(pre, k));
                            assert(edges@[k].twin_edge == pre[k].twin_edge);
                            match pre[k].twin_edge {
                                Some(j2) => {
                                    assert(edges_opposite(pre[k], pre[j2 as int]));
                                },
                                None => {
                                    assert forall|j2: int|
                                        0 <= j2 < edges@.len() && j2 != k implies !edges_opposite(
                                        edges@[k],
                                        #[trigger] edges@[j2],
                                    ) by {
                                        assert(!edges_opposite(pre[k], pre[j2]));
                                    }
                                },
                            }
                        } else {
                            assert(edges_opposite(pre[i as int], pre[o as int]));
                        }
                    }
                }
            },
            None => {
                proof {
                    assert(twin_assigned(edges@, i as int));
                }
            },
        }
        i = i + 1;
    }
    proof {
        assert forall|k: int| 0 <= k < edges@.len() implies #[trigger] match_count_upto(
            edges@,
            k,
            edges@.len() as int,
        ) <= 1 by {
            assert(match_count_upto(edges@, k, n as int) <= 1);
        }
        assert(manifold_ok(edges@));
        assert forall|k: int|
            0 <= k < old(edges)@.len() implies match_count_upto(
            old(edges)@,
            k,
            old(edges)@.len() as int,
        ) == match_count_upto(edges@, k, edges@.len() as int) by {
            lemma_match_count_endpoints(old(edges)@, edges@, k, old(edges)@.len() as int);
        }
        assert(manifold_ok(old(edges)@));
    }
    true
}

/// Copies the caller-supplied face normals verbatim into the face
/// records, as the `USER_SPECIFIED` face mode demands.
fn set_user_face_normals(faces: &mut Vec<Face>, user: &Vec<Vector3>)
    requires
        old(faces)@.len() == user@.len(),
    ensures
        final(faces)@.len() == old(faces)@.len(),
        forall|t: int|
            0 <= t < final(faces)@.len() ==> {
                &&& (#[trigger] final(faces)@[t]).vertices == old(faces)@[t].vertices
                &&& final(faces)@[t].edges == old(faces)@[t].edges
                &&& final(faces)@[t].normal == Some(user@[t])
            },
{
    let n = faces.len();
    let mut t: usize = 0;
    while t < n
        invariant
            t <= n,
            n == faces@.len(),
            faces@.len() == old(faces)@.len(),
            user@.len() == old(faces)@.len(),
            forall|t2: int|
                t <= t2 < faces@.len() ==> #[trigger] faces@[t2] == old(faces)@[t2],
            forall|t2: int|
                0 <= t2 < t ==> {
                    &&& (#[trigger] faces@[t2]).vertices == old(faces)@[t2].vertices
                    &&& faces@[t2].edges == old(faces)@[t2].edges
                    &&& faces@[t2].normal == Some(user@[t2])
                },
        decreases n - t,
    {
        let fv = faces[t].vertices;
        let fe = faces[t].edges;
        faces[t] = Face::new_with_normal(fv, fe, user[t]);
        t = t + 1;
    }
}

/// Computes the flat normal of every face and stores it, reporting a
/// degeneracy error on the first face whose leading edges have a
/// vanishing cross product.
fn compute_flat_normals(faces: &mut Vec<Face>, verts: &Vec<Vertex>) -> (r: Result<(), MeshError>)
    requires
        forall|t: int|
            0 <= t < old(faces)@.len() ==> ((#[trigger] old(faces)@[t]).vertices[0] as int)
                < verts@.len() && (old(faces)@[t].vertices[1] as int) < verts@.len() && (old(
            faces,
            )@[t].vertices[2] as int) < verts@.len(),
        forall|v: int|
            0 <= v < verts@.len() ==> bounded((#[trigger] verts@[v]).pos, COORD_LIMIT as int),
    ensures
        final(faces)@.len() == old(faces)@.len(),
        forall|t: int|
            0 <= t < final(faces)@.len() ==> (#[trigger] final(faces)@[t]).vertices == old(
                faces,
            )@[t].vertices && final(faces)@[t].edges == old(faces)@[t].edges,
        r is Ok <==> !(exists|t: int|
            0 <= t < old(faces)@.len() && crate::triangle3::tri_degenerate(
                verts@[old(faces)@[t].vertices[0] as int].pos,
                verts@[old(faces)@[t].vertices[1] as int].pos,
                verts@[old(faces)@[t].vertices[2] as int].pos,
            )),
        r is Err ==> r == Result::<(), MeshError>::Err(MeshError::Degeneracy),
        r is Ok ==> forall|t: int|
            0 <= t < final(faces)@.len() ==> match (#[trigger] final(faces)@[t]).normal {
                Some(n) => bounded(n, SCALE as int) && crate::triangle3::is_flat_normal(
                    n,
                    verts@[final(faces)@[t].vertices[0] as int].pos,
                    verts@[final(faces)@[t].vertices[1] as int].pos,
                    verts@[final(faces)@[t].vertices[2] as int].pos,
                ),
                None => false,
            },
{
    let n = faces.len();
    let mut t: usize = 0;
    while t < n
        invariant
            t <= n,
            n == faces@.len(),
            faces@.len() == old(faces)@.len(),
            forall|t2: int|
                0 <= t2 < old(faces)@.len() ==> ((#[trigger] old(faces)@[t2]).vertices[0] as int)
                    < verts@.len() && (old(faces)@[t2].vertices[1] as int) < verts@.len() && (old(
                faces,
                )@[t2].vertices[2] as int) < verts@.len(),
            forall|v: int|
                0 <= v < verts@.len() ==> bounded((#[trigger] verts@[v]).pos, COORD_LIMIT as int),
            forall|t2: int|
                t <= t2 < faces@.len() ==> #[trigger] faces@[t2] == old(faces)@[t2],
            forall|t2: int|
                0 <= t2 < faces@.len() ==> (#[trigger] faces@[t2]).vertices == old(
                    faces,
                )@[t2].vertices && faces@[t2].edges == old(faces)@[t2].edges,
            forall|t2: int|
                0 <= t2 < t ==> !crate::triangle3::tri_degenerate(
                    verts@[(#[trigger] faces@[t2]).vertices[0] as int].pos,
                    verts@[faces@[t2].vertices[1] as int].pos,
                    verts@[faces@[t2].vertices[2] as int].pos,
                ),
            forall|t2: int|
                0 <= t2 < t ==> match (#[trigger] faces@[t2]).normal {
                    Some(nv) => bounded(nv, SCALE as int) && crate::triangle3::is_flat_normal(
                        nv,
                        verts@[faces@[t2].vertices[0] as int].pos,
                        verts@[faces@[t2].vertices[1] as int].pos,
                        verts@[faces@[t2].vertices[2] as int].pos,
                    ),
                    None => false,
                },
        decreases n - t,
    {
        let fv = faces[t].vertices;
        let fe = faces[t].edges;
        let p0 = verts[fv[0]].pos;
        let p1 = verts[fv[1]].pos;
        let p2 = verts[fv[2]].pos;
        let tri = crate::triangle3::Triangle3::new(p0, p1, p2);
        let e0 = tri.e(0);
        let e1 = tri.e(1);
        let c = e0.cross(&e1);
        if c.x == 0 && c.y == 0 && c.z == 0 {
            proof {
                assert(crate::triangle3::tri_degenerate(
                    verts@[old(faces)@[t as int].vertices[0] as int].pos,
                    verts@[old(faces)@[t as int].vertices[1] as int].pos,
                    verts@[old(faces)@[t as int].vertices[2] as int].pos,
                ));
            }
            return Err(MeshError::Degeneracy);
        }
        proof {
            assert(!crate::triangle3::tri_degenerate(p0, p1, p2));
        }
        let nv = tri.normal();
        faces[t] = Face::new_with_normal(fv, fe, nv);
        t = t + 1;
    }
    proof {
        assert forall|t2: int| 0 <= t2 < old(faces)@.len() implies !crate::triangle3::tri_degenerate(
            verts@[old(faces)@[t2].vertices[0] as int].pos,
            verts@[old(faces)@[t2].vertices[1] as int].pos,
            verts@[old(faces)@[t2].vertices[2] as int].pos,
        ) by {
            assert((faces@[t2]).vertices == old(faces)@[t2].vertices);
            assert(!crate::triangle3::tri_degenerate(
                verts@[(faces@[t2]).vertices[0] as int].pos,
                verts@[faces@[t2].vertices[1] as int].pos,
                verts@[faces@[t2].vertices[2] as int].pos,
            ));
        }
    }
    Ok(())
}

/// A strictly increasing list of indices below `e` has at least `i`
/// at position `i`.
proof fn lemma_sorted_list_at_least(lst: Seq<usize>, i: int)
    requires
        forall|i1: int, i2: int| #![trigger lst[i1], lst[i2]] 0 <= i1 < i2 < lst.len() ==> lst[i1] < lst[i2],
        0 <= i < lst.len(),
    ensures
        lst[i] >= i,
    decreases i,
{
    if i > 0 {
        lemma_sorted_list_at_least(lst, i - 1);
        assert(lst[i - 1] < lst[i]);
    }
}

/// A strictly increasing list of indices below `e` has at most `e`
/// entries.
proof fn lemma_sorted_list_len(lst: Seq<usize>, e: int)
    requires
        forall|i1: int, i2: int| #![trigger lst[i1], lst[i2]] 0 <= i1 < i2 < lst.len() ==> lst[i1] < lst[i2],
        forall|i1: int| 0 <= i1 < lst.len() ==> (#[trigger] lst[i1] as int) < e,
        e >= 0,
    ensures
        lst.len() <= e,
{
    if lst.len() > e {
        lemma_sorted_list_at_least(lst, e);
    }
}

/// Resolves vertex normals under the `AVERAGED` mode: each vertex gets
/// the normalized sum of the stored normals of its incident faces, or
/// none when they cancel exactly (a recoverable degeneracy).
fn resolve_vertex_normals_averaged(verts: &mut Vec<Vertex>, edges: &Vec<Edge>, faces: &Vec<Face>)
    requires
        edges@.len() <= 3 * MAX_TRIANGLES,
        forall|v: int, i: int|
            0 <= v < old(verts)@.len() && 0 <= i < old(verts)@[v].edges@.len() ==> ((
            #[trigger] old(verts)@[v].edges@[i]) as int) < edges@.len(),
        forall|v: int, i1: int, i2: int|
            #![trigger old(verts)@[v].edges@[i1], old(verts)@[v].edges@[i2]]
            0 <= v < old(verts)@.len() && 0 <= i1 < i2 < old(verts)@[v].edges@.len() ==> old(
                verts,
            )@[v].edges@[i1] < old(verts)@[v].edges@[i2],
        forall|k: int|
            0 <= k < edges@.len() ==> ((#[trigger] edges@[k]).face as int) < faces@.len(),
        forall|t: int|
            0 <= t < faces@.len() ==> match (#[trigger] faces@[t]).normal {
                Some(n) => bounded(n, SCALE as int),
                None => false,
            },
        forall|v: int| 0 <= v < old(verts)@.len() ==> (#[trigger] old(verts)@[v]).normal is None,
    ensures
        final(verts)@.len() == old(verts)@.len(),
        forall|v: int|
            0 <= v < final(verts)@.len() ==> {
                &&& (#[trigger] final(verts)@[v]).pos == old(verts)@[v].pos
                &&& final(verts)@[v].edges == old(verts)@[v].edges
            },
        forall|v: int|
            0 <= v < final(verts)@.len() ==> {
                let lst = final(verts)@[v].edges@;
                let sx = normal_sum_x(faces@, edges@, lst);
                let sy = normal_sum_y(faces@, edges@, lst);
                let sz = normal_sum_z(faces@, edges@, lst);
                if sx == 0 && sy == 0 && sz == 0 {
                    (#[trigger] final(verts)@[v]).normal is None
                } else {
                    match final(verts)@[v].normal {
                        Some(n) => crate::vector3::is_normalized_triple(n, sx, sy, sz) && bounded(
                            n,
                            SCALE as int,
                        ),
                        None => false,
                    }
                }
            },
{
    let nv = verts.len();
    let mut v: usize = 0;
    while v < nv
        invariant
            v <= nv,
            nv == verts@.len(),
            verts@.len() == old(verts)@.len(),
            edges@.len() <= 3 * MAX_TRIANGLES,
            forall|v2: int, i: int|
                0 <= v2 < old(verts)@.len() && 0 <= i < old(verts)@[v2].edges@.len() ==> ((
                #[trigger] old(verts)@[v2].edges@[i]) as int) < edges@.len(),
            forall|v2: int, i1: int, i2: int|
                #![trigger old(verts)@[v2].edges@[i1], old(verts)@[v2].edges@[i2]]
                0 <= v2 < old(verts)@.len() && 0 <= i1 < i2 < old(verts)@[v2].edges@.len() ==> old(
                    verts,
                )@[v2].edges@[i1] < old(verts)@[v2].edges@[i2],
            forall|k: int|
                0 <= k < edges@.len() ==> ((#[trigger] edges@[k]).face as int) < faces@.len(),
            forall|t: int|
                0 <= t < faces@.len() ==> match (#[trigger] faces@[t]).normal {
                    Some(n) => bounded(n, SCALE as int),
                    None => false,
                },
            forall|v2: int|
                0 <= v2 < verts@.len() ==> {
                    &&& (#[trigger] verts@[v2]).pos == old(verts)@[v2].pos
                    &&& verts@[v2].edges == old(verts)@[v2].edges
                },
            forall|v2: int| v <= v2 < verts@.len() ==> (#[trigger] verts@[v2]).normal == old(
                verts,
            )@[v2].normal,
            forall|v2: int|
                0 <= v2 < v ==> {
                    let lst = verts@[v2].edges@;
                    let sx = normal_sum_x(faces@, edges@, lst);
                    let sy = normal_sum_y(faces@, edges@, lst);
                    let sz = normal_sum_z(faces@, edges@, lst);
                    if sx == 0 && sy == 0 && sz == 0 {
                        (#[trigger] verts@[v2]).normal is None
                    } else {
                        match verts@[v2].normal {
                            Some(n) => crate::vector3::is_normalized_triple(n, sx, sy, sz)
                                && bounded(n, SCALE as int),
                            None => false,
                        }
                    }
                },
            forall|v2: int| v <= v2 < verts@.len() ==> (#[trigger] verts@[v2]).normal is None,
        decreases nv - v,
    {
        proof {
            lemma_sorted_list_len(verts@[v as int].edges@, edges@.len() as int);
        }
        let m = verts[v].edges.len();
        let mut sx: i64 = 0;
        let mut sy: i64 = 0;
        let mut sz: i64 = 0;
        let mut i: usize = 0;
        while i < m
            invariant
                i <= m,
                v < nv,
                nv == verts@.len(),
                m == verts@[v as int].edges@.len(),
                m <= edges@.len(),
                edges@.len() <= 3 * MAX_TRIANGLES,
                forall|i2: int|
                    0 <= i2 < verts@[v as int].edges@.len() ==> ((#[trigger] verts@[v as int].edges@[i2]) as int)
                        < edges@.len(),
                forall|k: int|
                    0 <= k < edges@.len() ==> ((#[trigger] edges@[k]).face as int) < faces@.len(),
                forall|t: int|
                    0 <= t < faces@.len() ==> match (#[trigger] faces@[t]).normal {
                        Some(n) => bounded(n, SCALE as int),
                        None => false,
                    },
                sx == normal_sum_x(faces@, edges@, verts@[v as int].edges@.subrange(0, i as int)),
                sy == normal_sum_y(faces@, edges@, verts@[v as int].edges@.subrange(0, i as int)),
                sz == normal_sum_z(faces@, edges@, verts@[v as int].edges@.subrange(0, i as int)),
                -(i as int) * SCALE <= sx <= (i as int) * SCALE,
                -(i as int) * SCALE <= sy <= (i as int) * SCALE,
                -(i as int) * SCALE <= sz <= (i as int) * SCALE,
            decreases m - i,
        {
            let k = verts[v].edges[i];
            let fid = edges[k].face;
            let fnorm = match &faces[fid].normal {
                Some(n) => *n,
                None => {
                    proof {
                        assert(false);
                    }
                    Vector3::zero()
                },
            };
            let ghost pre = verts@[v as int].edges@.subrange(0, i as int);
            sx = sx + fnorm.x;
            sy = sy + fnorm.y;
            sz = sz + fnorm.z;
            i = i + 1;
            proof {
                let cur = verts@[v as int].edges@.subrange(0, i as int);
                assert(cur.drop_last() =~= pre);
                assert(cur.last() == k);
            }
        }
        proof {
            assert(verts@[v as int].edges@.subrange(0, m as int) =~= verts@[v as int].edges@);
        }
        if sx == 0 && sy == 0 && sz == 0 {
            // exactly cancelling incident normals: the vertex keeps no
            // normal, and Phong evaluation falls back to face normals
        } else {
            let sum = Vector3 { x: sx, y: sy, z: sz };
            let n = sum.normalize();
            verts[v].normal = Some(n);
        }
        let ghost vv = v as int;
        v = v + 1;
        proof {
            assert(verts@[vv].edges == old(verts)@[vv].edges);
        }
    }
}

/// The given box contains all corners of faces `0 .. n` and attains
/// each of its six extremes at one of them.
pub open spec fn bbox_covers_upto(
    vertices: Seq<Vertex>,
    faces: Seq<Face>,
    bb: crate::bounding_box3::BoundingBox3,
    n: int,
) -> bool {
    &&& (forall|t: int, i: int|
        0 <= t < n && 0 <= i < 3 ==> {
            let p = #[trigger] corner_pos_in(vertices, faces, t, i);
            &&& bb.min_corner.x <= p.x <= bb.max_corner.x
            &&& bb.min_corner.y <= p.y <= bb.max_corner.y
            &&& bb.min_corner.z <= p.z <= bb.max_corner.z
        })
    &&& (exists|t: int, i: int|
        0 <= t < n && 0 <= i < 3 && (#[trigger] corner_pos_in(vertices, faces, t, i)).x
            == bb.min_corner.x)
    &&& (exists|t: int, i: int|
        0 <= t < n && 0 <= i < 3 && (#[trigger] corner_pos_in(vertices, faces, t, i)).y
            == bb.min_corner.y)
    &&& (exists|t: int, i: int|
        0 <= t < n && 0 <= i < 3 && (#[trigger] corner_pos_in(vertices, faces, t, i)).z
            == bb.min_corner.z)
    &&& (exists|t: int, i: int|
        0 <= t < n && 0 <= i < 3 && (#[trigger] corner_pos_in(vertices, faces, t, i)).x
            == bb.max_corner.x)
    &&& (exists|t: int, i: int|
        0 <= t < n && 0 <= i < 3 && (#[trigger] corner_pos_in(vertices, faces, t, i)).y
            == bb.max_corner.y)
    &&& (exists|t: int, i: int|
        0 <= t < n && 0 <= i < 3 && (#[trigger] corner_pos_in(vertices, faces, t, i)).z
            == bb.max_corner.z)
}

/// The bounding box of one face touches only that face's corners.
proof fn lemma_face_box_covers(
    vertices: Seq<Vertex>,
    faces: Seq<Face>,
    t: int,
    bb: crate::bounding_box3::BoundingBox3,
)
    requires
        0 <= t < faces.len(),
        bb.min_corner.x == crate::utils::spec_min3(
            corner_pos_in(vertices, faces, t, 0).x as int,
            corner_pos_in(vertices, faces, t, 1).x as int,
            corner_pos_in(vertices, faces, t, 2).x as int,
        ),
        bb.min_corner.y == crate::utils::spec_min3(
            corner_pos_in(vertices, faces, t, 0).y as int,
            corner_pos_in(vertices, faces, t, 1).y as int,
            corner_pos_in(vertices, faces, t, 2).y as int,
        ),
        bb.min_corner.z == crate::utils::spec_min3(
            corner_pos_in(vertices, faces, t, 0).z as int,
            corner_pos_in(vertices, faces, t, 1).z as int,
            corner_pos_in(vertices, faces, t, 2).z as int,
        ),
        bb.max_corner.x == crate::utils::spec_max3(
            corner_pos_in(vertices, faces, t, 0).x as int,
            corner_pos_in(vertices, faces, t, 1).x as int,
            corner_pos_in(vertices, faces, t, 2).x as int,
        ),
        bb.max_corner.y == crate::utils::spec_max3(
            corner_pos_in(vertices, faces, t, 0).y as int,
            corner_pos_in(vertices, faces, t, 1).y as int,
            corner_pos_in(vertices, faces, t, 2).y as int,
        ),
        bb.max_corner.z == crate::utils::spec_max3(
            corner_pos_in(vertices, faces, t, 0).z as int,
            corner_pos_in(vertices, faces, t, 1).z as int,
            corner_pos_in(vertices, faces, t, 2).z as int,
        ),
    ensures
        forall|i: int|
            0 <= i < 3 ==> {
                let p = #[trigger] corner_pos_in(vertices, faces, t, i);
                &&& bb.min_corner.x <= p.x <= bb.max_corner.x
                &&& bb.min_corner.y <= p.y <= bb.max_corner.y
                &&& bb.min_corner.z <= p.z <= bb.max_corner.z
            },
        exists|i: int|
            0 <= i < 3 && (#[trigger] corner_pos_in(vertices, faces, t, i)).x == bb.min_corner.x,
        exists|i: int|
            0 <= i < 3 && (#[trigger] corner_pos_in(vertices, faces, t, i)).y == bb.min_corner.y,
        exists|i: int|
            0 <= i < 3 && (#[trigger] corner_pos_in(vertices, faces, t, i)).z == bb.min_corner.z,
        exists|i: int|
            0 <= i < 3 && (#[trigger] corner_pos_in(vertices, faces, t, i)).x == bb.max_corner.x,
        exists|i: int|
            0 <= i < 3 && (#[trigger] corner_pos_in(vertices, faces, t, i)).y == bb.max_corner.y,
        exists|i: int|
            0 <= i < 3 && (#[trigger] corner_pos_in(vertices, faces, t, i)).z == bb.max_corner.z,
{
    let p0 = corner_pos_in(vertices, faces, t, 0);
    let p1 = corner_pos_in(vertices, faces, t, 1);
    let p2 = corner_pos_in(vertices, faces, t, 2);
    assert(corner_pos_in(vertices, faces, t, 0) == p0);
    assert(corner_pos_in(vertices, faces, t, 1) == p1);
    assert(corner_pos_in(vertices, faces, t, 2) == p2);
}

/// Computes the union of all per-face bounding boxes: the cached
/// bounding box of the mesh. An empty face table gives the zero box.
fn compute_bounding_box(verts: &Vec<Vertex>, faces: &Vec<Face>) -> (r:
    crate::bounding_box3::BoundingBox3)
    requires
        forall|t: int|
            0 <= t < faces@.len() ==> ((#[trigger] faces@[t]).vertices[0] as int) < verts@.len()
                && (faces@[t].vertices[1] as int) < verts@.len() && (faces@[t].vertices[2] as int)
                < verts@.len(),
        forall|v: int|
            0 <= v < verts@.len() ==> bounded((#[trigger] verts@[v]).pos, COORD_LIMIT as int),
    ensures
        crate::triangular_mesh::bbox_wf_in(verts@, faces@, r),
{
    if faces.len() == 0 {
        return crate::bounding_box3::BoundingBox3::zero();
    }
    let mut acc = face_box(verts, faces, 0);
    proof {
        lemma_face_box_covers(verts@, faces@, 0, acc);
        assert(bbox_covers_upto(verts@, faces@, acc, 1));
    }
    let mut t: usize = 1;
    while t < faces.len()
        invariant
            1 <= t <= faces@.len(),
            forall|t2: int|
                0 <= t2 < faces@.len() ==> ((#[trigger] faces@[t2]).vertices[0] as int)
                    < verts@.len() && (faces@[t2].vertices[1] as int) < verts@.len() && (
                faces@[t2].vertices[2] as int) < verts@.len(),
            forall|v: int|
                0 <= v < verts@.len() ==> bounded((#[trigger] verts@[v]).pos, COORD_LIMIT as int),
            acc.wf(),
            acc.corners_bounded(COORD_LIMIT as int),
            bbox_covers_upto(verts@, faces@, acc, t as int),
        decreases faces@.len() - t,
    {
        let fb = face_box(verts, faces, t);
        proof {
            lemma_face_box_covers(verts@, faces@, t as int, fb);
        }
        let ghost prev = acc;
        acc = acc.union(&fb);
        proof {
            assert forall|t2: int, i: int| 0 <= t2 < t + 1 && 0 <= i < 3 implies {
                let p = #[trigger] corner_pos_in(verts@, faces@, t2, i);
                &&& acc.min_corner.x <= p.x <= acc.max_corner.x
                &&& acc.min_corner.y <= p.y <= acc.max_corner.y
                &&& acc.min_corner.z <= p.z <= acc.max_corner.z
            } by {
                assert(corner_pos_in(verts@, faces@, t2, i) == corner_pos_in(
                    verts@,
                    faces@,
                    t2,
                    i,
                ));
            }
        }
        t = t + 1;
    }
    acc
}

/// The bounding box of one face's triangle.
fn face_box(verts: &Vec<Vertex>, faces: &Vec<Face>, t: usize) -> (r:
    crate::bounding_box3::BoundingBox3)
    requires
        (t as int) < faces@.len(),
        ((faces@[t as int]).vertices[0] as int) < verts@.len(),
        ((faces@[t as int]).vertices[1] as int) < verts@.len(),
        ((faces@[t as int]).vertices[2] as int) < verts@.len(),
        forall|v: int|
            0 <= v < verts@.len() ==> bounded((#[trigger] verts@[v]).pos, COORD_LIMIT as int),
    ensures
        r.wf(),
        r.corners_bounded(COORD_LIMIT as int),
        r.min_corner.x == crate::utils::spec_min3(
            corner_pos_in(verts@, faces@, t as int, 0).x as int,
            corner_pos_in(verts@, faces@, t as int, 1).x as int,
            corner_pos_in(verts@, faces@, t as int, 2).x as int,
        ),
        r.min_corner.y == crate::utils::spec_min3(
            corner_pos_in(verts@, faces@, t as int, 0).y as int,
            corner_pos_in(verts@, faces@, t as int, 1).y as int,
            corner_pos_in(verts@, faces@, t as int, 2).y as int,
        ),
        r.min_corner.z == crate::utils::spec_min3(
            corner_pos_in(verts@, faces@, t as int, 0).z as int,
            corner_pos_in(verts@, faces@, t as int, 1).z as int,
            corner_pos_in(verts@, faces@, t as int, 2).z as int,
        ),
        r.max_corner.x == crate::utils::spec_max3(
            corner_pos_in(verts@, faces@, t as int, 0).x as int,
            corner_pos_in(verts@, faces@, t as int, 1).x as int,
            corner_pos_in(verts@, faces@, t as int, 2).x as int,
        ),
        r.max_corner.y == crate::utils::spec_max3(
            corner_pos_in(verts@, faces@, t as int, 0).y as int,
            corner_pos_in(verts@, faces@, t as int, 1).y as int,
            corner_pos_in(verts@, faces@, t as int, 2).y as int,
        ),
        r.max_corner.z == crate::utils::spec_max3(
            corner_pos_in(verts@, faces@, t as int, 0).z as int,
            corner_pos_in(verts@, faces@, t as int, 1).z as int,
            corner_pos_in(verts@, faces@, t as int, 2).z as int,
        ),
{
    let f = &faces[t];
    let p0 = verts[f.vertices[0]].pos;
    let p1 = verts[f.vertices[1]].pos;
    let p2 = verts[f.vertices[2]].pos;
    let tri = crate::triangle3::Triangle3::new(p0, p1, p2);
    tri.bounding_box3()
}

/// With every twin locally assigned, a manifold edge table has a fully
/// symmetric twin relation whose pairs belong to different faces.
proof fn lemma_twin_wf(edges: Seq<Edge>, faces: Seq<Face>, nverts: int)
    requires
        edges.len() == 3 * faces.len(),
        forall|t: int| 0 <= t < faces.len() ==> #[trigger] face_wf_in(faces, nverts, t),
        forall|k: int| 0 <= k < edges.len() ==> #[trigger] edge_wf_in(edges, faces, k),
        forall|k: int| 0 <= k < edges.len() ==> #[trigger] twin_assigned(edges, k),
        manifold_ok(edges),
    ensures
        forall|k: int| 0 <= k < edges.len() ==> #[trigger] twin_wf_in(edges, k),
{
    assert forall|k: int| 0 <= k < edges.len() implies #[trigger] twin_wf_in(edges, k) by {
        assert(twin_assigned(edges, k));
        match edges[k].twin_edge {
            Some(j0) => {
                let j = j0 as int;
                assert(edges_opposite(edges[k], edges[j]));
                assert(edges_opposite(edges[j], edges[k]));
                assert(twin_assigned(edges, j));
                match edges[j].twin_edge {
                    Some(j2) => {
                        if (j2 as int) != k {
                            assert(edges_same_pair(edges[j], edges[k]));
                            assert(edges_opposite(edges[j], edges[j2 as int]));
                            assert(edges_same_pair(edges[j], edges[j2 as int]));
                            if k < j2 as int {
                                lemma_two_matches(edges, j, k, j2 as int);
                            } else {
                                lemma_two_matches(edges, j, j2 as int, k);
                            }
                            assert(match_count_upto(edges, j, edges.len() as int) <= 1);
                            assert(false);
                        }
                    },
                    None => {
                        assert(!edges_opposite(edges[j], edges[k]));
                        assert(false);
                    },
                }
                assert(edges[j].twin_edge == Some(k as usize));
                let t1 = k / 3;
                let t2 = j / 3;
                assert(edge_wf_in(edges, faces, k));
                assert(edge_wf_in(edges, faces, j));
                if t1 == t2 {
                    assert(face_wf_in(faces, nverts, t1));
                    assert(k % 3 != j % 3);
                    assert(false);
                }
                assert(edges[j].face != edges[k].face);
            },
            None => {},
        }
    }
}

impl TriangularMeshBuilder {
    /// Runs the whole construction: creates the entity tables, links
    /// half-edges into per-face cycles, pairs twins, validates
    /// manifoldness, resolves face and vertex normals under the
    /// selected modes, computes the bounding box, and freezes the
    /// result. Any failure leaves no partial mesh behind.
    pub fn build(&self) -> (r: Result<TriangularMesh, MeshError>)
        requires
            self.inputs_bounded(),
            self.triangles@.len() <= MAX_TRIANGLES,
        ensures
            r is Ok <==> self.build_succeeds(),
            r == Result::<TriangularMesh, MeshError>::Err(MeshError::InvalidInput)
                <==> !self.lengths_ok(),
            r == Result::<TriangularMesh, MeshError>::Err(MeshError::InvalidTopology)
                <==> self.lengths_ok() && !self.tris_ok(),
            r == Result::<TriangularMesh, MeshError>::Err(MeshError::ManifoldViolation)
                <==> self.lengths_ok() && self.tris_ok() && !manifold_ok(
                soup_edges(self.triangles@),
            ),
            r == Result::<TriangularMesh, MeshError>::Err(MeshError::Degeneracy)
                <==> self.lengths_ok() && self.tris_ok() && manifold_ok(
                soup_edges(self.triangles@),
            ) && self.needs_flat() && (exists|t: int|
                0 <= t < self.triangles@.len() && self.face_degenerate(t)),
            r matches Ok(m) ==> {
                &&& m.wf()
                &&& m.vertices@.len() == self.positions@.len()
                &&& (forall|v: int|
                    0 <= v < m.vertices@.len() ==> (#[trigger] m.vertices@[v]).pos
                        == self.positions@[v])
                &&& m.faces@.len() == self.triangles@.len()
                &&& (forall|t: int|
                    0 <= t < m.faces@.len() ==> (#[trigger] m.faces@[t]).vertices
                        == self.triangles@[t])
                &&& m.vertex_normal_mode == self.vertex_normal_mode
                &&& m.face_normal_mode == self.face_normal_mode
                &&& (self.vertex_normal_mode is USER_SPECIFIED ==> forall|v: int|
                    0 <= v < m.vertices@.len() ==> (#[trigger] m.vertices@[v]).normal == Some(
                        self.vertex_normals.unwrap()@[v],
                    ))
                &&& (self.face_normal_mode is USER_SPECIFIED ==> forall|t: int|
                    0 <= t < m.faces@.len() ==> (#[trigger] m.faces@[t]).normal == Some(
                        self.face_normals.unwrap()@[t],
                    ))
            },
    {
        // auxiliary-array lengths first
        if matches!(self.vertex_normal_mode, VertexNormalMode::USER_SPECIFIED) {
            match &self.vertex_normals {
                Some(vn) => {
                    if vn.len() != self.positions.len() {
                        return Err(MeshError::InvalidInput);
                    }
                },
                None => {
                    return Err(MeshError::InvalidInput);
                },
            }
        }
        if matches!(self.face_normal_mode, FaceNormalMode::USER_SPECIFIED) {
            match &self.face_normals {
                Some(fnorms) => {
                    if fnorms.len() != self.triangles.len() {
                        return Err(MeshError::InvalidInput);
                    }
                },
                None => {
                    return Err(MeshError::InvalidInput);
                },
            }
        }
        // triangle index validity
        if !triangles_valid(&self.positions, &self.triangles) {
            return Err(MeshError::InvalidTopology);
        }
        // half-edge creation and twin pairing
        let mut edges = make_edges(&self.triangles);
        if !pair_twins(&mut edges) {
            return Err(MeshError::ManifoldViolation);
        }
        let ghost soup = soup_edges(self.triangles@);
        proof {
            assert forall|k: int| 0 <= k < edges@.len() implies ((#[trigger] edges@[k]).start_vertex
                as int) < self.positions@.len() && ((edges@[k]).face as int)
                < self.triangles@.len() by {
                assert(k / 3 < self.triangles@.len());
                assert(tri_ok(self.triangles@[k / 3], self.positions@.len() as int));
                assert(soup[k] == soup_edge(self.triangles@, k));
            }
        }
        let mut faces = make_faces(&self.triangles);
        let mut verts = assemble_vertices(
            &self.positions,
            &self.vertex_normals,
            self.vertex_normal_mode,
            &edges,
        );
        let ghost verts_mid = verts@;
        // face normal resolution
        if matches!(self.face_normal_mode, FaceNormalMode::USER_SPECIFIED) {
            match &self.face_normals {
                Some(fnorms) => set_user_face_normals(&mut faces, fnorms),
                None => {
                    proof {
                        assert(false);
                    }
                },
            }
        } else {
            let ghost faces_mid = faces@;
            match compute_flat_normals(&mut faces, &verts) {
                Ok(()) => {
                    proof {
                        assert forall|t: int|
                            0 <= t < self.triangles@.len() implies !self.face_degenerate(t) by {
                            assert(faces_mid[t].vertices == self.triangles@[t]);
                            assert(!crate::triangle3::tri_degenerate(
                                verts@[faces_mid[t].vertices[0] as int].pos,
                                verts@[faces_mid[t].vertices[1] as int].pos,
                                verts@[faces_mid[t].vertices[2] as int].pos,
                            ));
                            assert(verts@[self.triangles@[t][0] as int].pos == self.positions@[self.triangles@[t][0] as int]);
                            assert(verts@[self.triangles@[t][1] as int].pos == self.positions@[self.triangles@[t][1] as int]);
                            assert(verts@[self.triangles@[t][2] as int].pos == self.positions@[self.triangles@[t][2] as int]);
                        }
                    }
                },
                Err(_) => {
                    proof {
                        let t = choose|t: int|
                            0 <= t < faces_mid.len() && crate::triangle3::tri_degenerate(
                                verts@[faces_mid[t].vertices[0] as int].pos,
                                verts@[faces_mid[t].vertices[1] as int].pos,
                                verts@[faces_mid[t].vertices[2] as int].pos,
                            );
                        assert(faces_mid[t].vertices == self.triangles@[t]);
                        assert(self.face_degenerate(t));
                    }
                    return Err(MeshError::Degeneracy);
                },
            }
        }
        // vertex normal resolution
        if matches!(self.vertex_normal_mode, VertexNormalMode::AVERAGED) {
            proof {
                assert(edges@.len() <= 3 * MAX_TRIANGLES);
            }
            resolve_vertex_normals_averaged(&mut verts, &edges, &faces);
        }
        // bounding box and freeze
        let bounding_box = compute_bounding_box(&verts, &faces);
        let mesh = TriangularMesh {
            vertices: verts,
            edges,
            faces,
            vertex_normal_mode: self.vertex_normal_mode,
            face_normal_mode: self.face_normal_mode,
            bounding_box,
        };
        proof {
            let es = mesh.edges@;
            let fs = mesh.faces@;
            let vs = mesh.vertices@;
            assert(endpoints_preserved(soup, es));
            assert forall|t: int| 0 <= t < fs.len() implies #[trigger] face_wf_in(
                fs,
                vs.len() as int,
                t,
            ) by {
                assert(tri_ok(self.triangles@[t], self.positions@.len() as int));
            }
            assert forall|k: int| 0 <= k < es.len() implies #[trigger] edge_wf_in(es, fs, k) by {
                assert(soup[k] == soup_edge(self.triangles@, k));
                assert(es[k].start_vertex == soup[k].start_vertex);
                assert(fs[k / 3].vertices == self.triangles@[k / 3]);
            }
            lemma_twin_wf(es, fs, vs.len() as int);
            assert forall|v: int| 0 <= v < vs.len() implies #[trigger] vertex_wf_in(vs, es, v) by {
                assert(bounded(vs[v].pos, COORD_LIMIT as int));
                assert(vs[v].edges == verts_mid[v].edges);
            }
            assert forall|k: int| 0 <= k < es.len() implies #[trigger] mesh.edge_recorded(k) by {
                let sv = es[k].start_vertex as int;
                assert(edge_recorded_in(verts_mid, es, k));
                assert(vs[sv].edges == verts_mid[sv].edges);
            }
            assert forall|t: int| 0 <= t < fs.len() implies #[trigger] face_normal_wf_in(
                vs,
                fs,
                mesh.face_normal_mode,
                t,
            ) by {
                assert(corner_pos_in(vs, fs, t, 0) == vs[fs[t].vertices[0] as int].pos);
                assert(corner_pos_in(vs, fs, t, 1) == vs[fs[t].vertices[1] as int].pos);
                assert(corner_pos_in(vs, fs, t, 2) == vs[fs[t].vertices[2] as int].pos);
            }
            assert forall|v: int| 0 <= v < vs.len() implies #[trigger] vertex_normal_wf_in(
                vs,
                es,
                fs,
                mesh.vertex_normal_mode,
                v,
            ) by {}
            assert(mesh.wf());
            assert(self.build_succeeds());
        }
        Ok(mesh)
    }
}

} // verus!
