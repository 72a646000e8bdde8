//! Definitions and operations for a triangular mesh. The mesh is
//! maintained as a **Doubly-Connected Edge List (DCEL)**:
//!
//! - Each vertex has its own position and (optionally) a normal, with a
//!   list of outgoing half-edges.
//! - A face (triangle) contains pointers to its three vertices and three
//!   belonging half-edges (going counter-clockwise), optionally a normal
//!   vector.
//! - A half-edge and its twin edge (coincide spatially but of opposite
//!   directions) define a spatial edge. Each half-edge points from one
//!   vertex to another (one-directional), and belongs to exactly one
//!   face (while its twin edge belongs to the adjacent face).
//!
//! DCELs require population and calculation of derived data upon
//! creation: a mesh can only be built through `TriangularMeshBuilder`,
//! which validates the topology and resolves all normals, so every
//! `TriangularMesh` satisfies the structural invariant `wf`.

use vstd::prelude::*;
use crate::arith::tdiv;
use crate::bounding_box3::BoundingBox3;
use crate::constants::{COORD_LIMIT, EPSILON, MAX_TRIANGLES, SCALE};
use crate::triangle3::{is_flat_normal, Triangle3};
use crate::vector3::{bounded, is_normalized_triple, Vector3};

verus! {

/// The ways a mesh construction or query can fail.
#[derive(Debug, Clone, Copy, PartialEq, Eq, Structural)]
pub enum MeshError {
    /// Malformed auxiliary-array lengths, malformed barycentric
    /// parameters, or an out-of-range entity id.
    InvalidInput,
    /// A triangle refers to a vertex index that is out of bounds or
    /// repeated within the triangle.
    InvalidTopology,
    /// More than two half-edges share one unordered vertex pair.
    ManifoldViolation,
    /// A degenerate triangle (or a vanishing normal blend) where a
    /// normal had to be computed.
    Degeneracy,
}

/// Definition of different modes of normal vector calculation on
/// vertices.
#[allow(non_camel_case_types)]
#[derive(Debug, Clone, Copy, PartialEq, Eq, Structural)]
pub enum VertexNormalMode {
    /// User specifies normal vector for each vertex.
    USER_SPECIFIED,
    /// Normal of a vertex is calculated by averaging normals of all its
    /// adjacent faces. If face normals are provided by users, we use the
    /// provided value. Otherwise we use the flat normal (the unit normal
    /// vector orthogonal to the face). If the incident normals cancel
    /// exactly, the vertex keeps no normal.
    AVERAGED,
}

/// Definition of different modes of normal vector calculation on faces.
#[allow(non_camel_case_types)]
#[derive(Debug, Clone, Copy, PartialEq, Eq, Structural)]
pub enum FaceNormalMode {
    /// User specifies normal vector for each face.
    USER_SPECIFIED,
    /// Use the unit normal vector orthogonal to the face.
    FLAT,
    /// Store the flat normal per face, but interpolate the normal at a
    /// point from the normals of the face's vertices by barycentric
    /// weight (falling back to the face normal at vertices that carry
    /// none).
    PHONG,
}

/// Definitions of vertices of DCEL.
#[derive(Debug, Clone)]
pub struct Vertex {
    /// Position of the vertex.
    pub pos: Vector3,
    /// Normal vector of the vertex. Might be None if the parent mesh
    /// does not support normal interpolation.
    pub normal: Option<Vector3>,
    /// A list of indices of half-edges started from this vertex
    /// (outgoing).
    pub edges: Vec<usize>,
}

impl Vertex {
    pub(crate) fn new(pos: Vector3) -> (r: Self)
        ensures
            r.pos == pos,
            r.normal is None,
            r.edges@.len() == 0,
    {
        Self { pos, normal: None, edges: Vec::new() }
    }

    pub(crate) fn new_with_normal(pos: Vector3, normal: Vector3) -> (r: Self)
        ensures
            r.pos == pos,
            r.normal == Some(normal),
            r.edges@.len() == 0,
    {
        Self { pos, normal: Some(normal), edges: Vec::new() }
    }
}

/// Definitions of half-edges of DCEL.
#[derive(Debug, Clone, Copy, PartialEq, Eq, Structural)]
pub struct Edge {
    /// Index of the start vertex of this edge.
    pub start_vertex: usize,
    /// Index of the end vertex of this edge.
    pub end_vertex: usize,
    /// Index of triangle face this edge belongs to.
    pub face: usize,
    /// Index of its twin edge. If its value is None, this edge has no
    /// twin edge and thus lies on the boundary of a manifold.
    pub twin_edge: Option<usize>,
    /// Index of the next edge, which belongs to the same face as this
    /// one, and starts from the end vertex of this edge.
    pub next_edge: usize,
    /// Index of the prev edge, which belongs to the same face as this
    /// one, and ends at the start vertex of this edge.
    pub prev_edge: usize,
}

/// Definitions of triangular faces of DCEL.
#[derive(Debug, Clone)]
pub struct Face {
    /// List of all vertices' indices of this triangle.
    pub vertices: [usize; 3],
    /// List of all half-edges belonging to this triangle.
    /// Note: edges in this array might not be sorted in counterclockwise
    /// order. Please rely on `next_edge` to traverse the face.
    pub edges: [usize; 3],
    /// Normal vector of this face.
    pub normal: Option<Vector3>,
}

impl Face {
    pub(crate) fn new(vertices: [usize; 3], edges: [usize; 3]) -> (r: Self)
        ensures
            r.vertices == vertices,
            r.edges == edges,
            r.normal is None,
    {
        Self { vertices, edges, normal: None }
    }

    pub(crate) fn new_with_normal(vertices: [usize; 3], edges: [usize; 3], normal: Vector3) -> (r:
        Self)
        ensures
            r.vertices == vertices,
            r.edges == edges,
            r.normal == Some(normal),
    {
        Self { vertices, edges, normal: Some(normal) }
    }
}

/// Two half-edges span the same unordered vertex pair.
pub open spec fn edges_same_pair(a: Edge, b: Edge) -> bool {
    ||| (a.start_vertex == b.start_vertex && a.end_vertex == b.end_vertex)
    ||| (a.start_vertex == b.end_vertex && a.end_vertex == b.start_vertex)
}

/// Two half-edges span the same unordered vertex pair in opposite
/// directions.
pub open spec fn edges_opposite(a: Edge, b: Edge) -> bool {
    a.start_vertex == b.end_vertex && a.end_vertex == b.start_vertex
}

/// How many of the first `n` half-edges other than `i` itself span the
/// same unordered vertex pair as half-edge `i`.
pub open spec fn match_count_upto(es: Seq<Edge>, i: int, n: int) -> int
    decreases n,
{
    if n <= 0 {
        0
    } else {
        match_count_upto(es, i, n - 1) + if n - 1 != i && edges_same_pair(es[i], es[n - 1]) {
            1int
        } else {
            0int
        }
    }
}

/// No unordered vertex pair is spanned by more than two half-edges.
pub open spec fn manifold_ok(es: Seq<Edge>) -> bool {
    forall|i: int| 0 <= i < es.len() ==> #[trigger] match_count_upto(es, i, es.len() as int) <= 1
}

/// Position of corner `i` (0, 1 or 2) of face `t`, read from the given
/// tables.
pub open spec fn corner_pos_in(vertices: Seq<Vertex>, faces: Seq<Face>, t: int, i: int) -> Vector3 {
    vertices[faces[t].vertices[i] as int].pos
}

/// Face `t` references three distinct valid vertices, and owns the
/// three consecutive half-edges starting at `3 t`.
pub open spec fn face_wf_in(faces: Seq<Face>, nverts: int, t: int) -> bool {
    let f = faces[t];
    &&& (f.vertices[0] as int) < nverts
    &&& (f.vertices[1] as int) < nverts
    &&& (f.vertices[2] as int) < nverts
    &&& f.vertices[0] != f.vertices[1]
    &&& f.vertices[1] != f.vertices[2]
    &&& f.vertices[0] != f.vertices[2]
    &&& f.edges[0] == 3 * t
    &&& f.edges[1] == 3 * t + 1
    &&& f.edges[2] == 3 * t + 2
}

/// Half-edge `k` belongs to face `k / 3`, runs between the right
/// corners of that face, and is linked to its two neighbours in the
/// face's 3-cycle.
pub open spec fn edge_wf_in(edges: Seq<Edge>, faces: Seq<Face>, k: int) -> bool {
    let e = edges[k];
    let t = k / 3;
    let i = k % 3;
    &&& e.face == t
    &&& e.next_edge == 3 * t + ((i + 1) % 3)
    &&& e.prev_edge == 3 * t + ((i + 2) % 3)
    &&& e.start_vertex == faces[t].vertices[i]
    &&& e.end_vertex == faces[t].vertices[(i + 1) % 3]
}

/// The twin of half-edge `k`, when present, is a distinct half-edge
/// spanning the same vertex pair backwards that points back at `k` and
/// belongs to another face; when absent, no half-edge runs opposite to
/// `k` and `k` lies on the mesh boundary.
pub open spec fn twin_wf_in(edges: Seq<Edge>, k: int) -> bool {
    match edges[k].twin_edge {
        Some(j) => {
            &&& (j as int) < edges.len()
            &&& (j as int) != k
            &&& edges_opposite(edges[k], edges[j as int])
            &&& edges[j as int].twin_edge == Some(k as usize)
            &&& edges[j as int].face != edges[k].face
        },
        None => forall|j: int|
            0 <= j < edges.len() && j != k ==> !edges_opposite(edges[k], #[trigger] edges[j]),
    }
}

/// The vertex's position is within the coordinate bound, its recorded
/// outgoing half-edges start at it and are listed in ascending
/// discovery order, and its normal (when present) is bounded like a
/// unit vector.
pub open spec fn vertex_wf_in(vertices: Seq<Vertex>, edges: Seq<Edge>, v: int) -> bool {
    let lst = vertices[v].edges@;
    &&& bounded(vertices[v].pos, COORD_LIMIT as int)
    &&& (forall|i: int|
        0 <= i < lst.len() ==> (#[trigger] lst[i] as int) < edges.len() && edges[lst[i] as int].start_vertex
            == v)
    &&& (forall|i: int, j: int| #![trigger lst[i], lst[j]] 0 <= i < j < lst.len() ==> lst[i] < lst[j])
    &&& match vertices[v].normal {
        Some(n) => bounded(n, SCALE as int),
        None => true,
    }
}

/// Half-edge `k` is recorded in the outgoing list of its start vertex.
pub open spec fn edge_recorded_in(vertices: Seq<Vertex>, edges: Seq<Edge>, k: int) -> bool {
    vertices[edges[k].start_vertex as int].edges@.contains(k as usize)
}

/// Every face stores a normal, bounded like a unit vector; under the
/// `FLAT` and `PHONG` face modes it is exactly the flat normal of the
/// face's triangle.
pub open spec fn face_normal_wf_in(
    vertices: Seq<Vertex>,
    faces: Seq<Face>,
    mode: FaceNormalMode,
    t: int,
) -> bool {
    match faces[t].normal {
        Some(n) => {
            &&& bounded(n, SCALE as int)
            &&& (mode is FLAT || mode is PHONG) ==> is_flat_normal(
                n,
                corner_pos_in(vertices, faces, t, 0),
                corner_pos_in(vertices, faces, t, 1),
                corner_pos_in(vertices, faces, t, 2),
            )
        },
        None => false,
    }
}

/// The stored normal of the face owning half-edge `k` (the x
/// component; zero stands in for an absent normal, which `wf` rules
/// out).
pub open spec fn edge_face_normal_x(faces: Seq<Face>, edges: Seq<Edge>, k: usize) -> int {
    match faces[edges[k as int].face as int].normal {
        Some(n) => n.x as int,
        None => 0,
    }
}

/// As above, y component.
pub open spec fn edge_face_normal_y(faces: Seq<Face>, edges: Seq<Edge>, k: usize) -> int {
    match faces[edges[k as int].face as int].normal {
        Some(n) => n.y as int,
        None => 0,
    }
}

/// As above, z component.
pub open spec fn edge_face_normal_z(faces: Seq<Face>, edges: Seq<Edge>, k: usize) -> int {
    match faces[edges[k as int].face as int].normal {
        Some(n) => n.z as int,
        None => 0,
    }
}

/// Sum of the stored normals of the faces owning the listed half-edges
/// (x component).
pub open spec fn normal_sum_x(faces: Seq<Face>, edges: Seq<Edge>, lst: Seq<usize>) -> int
    decreases lst.len(),
{
    if lst.len() == 0 {
        0
    } else {
        normal_sum_x(faces, edges, lst.drop_last()) + edge_face_normal_x(faces, edges, lst.last())
    }
}

/// As above, y component.
pub open spec fn normal_sum_y(faces: Seq<Face>, edges: Seq<Edge>, lst: Seq<usize>) -> int
    decreases lst.len(),
{
    if lst.len() == 0 {
        0
    } else {
        normal_sum_y(faces, edges, lst.drop_last()) + edge_face_normal_y(faces, edges, lst.last())
    }
}

/// As above, z component.
pub open spec fn normal_sum_z(faces: Seq<Face>, edges: Seq<Edge>, lst: Seq<usize>) -> int
    decreases lst.len(),
{
    if lst.len() == 0 {
        0
    } else {
        normal_sum_z(faces, edges, lst.drop_last()) + edge_face_normal_z(faces, edges, lst.last())
    }
}

/// The vertex's stored normal agrees with the vertex-normal mode:
/// under `USER_SPECIFIED` one is present; under `AVERAGED` it is the
/// normalized sum of the incident faces' stored normals, or absent
/// when those normals cancel exactly.
pub open spec fn vertex_normal_wf_in(
    vertices: Seq<Vertex>,
    edges: Seq<Edge>,
    faces: Seq<Face>,
    mode: VertexNormalMode,
    v: int,
) -> bool {
    match mode {
        VertexNormalMode::USER_SPECIFIED => vertices[v].normal is Some,
        VertexNormalMode::AVERAGED => {
            let lst = vertices[v].edges@;
            let sx = normal_sum_x(faces, edges, lst);
            let sy = normal_sum_y(faces, edges, lst);
            let sz = normal_sum_z(faces, edges, lst);
            if sx == 0 && sy == 0 && sz == 0 {
                vertices[v].normal is None
            } else {
                match vertices[v].normal {
                    Some(n) => is_normalized_triple(n, sx, sy, sz),
                    None => false,
                }
            }
        },
    }
}

/// The box is the union of the per-face bounding boxes of the given
/// tables: every face corner lies inside it and each of its six
/// extremes is attained by some face corner. For an empty face table
/// it is the zero box.
pub open spec fn bbox_wf_in(vertices: Seq<Vertex>, faces: Seq<Face>, bb: BoundingBox3) -> bool {
    if faces.len() == 0 {
        bb == (BoundingBox3 {
            min_corner: Vector3 { x: 0i64, y: 0i64, z: 0i64 },
            max_corner: Vector3 { x: 0i64, y: 0i64, z: 0i64 },
        })
    } else {
        &&& bb.wf()
        &&& bb.corners_bounded(COORD_LIMIT as int)
        &&& (forall|t: int, i: int|
            0 <= t < faces.len() && 0 <= i < 3 ==> {
                let p = #[trigger] corner_pos_in(vertices, faces, t, i);
                &&& bb.min_corner.x <= p.x <= bb.max_corner.x
                &&& bb.min_corner.y <= p.y <= bb.max_corner.y
                &&& bb.min_corner.z <= p.z <= bb.max_corner.z
            })
        &&& (exists|t: int, i: int|
            0 <= t < faces.len() && 0 <= i < 3 && (#[trigger] corner_pos_in(vertices, faces, t, i)).x
                == bb.min_corner.x)
        &&& (exists|t: int, i: int|
            0 <= t < faces.len() && 0 <= i < 3 && (#[trigger] corner_pos_in(vertices, faces, t, i)).y
                == bb.min_corner.y)
        &&& (exists|t: int, i: int|
            0 <= t < faces.len() && 0 <= i < 3 && (#[trigger] corner_pos_in(vertices, faces, t, i)).z
                == bb.min_corner.z)
        &&& (exists|t: int, i: int|
            0 <= t < faces.len() && 0 <= i < 3 && (#[trigger] corner_pos_in(vertices, faces, t, i)).x
                == bb.max_corner.x)
        &&& (exists|t: int, i: int|
            0 <= t < faces.len() && 0 <= i < 3 && (#[trigger] corner_pos_in(vertices, faces, t, i)).y
                == bb.max_corner.y)
        &&& (exists|t: int, i: int|
            0 <= t < faces.len() && 0 <= i < 3 && (#[trigger] corner_pos_in(vertices, faces, t, i)).z
                == bb.max_corner.z)
    }
}

/// A descriptor for any point on the triangular mesh, represented by a
/// face index and parametric representation of the point. More
/// specifically, if the face `f` is formed by vertices v0, v1 and v2
/// (in this order), the representation of a point p = (f, a, b, c) on
/// this face represents the point:
///
/// > p = a * v0 + b * v1 + c * v2
///
/// The barycentric parameters a, b, c are fixed-point weights in
/// `[0, SCALE]` that must sum to `SCALE` within the general tolerance.
///
/// A `MeshPoint` is meaningful only together with the mesh that
/// produced its face index; pairing it with another mesh is a caller
/// error that the type cannot detect.
#[derive(Debug, Clone, Copy, PartialEq, Eq, Structural)]
pub struct MeshPoint {
    pub face_id: usize,
    pub params: Vector3,
}

/// The three weights lie in `[0, SCALE]` and sum to `SCALE` within the
/// general tolerance.
pub open spec fn valid_barycentric(p: Vector3) -> bool {
    &&& 0 <= p.x <= SCALE
    &&& 0 <= p.y <= SCALE
    &&& 0 <= p.z <= SCALE
    &&& -EPSILON <= p.x + p.y + p.z - SCALE <= EPSILON
}

impl MeshPoint {
    /// Builds a point descriptor after validating the barycentric
    /// parameters: each weight must lie in `[0, SCALE]` and the three
    /// must sum to `SCALE` within the general tolerance.
    pub fn new(face_id: usize, params: Vector3) -> (r: Result<MeshPoint, MeshError>)
        ensures
            r is Ok <==> valid_barycentric(params),
            r matches Ok(p) ==> p.face_id == face_id && p.params == params,
            r is Err ==> r == Result::<MeshPoint, MeshError>::Err(MeshError::InvalidInput),
    {
        if params.x < 0 || params.x > SCALE || params.y < 0 || params.y > SCALE || params.z < 0
            || params.z > SCALE {
            return Err(MeshError::InvalidInput);
        }
        let sum = params.x + params.y + params.z;
        if !crate::utils::equal_with_bound(sum, SCALE) {
            return Err(MeshError::InvalidInput);
        }
        Ok(MeshPoint { face_id, params })
    }

    pub fn face_id(&self) -> (r: usize)
        ensures
            r == self.face_id,
    {
        self.face_id
    }

    pub fn params(&self) -> (r: Vector3)
        ensures
            r == self.params,
    {
        self.params
    }
}

/// The triangular mesh: three parallel index-addressed entity tables,
/// the two normal-computation modes fixed at construction, and the
/// cached bounding box of all faces. Immutable once built.
#[derive(Debug, Clone)]
pub struct TriangularMesh {
    pub vertices: Vec<Vertex>,
    pub edges: Vec<Edge>,
    pub faces: Vec<Face>,
    pub vertex_normal_mode: VertexNormalMode,
    pub face_normal_mode: FaceNormalMode,
    pub bounding_box: BoundingBox3,
}

impl TriangularMesh {
    /// Position of corner `i` (0, 1 or 2) of face `t`.
    pub open spec fn corner_pos(self, t: int, i: int) -> Vector3 {
        corner_pos_in(self.vertices@, self.faces@, t, i)
    }

    /// Face `t` is well formed within this mesh's tables.
    pub open spec fn face_wf_at(self, t: int) -> bool {
        face_wf_in(self.faces@, self.vertices@.len() as int, t)
    }

    /// Half-edge `k` is well formed within this mesh's tables.
    pub open spec fn edge_wf_at(self, k: int) -> bool {
        edge_wf_in(self.edges@, self.faces@, k)
    }

    /// The twin relation at half-edge `k` is well formed.
    pub open spec fn twin_wf_at(self, k: int) -> bool {
        twin_wf_in(self.edges@, k)
    }

    /// Vertex `v` is well formed within this mesh's tables.
    pub open spec fn vertex_wf_at(self, v: int) -> bool {
        vertex_wf_in(self.vertices@, self.edges@, v)
    }

    /// Half-edge `k` is recorded in the outgoing list of its start
    /// vertex.
    pub open spec fn edge_recorded(self, k: int) -> bool {
        edge_recorded_in(self.vertices@, self.edges@, k)
    }

    /// The stored normal of face `t` agrees with the face-normal mode.
    pub open spec fn face_normal_wf_at(self, t: int) -> bool {
        face_normal_wf_in(self.vertices@, self.faces@, self.face_normal_mode, t)
    }

    /// The stored normal of vertex `v` agrees with the vertex-normal
    /// mode.
    pub open spec fn vertex_normal_wf_at(self, v: int) -> bool {
        vertex_normal_wf_in(
            self.vertices@,
            self.edges@,
            self.faces@,
            self.vertex_normal_mode,
            v,
        )
    }

    /// The cached box is the union of the per-face bounding boxes.
    pub open spec fn bbox_wf(self) -> bool {
        bbox_wf_in(self.vertices@, self.faces@, self.bounding_box)
    }

    /// The structural invariant every built mesh satisfies.
    pub open spec fn wf(self) -> bool {
        &&& self.edges@.len() == 3 * self.faces@.len()
        &&& self.faces@.len() <= MAX_TRIANGLES
        &&& (forall|t: int| 0 <= t < self.faces@.len() ==> #[trigger] self.face_wf_at(t))
        &&& (forall|k: int| 0 <= k < self.edges@.len() ==> #[trigger] self.edge_wf_at(k))
        &&& (forall|k: int| 0 <= k < self.edges@.len() ==> #[trigger] self.twin_wf_at(k))
        &&& manifold_ok(self.edges@)
        &&& (forall|v: int| 0 <= v < self.vertices@.len() ==> #[trigger] self.vertex_wf_at(v))
        &&& (forall|k: int| 0 <= k < self.edges@.len() ==> #[trigger] self.edge_recorded(k))
        &&& (forall|t: int| 0 <= t < self.faces@.len() ==> #[trigger] self.face_normal_wf_at(t))
        &&& (forall|v: int|
            0 <= v < self.vertices@.len() ==> #[trigger] self.vertex_normal_wf_at(v))
        &&& self.bbox_wf()
    }

    /// Bounds-checked access to a face record.
    pub fn face(&self, id: usize) -> (r: Result<&Face, MeshError>)
        ensures
            (id as int) < self.faces@.len() <==> r is Ok,
            r matches Ok(f) ==> *f == self.faces@[id as int],
            r is Err ==> r == Result::<&Face, MeshError>::Err(MeshError::InvalidInput),
    {
        if id < self.faces.len() {
            Ok(&self.faces[id])
        } else {
            Err(MeshError::InvalidInput)
        }
    }

    /// Bounds-checked access to a vertex record.
    pub fn vertex(&self, id: usize) -> (r: Result<&Vertex, MeshError>)
        ensures
            (id as int) < self.vertices@.len() <==> r is Ok,
            r matches Ok(v) ==> *v == self.vertices@[id as int],
            r is Err ==> r == Result::<&Vertex, MeshError>::Err(MeshError::InvalidInput),
    {
        if id < self.vertices.len() {
            Ok(&self.vertices[id])
        } else {
            Err(MeshError::InvalidInput)
        }
    }

    /// Bounds-checked access to a half-edge record.
    pub fn edge(&self, id: usize) -> (r: Result<&Edge, MeshError>)
        ensures
            (id as int) < self.edges@.len() <==> r is Ok,
            r matches Ok(e) ==> *e == self.edges@[id as int],
            r is Err ==> r == Result::<&Edge, MeshError>::Err(MeshError::InvalidInput),
    {
        if id < self.edges.len() {
            Ok(&self.edges[id])
        } else {
            Err(MeshError::InvalidInput)
        }
    }

    /// Number of vertices in the mesh.
    pub fn vertex_count(&self) -> (r: usize)
        ensures
            r == self.vertices@.len(),
    {
        self.vertices.len()
    }

    /// Number of half-edges in the mesh.
    pub fn edge_count(&self) -> (r: usize)
        ensures
            r == self.edges@.len(),
    {
        self.edges.len()
    }

    /// Number of faces in the mesh.
    pub fn face_count(&self) -> (r: usize)
        ensures
            r == self.faces@.len(),
    {
        self.faces.len()
    }

    /// The union of all per-face bounding boxes, computed once during
    /// construction and cached.
    pub fn bounding_box(&self) -> (r: BoundingBox3)
        ensures
            r == self.bounding_box,
    {
        self.bounding_box
    }

    /// Rebuilds the standalone triangle of a face from its three vertex
    /// positions, in stored winding order; bounding-box and area
    /// queries delegate to it.
    pub fn face_triangle(&self, id: usize) -> (r: Result<Triangle3, MeshError>)
        requires
            self.wf(),
        ensures
            (id as int) < self.faces@.len() <==> r is Ok,
            r matches Ok(tri) ==> {
                &&& tri.vertices[0] == self.corner_pos(id as int, 0)
                &&& tri.vertices[1] == self.corner_pos(id as int, 1)
                &&& tri.vertices[2] == self.corner_pos(id as int, 2)
                &&& tri.vertices_bounded(COORD_LIMIT as int)
            },
            r is Err ==> r == Result::<Triangle3, MeshError>::Err(MeshError::InvalidInput),
    {
        if id >= self.faces.len() {
            return Err(MeshError::InvalidInput);
        }
        proof {
            assert(self.face_wf_at(id as int));
            assert(self.vertex_wf_at(self.faces@[id as int].vertices[0] as int));
            assert(self.vertex_wf_at(self.faces@[id as int].vertices[1] as int));
            assert(self.vertex_wf_at(self.faces@[id as int].vertices[2] as int));
        }
        let f = &self.faces[id];
        let p0 = self.vertices[f.vertices[0]].pos;
        let p1 = self.vertices[f.vertices[1]].pos;
        let p2 = self.vertices[f.vertices[2]].pos;
        Ok(Triangle3::new(p0, p1, p2))
    }

    /// The ordered 3-edge cycle of a face, obtained by following
    /// `next_edge` from the face's first stored half-edge.
    pub fn edges_of_face(&self, id: usize) -> (r: Result<[usize; 3], MeshError>)
        requires
            self.wf(),
        ensures
            (id as int) < self.faces@.len() <==> r is Ok,
            r matches Ok(cycle) ==> {
                &&& cycle[0] == self.faces@[id as int].edges[0]
                &&& cycle[1] == self.edges@[cycle[0] as int].next_edge
                &&& cycle[2] == self.edges@[cycle[1] as int].next_edge
                &&& self.edges@[cycle[2] as int].next_edge == cycle[0]
            },
            r is Err ==> r == Result::<[usize; 3], MeshError>::Err(MeshError::InvalidInput),
    {
        if id >= self.faces.len() {
            return Err(MeshError::InvalidInput);
        }
        proof {
            assert(self.face_wf_at(id as int));
            assert(self.edge_wf_at(3 * id as int));
            assert(self.edge_wf_at(3 * id as int + 1));
            assert(self.edge_wf_at(3 * id as int + 2));
        }
        let e0 = self.faces[id].edges[0];
        let e1 = self.edges[e0].next_edge;
        let e2 = self.edges[e1].next_edge;
        Ok([e0, e1, e2])
    }

    /// The vertex's recorded outgoing half-edge indices, in discovery
    /// order.
    pub fn outgoing_edges(&self, id: usize) -> (r: Result<Vec<usize>, MeshError>)
        ensures
            (id as int) < self.vertices@.len() <==> r is Ok,
            r matches Ok(lst) ==> lst@ == self.vertices@[id as int].edges@,
            r is Err ==> r == Result::<Vec<usize>, MeshError>::Err(MeshError::InvalidInput),
    {
        if id >= self.vertices.len() {
            return Err(MeshError::InvalidInput);
        }
        let src = &self.vertices[id].edges;
        let mut out: Vec<usize> = Vec::new();
        let mut i: usize = 0;
        while i < src.len()
            invariant
                i <= src.len(),
                out@ == src@.subrange(0, i as int),
                src@ == self.vertices@[id as int].edges@,
            decreases src.len() - i,
        {
            out.push(src[i]);
            i = i + 1;
            proof {
                assert(out@ =~= src@.subrange(0, i as int));
            }
        }
        proof {
            assert(out@ =~= src@);
        }
        Ok(out)
    }

    /// The fixed-point coordinate interpolated from three values by the
    /// barycentric weights `w`: `(w.x a0 + w.y a1 + w.z a2) / SCALE`,
    /// rounded towards zero.
    pub open spec fn interpolated_coord(w: Vector3, a0: int, a1: int, a2: int) -> int {
        tdiv(w.x * a0 + w.y * a1 + w.z * a2, SCALE as int)
    }

    /// The position a mesh point denotes: the barycentric combination
    /// of its face's three vertex positions.
    pub fn evaluate_position(&self, point: &MeshPoint) -> (r: Vector3)
        requires
            self.wf(),
            (point.face_id as int) < self.faces@.len(),
            valid_barycentric(point.params),
        ensures
            r.x == Self::interpolated_coord(
                point.params,
                self.corner_pos(point.face_id as int, 0).x as int,
                self.corner_pos(point.face_id as int, 1).x as int,
                self.corner_pos(point.face_id as int, 2).x as int,
            ),
            r.y == Self::interpolated_coord(
                point.params,
                self.corner_pos(point.face_id as int, 0).y as int,
                self.corner_pos(point.face_id as int, 1).y as int,
                self.corner_pos(point.face_id as int, 2).y as int,
            ),
            r.z == Self::interpolated_coord(
                point.params,
                self.corner_pos(point.face_id as int, 0).z as int,
                self.corner_pos(point.face_id as int, 1).z as int,
                self.corner_pos(point.face_id as int, 2).z as int,
            ),
    {
        let t = point.face_id;
        proof {
            assert(self.face_wf_at(t as int));
            assert(self.vertex_wf_at(self.faces@[t as int].vertices[0] as int));
            assert(self.vertex_wf_at(self.faces@[t as int].vertices[1] as int));
            assert(self.vertex_wf_at(self.faces@[t as int].vertices[2] as int));
        }
        let f = &self.faces[t];
        let p0 = self.vertices[f.vertices[0]].pos;
        let p1 = self.vertices[f.vertices[1]].pos;
        let p2 = self.vertices[f.vertices[2]].pos;
        let x = Self::interp_component(&point.params, p0.x, p1.x, p2.x);
        let y = Self::interp_component(&point.params, p0.y, p1.y, p2.y);
        let z = Self::interp_component(&point.params, p0.z, p1.z, p2.z);
        Vector3 { x, y, z }
    }

    /// One coordinate of a barycentric interpolation.
    fn interp_component(w: &Vector3, a0: i64, a1: i64, a2: i64) -> (r: i64)
        requires
            valid_barycentric(*w),
            -COORD_LIMIT <= a0 <= COORD_LIMIT,
            -COORD_LIMIT <= a1 <= COORD_LIMIT,
            -COORD_LIMIT <= a2 <= COORD_LIMIT,
        ensures
            r == Self::interpolated_coord(*w, a0 as int, a1 as int, a2 as int),
            -3 * COORD_LIMIT <= r <= 3 * COORD_LIMIT,
    {
        proof {
            assert(-(SCALE * (3 * COORD_LIMIT)) <= w.x * a0 + w.y * a1 + w.z * a2 <= SCALE * (3
                * COORD_LIMIT) && -(SCALE * COORD_LIMIT) <= w.x * a0 <= SCALE * COORD_LIMIT && -(
            SCALE * COORD_LIMIT) <= w.y * a1 <= SCALE * COORD_LIMIT && -(SCALE * COORD_LIMIT) <= w.z
                * a2 <= SCALE * COORD_LIMIT && SCALE * (3 * COORD_LIMIT) < i64::MAX)
                by (nonlinear_arith)
                requires
                    0 <= w.x <= SCALE,
                    0 <= w.y <= SCALE,
                    0 <= w.z <= SCALE,
                    -COORD_LIMIT <= a0 <= COORD_LIMIT,
                    -COORD_LIMIT <= a1 <= COORD_LIMIT,
                    -COORD_LIMIT <= a2 <= COORD_LIMIT,
            ;
            crate::arith::lemma_tdiv_bound(
                w.x * a0 + w.y * a1 + w.z * a2,
                SCALE as int,
                3 * COORD_LIMIT as int,
            );
        }
        let num = w.x * a0 + w.y * a1 + w.z * a2;
        crate::arith::tdiv_i64(num, SCALE)
    }

    /// The vertex normal used for Phong interpolation at corner `i` of
    /// face `t`: the vertex's own normal, or the face's stored normal
    /// when the vertex carries none.
    pub open spec fn resolved_normal(self, t: int, i: int) -> Vector3 {
        let v = self.faces@[t].vertices[i] as int;
        match self.vertices@[v].normal {
            Some(n) => n,
            None => self.faces@[t].normal.unwrap(),
        }
    }

    /// x component of the Phong normal blend at barycentric weights `w`
    /// on face `t`.
    pub open spec fn phong_blend_x(self, t: int, w: Vector3) -> int {
        w.x * self.resolved_normal(t, 0).x + w.y * self.resolved_normal(t, 1).x + w.z
            * self.resolved_normal(t, 2).x
    }

    /// As above, y component.
    pub open spec fn phong_blend_y(self, t: int, w: Vector3) -> int {
        w.x * self.resolved_normal(t, 0).y + w.y * self.resolved_normal(t, 1).y + w.z
            * self.resolved_normal(t, 2).y
    }

    /// As above, z component.
    pub open spec fn phong_blend_z(self, t: int, w: Vector3) -> int {
        w.x * self.resolved_normal(t, 0).z + w.y * self.resolved_normal(t, 1).z + w.z
            * self.resolved_normal(t, 2).z
    }

    /// The surface normal at a mesh point. Under the `FLAT` and
    /// `USER_SPECIFIED` face modes this is the face's stored normal,
    /// regardless of the barycentric weights. Under `PHONG` it is the
    /// normalized barycentric blend of the vertices' resolved normals;
    /// a blend that cancels exactly is a degeneracy error.
    pub fn evaluate_normal(&self, point: &MeshPoint) -> (r: Result<Vector3, MeshError>)
        requires
            self.wf(),
            (point.face_id as int) < self.faces@.len(),
            valid_barycentric(point.params),
        ensures
            self.face_normal_mode is PHONG ==> {
                let bx = self.phong_blend_x(point.face_id as int, point.params);
                let by = self.phong_blend_y(point.face_id as int, point.params);
                let bz = self.phong_blend_z(point.face_id as int, point.params);
                if bx == 0 && by == 0 && bz == 0 {
                    r == Result::<Vector3, MeshError>::Err(MeshError::Degeneracy)
                } else {
                    r matches Ok(n) && is_normalized_triple(n, bx, by, bz)
                }
            },
            !(self.face_normal_mode is PHONG) ==> r == Result::<Vector3, MeshError>::Ok(
                self.faces@[point.face_id as int].normal.unwrap(),
            ),
    {
        let t = point.face_id;
        proof {
            assert(self.face_wf_at(t as int));
            assert(self.face_normal_wf_at(t as int));
            assert(self.vertex_wf_at(self.faces@[t as int].vertices[0] as int));
            assert(self.vertex_wf_at(self.faces@[t as int].vertices[1] as int));
            assert(self.vertex_wf_at(self.faces@[t as int].vertices[2] as int));
        }
        let face_normal = match &self.faces[t].normal {
            Some(n) => *n,
            None => {
                proof {
                    assert(false);
                }
                Vector3::zero()
            },
        };
        if !matches!(self.face_normal_mode, FaceNormalMode::PHONG) {
            return Ok(face_normal);
        }
        let f = &self.faces[t];
        let n0 = match &self.vertices[f.vertices[0]].normal {
            Some(n) => *n,
            None => face_normal,
        };
        let n1 = match &self.vertices[f.vertices[1]].normal {
            Some(n) => *n,
            None => face_normal,
        };
        let n2 = match &self.vertices[f.vertices[2]].normal {
            Some(n) => *n,
            None => face_normal,
        };
        let bx = Self::blend_component(&point.params, n0.x, n1.x, n2.x);
        let by = Self::blend_component(&point.params, n0.y, n1.y, n2.y);
        let bz = Self::blend_component(&point.params, n0.z, n1.z, n2.z);
        if bx == 0 && by == 0 && bz == 0 {
            return Err(MeshError::Degeneracy);
        }
        let blend = Vector3 { x: bx, y: by, z: bz };
        let n = blend.normalize();
        Ok(n)
    }

    /// One component of a barycentric blend of three unit-bounded
    /// normals; the result is bounded by `3 * SCALE * SCALE`, which is
    /// three million millions.
    fn blend_component(w: &Vector3, a0: i64, a1: i64, a2: i64) -> (r: i64)
        requires
            valid_barycentric(*w),
            -SCALE <= a0 <= SCALE,
            -SCALE <= a1 <= SCALE,
            -SCALE <= a2 <= SCALE,
        ensures
            r == w.x * a0 + w.y * a1 + w.z * a2,
            -3_000_000_000_000 <= r <= 3_000_000_000_000,
    {
        proof {
            assert(-1_000_000_000_000 <= w.x * a0 <= 1_000_000_000_000 && -1_000_000_000_000 <= w.y
                * a1 <= 1_000_000_000_000 && -1_000_000_000_000 <= w.z * a2 <= 1_000_000_000_000)
                by (nonlinear_arith)
                requires
                    0 <= w.x <= SCALE,
                    0 <= w.y <= SCALE,
                    0 <= w.z <= SCALE,
                    -SCALE <= a0 <= SCALE,
                    -SCALE <= a1 <= SCALE,
                    -SCALE <= a2 <= SCALE,
            ;
        }
        w.x * a0 + w.y * a1 + w.z * a2
    }

    /// How many half-edges among the first `n` have no twin.
    pub open spec fn boundary_count_upto(es: Seq<Edge>, n: int) -> int
        decreases n,
    {
        if n <= 0 {
            0
        } else {
            Self::boundary_count_upto(es, n - 1) + if es[n - 1].twin_edge is None {
                1int
            } else {
                0int
            }
        }
    }

    /// Number of boundary (twin-less) half-edges of the mesh; zero on a
    /// closed mesh.
    pub fn boundary_edge_count(&self) -> (r: usize)
        ensures
            r == Self::boundary_count_upto(self.edges@, self.edges@.len() as int),
    {
        let mut count: usize = 0;
        let mut k: usize = 0;
        while k < self.edges.len()
            invariant
                k <= self.edges@.len(),
                count == Self::boundary_count_upto(self.edges@, k as int),
                count <= k,
            decreases self.edges@.len() - k,
        {
            if self.edges[k].twin_edge.is_none() {
                count = count + 1;
            }
            k = k + 1;
        }
        count
    }
}

} // verus!
