//! The 3D preview: meshes, lighting environments, and which pixels shade the mesh.
//!
//! Mesh coordinates and shading parameters are whole numbers here: the meshes with straight
//! edges have no others, and the environments are given in thousandths.

use std::sync::Arc;

use vstd::prelude::*;

use crate::data::MapId;
use crate::pixels::{is_square, square_of, Pixels, TEX_SIZE};
use crate::state::model::{AppModel, AppState};
use crate::state::PreviewMesh;
use crate::text;

verus! {

/// The place of a mesh among the preview's meshes.
pub open spec fn mesh_place(which: PreviewMesh) -> int {
    match which {
        PreviewMesh::Sphere => 0,
        PreviewMesh::Plane => 1,
        PreviewMesh::Cube => 2,
    }
}

/// The place of a mesh among the preview's meshes.
pub fn mesh_index(which: PreviewMesh) -> (r: usize)
    ensures
        r == mesh_place(which),
{
    match which {
        PreviewMesh::Sphere => 0,
        PreviewMesh::Plane => 1,
        PreviewMesh::Cube => 2,
    }
}

// ── Meshes ───────────────────────────────────────────────────────────────

/// A corner of a mesh. The fourth part of the tangent is its handedness.
#[derive(Clone, Copy, Debug, PartialEq, Eq, Structural)]
pub struct Corner {
    pub x: i32,
    pub y: i32,
    pub z: i32,
    pub nx: i32,
    pub ny: i32,
    pub nz: i32,
    pub u: i32,
    pub v: i32,
    pub tx: i32,
    pub ty: i32,
    pub tz: i32,
    pub handedness: i32,
}

/// A mesh: its corners, and three of them for each triangle.
pub struct Mesh {
    pub vertices: Vec<Corner>,
    pub indices: Vec<u32>,
}

/// A face of a mesh: its normal, its tangent, and four corners counter-clockwise.
#[derive(Clone, Copy, Debug, PartialEq, Eq, Structural)]
pub struct Face {
    pub n: Point,
    pub t: Point,
    pub a: Point,
    pub b: Point,
    pub c: Point,
    pub d: Point,
}

/// A point or a direction.
#[derive(Clone, Copy, Debug, PartialEq, Eq, Structural)]
pub struct Point {
    pub x: i32,
    pub y: i32,
    pub z: i32,
}

/// The point of three coordinates.
pub open spec fn pt(x: int, y: int, z: int) -> Point {
    Point { x: x as i32, y: y as i32, z: z as i32 }
}

/// The point of three coordinates.
pub fn point(x: i32, y: i32, z: i32) -> (r: Point)
    ensures
        r == pt(x as int, y as int, z as int),
{
    Point { x, y, z }
}

/// A corner of a face. The handedness is -1: the texture's v grows downwards, so the bitangent
/// is flipped for green-up normal maps to shade bumps as bumps.
pub open spec fn corner(f: Face, p: Point, u: i32, v: i32) -> Corner {
    Corner {
        x: p.x,
        y: p.y,
        z: p.z,
        nx: f.n.x,
        ny: f.n.y,
        nz: f.n.z,
        u,
        v,
        tx: f.t.x,
        ty: f.t.y,
        tz: f.t.z,
        handedness: (-1) as i32,
    }
}

/// The corners of a face, each with its place in the texture.
pub open spec fn face_corners(f: Face) -> Seq<Corner> {
    seq![
        corner(f, f.a, 0, 1),
        corner(f, f.b, 1, 1),
        corner(f, f.c, 1, 0),
        corner(f, f.d, 0, 0),
    ]
}

/// The corners of some faces.
pub open spec fn corners_of(faces: Seq<Face>) -> Seq<Corner>
    decreases faces.len(),
{
    if faces.len() == 0 {
        Seq::empty()
    } else {
        corners_of(faces.drop_last()) + face_corners(faces.last())
    }
}

/// The two triangles of a face whose corners begin at `base`.
pub open spec fn quad(base: u32) -> Seq<u32> {
    seq![
        base,
        (base + 1) as u32,
        (base + 2) as u32,
        base,
        (base + 2) as u32,
        (base + 3) as u32,
    ]
}

/// The triangles of `n` faces.
pub open spec fn quads(n: nat) -> Seq<u32>
    decreases n,
{
    if n == 0 {
        Seq::empty()
    } else {
        quads((n - 1) as nat) + quad((4 * (n - 1)) as u32)
    }
}

/// A corner of a face.
fn make_corner(f: &Face, p: Point, u: i32, v: i32) -> (r: Corner)
    ensures
        r == corner(*f, p, u, v),
{
    Corner {
        x: p.x,
        y: p.y,
        z: p.z,
        nx: f.n.x,
        ny: f.n.y,
        nz: f.n.z,
        u,
        v,
        tx: f.t.x,
        ty: f.t.y,
        tz: f.t.z,
        handedness: -1,
    }
}

/// Adds the corners of a face.
fn push_face(vertices: &mut Vec<Corner>, f: &Face)
    ensures
        final(vertices)@ == old(vertices)@ + face_corners(*f),
{
    vertices.push(make_corner(f, f.a, 0, 1));
    vertices.push(make_corner(f, f.b, 1, 1));
    vertices.push(make_corner(f, f.c, 1, 0));
    vertices.push(make_corner(f, f.d, 0, 0));
    proof {
        assert(vertices@ =~= old(vertices)@ + face_corners(*f));
    }
}

/// The mesh of some faces.
fn faces_mesh(faces: &Vec<Face>) -> (r: Mesh)
    requires
        faces@.len() <= 6,
    ensures
        r.vertices@ == corners_of(faces@),
        r.indices@ == quads(faces@.len()),
{
    let mut vertices: Vec<Corner> = Vec::new();
    let mut indices: Vec<u32> = Vec::new();
    let mut i: usize = 0;
    proof {
        assert(faces@.take(0) =~= Seq::<Face>::empty());
    }
    while i < faces.len()
        invariant
            i <= faces@.len() <= 6,
            vertices@ == corners_of(faces@.take(i as int)),
            indices@ == quads(i as nat),
        decreases faces@.len() - i,
    {
        proof {
            assert(faces@.take(i + 1).drop_last() =~= faces@.take(i as int));
            assert(faces@.take(i + 1).last() == faces@[i as int]);
        }
        let base: u32 = 4 * (i as u32);
        push_face(&mut vertices, &faces[i]);
        indices.push(base);
        indices.push(base + 1);
        indices.push(base + 2);
        indices.push(base);
        indices.push(base + 2);
        indices.push(base + 3);
        proof {
            assert(indices@ =~= quads(i as nat) + quad(base));
        }
        i += 1;
    }
    proof {
        assert(faces@.take(i as int) =~= faces@);
    }
    Mesh { vertices, indices }
}

/// The faces of the cube.
pub open spec fn cube_faces() -> Seq<Face> {
    seq![
        Face {
            n: pt(0, 0, 1),
            t: pt(1, 0, 0),
            a: pt(-1, -1, 1),
            b: pt(1, -1, 1),
            c: pt(1, 1, 1),
            d: pt(-1, 1, 1),
        },
        Face {
            n: pt(0, 0, -1),
            t: pt(-1, 0, 0),
            a: pt(1, -1, -1),
            b: pt(-1, -1, -1),
            c: pt(-1, 1, -1),
            d: pt(1, 1, -1),
        },
        Face {
            n: pt(1, 0, 0),
            t: pt(0, 0, -1),
            a: pt(1, -1, 1),
            b: pt(1, -1, -1),
            c: pt(1, 1, -1),
            d: pt(1, 1, 1),
        },
        Face {
            n: pt(-1, 0, 0),
            t: pt(0, 0, 1),
            a: pt(-1, -1, -1),
            b: pt(-1, -1, 1),
            c: pt(-1, 1, 1),
            d: pt(-1, 1, -1),
        },
        Face {
            n: pt(0, 1, 0),
            t: pt(1, 0, 0),
            a: pt(-1, 1, 1),
            b: pt(1, 1, 1),
            c: pt(1, 1, -1),
            d: pt(-1, 1, -1),
        },
        Face {
            n: pt(0, -1, 0),
            t: pt(1, 0, 0),
            a: pt(-1, -1, -1),
            b: pt(1, -1, -1),
            c: pt(1, -1, 1),
            d: pt(-1, -1, 1),
        },
    ]
}

/// The cube: six faces, each with its own corners.
pub fn cube_mesh() -> (r: Mesh)
    ensures
        r.vertices@ == corners_of(cube_faces()),
        r.indices@ == quads(6),
{
    let mut faces: Vec<Face> = Vec::new();
    faces.push(
        Face {
            n: point(0, 0, 1),
            t: point(1, 0, 0),
            a: point(-1, -1, 1),
            b: point(1, -1, 1),
            c: point(1, 1, 1),
            d: point(-1, 1, 1),
        },
    );
    faces.push(
        Face {
            n: point(0, 0, -1),
            t: point(-1, 0, 0),
            a: point(1, -1, -1),
            b: point(-1, -1, -1),
            c: point(-1, 1, -1),
            d: point(1, 1, -1),
        },
    );
    faces.push(
        Face {
            n: point(1, 0, 0),
            t: point(0, 0, -1),
            a: point(1, -1, 1),
            b: point(1, -1, -1),
            c: point(1, 1, -1),
            d: point(1, 1, 1),
        },
    );
    faces.push(
        Face {
            n: point(-1, 0, 0),
            t: point(0, 0, 1),
            a: point(-1, -1, -1),
            b: point(-1, -1, 1),
            c: point(-1, 1, 1),
            d: point(-1, 1, -1),
        },
    );
    faces.push(
        Face {
            n: point(0, 1, 0),
            t: point(1, 0, 0),
            a: point(-1, 1, 1),
            b: point(1, 1, 1),
            c: point(1, 1, -1),
            d: point(-1, 1, -1),
        },
    );
    faces.push(
        Face {
            n: point(0, -1, 0),
            t: point(1, 0, 0),
            a: point(-1, -1, -1),
            b: point(1, -1, -1),
            c: point(1, -1, 1),
            d: point(-1, -1, 1),
        },
    );
    proof {
        assert(faces@ =~= cube_faces());
    }
    faces_mesh(&faces)
}

/// The sides of the plane: the same corners, with a normal and a tangent for each side.
pub open spec fn plane_faces() -> Seq<Face> {
    seq![
        Face {
            n: pt(0, 0, 1),
            t: pt(1, 0, 0),
            a: pt(-1, -1, 0),
            b: pt(1, -1, 0),
            c: pt(1, 1, 0),
            d: pt(-1, 1, 0),
        },
        Face {
            n: pt(0, 0, -1),
            t: pt(-1, 0, 0),
            a: pt(-1, -1, 0),
            b: pt(1, -1, 0),
            c: pt(1, 1, 0),
            d: pt(-1, 1, 0),
        },
    ]
}

/// The triangles of the plane; those of the back run the other way.
pub open spec fn plane_indices() -> Seq<u32> {
    seq![0, 1, 2, 0, 2, 3, 4, 6, 5, 4, 7, 6]
}

/// The plane, with two sides: a camera behind a sheet of one side would not see it.
pub fn plane_mesh() -> (r: Mesh)
    ensures
        r.vertices@ == corners_of(plane_faces()),
        r.indices@ == plane_indices(),
{
    let front = Face {
        n: point(0, 0, 1),
        t: point(1, 0, 0),
        a: point(-1, -1, 0),
        b: point(1, -1, 0),
        c: point(1, 1, 0),
        d: point(-1, 1, 0),
    };
    let back = Face {
        n: point(0, 0, -1),
        t: point(-1, 0, 0),
        a: point(-1, -1, 0),
        b: point(1, -1, 0),
        c: point(1, 1, 0),
        d: point(-1, 1, 0),
    };
    let mut vertices: Vec<Corner> = Vec::new();
    push_face(&mut vertices, &front);
    push_face(&mut vertices, &back);
    proof {
        let one = seq![front];
        assert(plane_faces().drop_last() =~= one);
        assert(one.drop_last() =~= Seq::<Face>::empty());
        assert(one.last() == front);
        assert(plane_faces().last() == back);
        assert(corners_of(Seq::<Face>::empty()) =~= Seq::<Corner>::empty());
        assert(corners_of(one) =~= face_corners(front));
        assert(vertices@ =~= corners_of(plane_faces()));
    }
    let indices: Vec<u32> = vec![0, 1, 2, 0, 2, 3, 4, 6, 5, 4, 7, 6];
    proof {
        assert(indices@ =~= plane_indices());
    }
    Mesh { vertices, indices }
}

/// Where the corner of ring `r` and segment `s` of the sphere stands.
pub open spec fn ring_corner(segments: nat, r: nat, s: nat) -> nat {
    r * (segments + 1) + s
}

/// The two triangles of a patch of the sphere, wound so that they face outwards.
pub open spec fn patch(segments: nat, r: nat, s: nat) -> Seq<nat> {
    let a = ring_corner(segments, r, s);
    let b = a + segments + 1;
    seq![a, a + 1, b, a + 1, b + 1, b]
}

/// The patches of a ring up to segment `s`.
pub open spec fn ring_patches(segments: nat, r: nat, s: nat) -> Seq<nat>
    decreases s,
{
    if s == 0 {
        Seq::empty()
    } else {
        ring_patches(segments, r, (s - 1) as nat) + patch(segments, r, (s - 1) as nat)
    }
}

/// The patches of the first `r` rings.
pub open spec fn sphere_patches(segments: nat, r: nat) -> Seq<nat>
    decreases r,
{
    if r == 0 {
        Seq::empty()
    } else {
        sphere_patches(segments, (r - 1) as nat) + ring_patches(
            segments,
            (r - 1) as nat,
            segments,
        )
    }
}

/// What a list of indices holds.
pub open spec fn naturals(indices: Seq<u32>) -> Seq<nat> {
    Seq::new(indices.len(), |i: int| indices[i] as nat)
}

/// The triangles of a sphere of `segments` by `rings` patches, ring by ring. The corners stand
/// ring by ring too, with one more than there are segments in each.
pub fn sphere_indices(segments: u32, rings: u32) -> (r: Vec<u32>)
    requires
        (rings + 1) * (segments + 1) <= u32::MAX,
    ensures
        naturals(r@) == sphere_patches(segments as nat, rings as nat),
        forall|i: int| 0 <= i < r@.len() ==> #[trigger] r@[i] < (rings + 1) * (segments + 1),
{
    let mut out: Vec<u32> = Vec::new();
    let n: u32 = segments;
    assert((rings + 1) * (segments + 1) >= segments + 1) by (nonlinear_arith);
    let stride: u32 = segments + 1;
    let mut r: u32 = 0;
    proof {
        assert(naturals(out@) =~= sphere_patches(n as nat, 0));
    }
    while r < rings
        invariant
            r <= rings,
            n == segments,
            stride == segments + 1,
            (rings + 1) * (segments + 1) <= u32::MAX,
            naturals(out@) == sphere_patches(n as nat, r as nat),
            forall|i: int|
                0 <= i < out@.len() ==> #[trigger] out@[i] < (rings + 1) * (segments + 1),
        decreases rings - r,
    {
        let ghost before = naturals(out@);
        let mut s: u32 = 0;
        proof {
            assert(before + ring_patches(n as nat, r as nat, 0) =~= before);
        }
        while s < segments
            invariant
                r < rings,
                s <= segments,
                n == segments,
                stride == segments + 1,
                (rings + 1) * (segments + 1) <= u32::MAX,
                naturals(out@) == before + ring_patches(n as nat, r as nat, s as nat),
                forall|i: int|
                    0 <= i < out@.len() ==> #[trigger] out@[i] < (rings + 1) * (segments + 1),
            decreases segments - s,
        {
            let ghost seen = naturals(out@);
            proof {
                assert(r * (segments + 1) + s + segments + 2 < (rings + 1) * (segments + 1)
                    && r * (segments + 1) <= u32::MAX) by (nonlinear_arith)
                    requires
                        r < rings,
                        s < segments,
                        (rings + 1) * (segments + 1) <= u32::MAX,
                ;
            }
            let a: u32 = r * stride + s;
            let b: u32 = a + stride;
            out.push(a);
            out.push(a + 1);
            out.push(b);
            out.push(a + 1);
            out.push(b + 1);
            out.push(b);
            proof {
                assert(naturals(out@) =~= seen + patch(n as nat, r as nat, s as nat));
                assert(naturals(out@) =~= before + ring_patches(n as nat, r as nat, (s + 1) as nat));
            }
            s += 1;
        }
        r += 1;
    }
    out
}

/// Whether the triangle of three corners faces the way of its shading normal: the right-hand
/// normal of its edges has a positive part along the first corner's normal.
pub open spec fn faces_outward(a: Corner, b: Corner, c: Corner) -> bool {
    let ux = b.x - a.x;
    let uy = b.y - a.y;
    let uz = b.z - a.z;
    let vx = c.x - a.x;
    let vy = c.y - a.y;
    let vz = c.z - a.z;
    let cx = uy * vz - uz * vy;
    let cy = uz * vx - ux * vz;
    let cz = ux * vy - uy * vx;
    cx * a.nx + cy * a.ny + cz * a.nz > 0
}

/// Whether every triangle of a mesh faces the way of its shading normal. A mesh that does not
/// shows its inside.
pub open spec fn winds_outward(vertices: Seq<Corner>, indices: Seq<u32>) -> bool {
    &&& indices.len() % 3 == 0
    &&& forall|k: int|
        #![trigger indices[3 * k]]
        0 <= 3 * k < indices.len() ==> indices[3 * k] < vertices.len() && indices[3 * k + 1]
            < vertices.len() && indices[3 * k + 2] < vertices.len() && faces_outward(
            vertices[indices[3 * k] as int],
            vertices[indices[3 * k + 1] as int],
            vertices[indices[3 * k + 2] as int],
        )
}

/// The corners of the faces `0..n` stand one face after the other.
proof fn lemma_corner_places(faces: Seq<Face>)
    ensures
        corners_of(faces).len() == 4 * faces.len(),
        forall|i: int|
            #![trigger corners_of(faces)[4 * i]]
            0 <= i < faces.len() ==> corners_of(faces)[4 * i] == face_corners(faces[i])[0]
                && corners_of(faces)[4 * i + 1] == face_corners(faces[i])[1]
                && corners_of(faces)[4 * i + 2] == face_corners(faces[i])[2]
                && corners_of(faces)[4 * i + 3] == face_corners(faces[i])[3],
    decreases faces.len(),
{
    if faces.len() > 0 {
        let before = faces.drop_last();
        lemma_corner_places(before);
        assert forall|i: int| 0 <= i < faces.len() implies #[trigger] corners_of(faces)[4 * i]
            == face_corners(faces[i])[0] && corners_of(faces)[4 * i + 1] == face_corners(
            faces[i],
        )[1] && corners_of(faces)[4 * i + 2] == face_corners(faces[i])[2] && corners_of(faces)[4
            * i + 3] == face_corners(faces[i])[3] by {
            if i < before.len() {
                assert(before[i] == faces[i]);
                assert(corners_of(before)[4 * i] == face_corners(faces[i])[0]);
            }
        }
    }
}

/// The triangles of `n` faces stand two for each face.
proof fn lemma_quad_places(n: nat)
    requires
        n <= 6,
    ensures
        quads(n).len() == 6 * n,
        forall|i: int|
            #![trigger quads(n)[6 * i]]
            0 <= i < n ==> quads(n)[6 * i] == 4 * i && quads(n)[6 * i + 1] == 4 * i + 1
                && quads(n)[6 * i + 2] == 4 * i + 2 && quads(n)[6 * i + 3] == 4 * i
                && quads(n)[6 * i + 4] == 4 * i + 2 && quads(n)[6 * i + 5] == 4 * i + 3,
    decreases n,
{
    if n > 0 {
        let m = (n - 1) as nat;
        lemma_quad_places(m);
        assert forall|i: int| 0 <= i < n implies #[trigger] quads(n)[6 * i] == 4 * i && quads(
            n,
        )[6 * i + 1] == 4 * i + 1 && quads(n)[6 * i + 2] == 4 * i + 2 && quads(n)[6 * i + 3] == 4
            * i && quads(n)[6 * i + 4] == 4 * i + 2 && quads(n)[6 * i + 5] == 4 * i + 3 by {
            if i < m {
                assert(quads(m)[6 * i] == 4 * i);
            }
        }
    }
}

/// A product by a number between -2 and 2, as a sum.
proof fn lemma_small_product(x: int, y: int)
    requires
        -2 <= y <= 2,
    ensures
        x * y == if y == 0 {
            0
        } else if y == 1 {
            x
        } else if y == -1 {
            -x
        } else if y == 2 {
            x + x
        } else {
            -x - x
        },
{
    if y == 0 {
        assert(x * y == 0) by (nonlinear_arith)
            requires
                y == 0,
        ;
    } else if y == 1 {
        assert(x * y == x) by (nonlinear_arith)
            requires
                y == 1,
        ;
    } else if y == -1 {
        assert(x * y == -x) by (nonlinear_arith)
            requires
                y == -1,
        ;
    } else if y == 2 {
        assert(x * y == x + x) by (nonlinear_arith)
            requires
                y == 2,
        ;
    } else {
        assert(x * y == -x - x) by (nonlinear_arith)
            requires
                y == -2,
        ;
    }
}

/// The products in the normal of a triangle with corners on the unit cube.
proof fn lemma_triangle(a: Corner, b: Corner, c: Corner)
    requires
        -1 <= a.x <= 1 && -1 <= a.y <= 1 && -1 <= a.z <= 1,
        -1 <= b.x <= 1 && -1 <= b.y <= 1 && -1 <= b.z <= 1,
        -1 <= c.x <= 1 && -1 <= c.y <= 1 && -1 <= c.z <= 1,
        -1 <= a.nx <= 1 && -1 <= a.ny <= 1 && -1 <= a.nz <= 1,
        part(b.y - a.y, c.z - a.z) - part(b.z - a.z, c.y - a.y) == a.nx * 4,
        part(b.z - a.z, c.x - a.x) - part(b.x - a.x, c.z - a.z) == a.ny * 4,
        part(b.x - a.x, c.y - a.y) - part(b.y - a.y, c.x - a.x) == a.nz * 4,
        a.nx != 0 || a.ny != 0 || a.nz != 0,
    ensures
        faces_outward(a, b, c),
{
    lemma_small_product(b.y - a.y, c.z - a.z);
    lemma_small_product(b.z - a.z, c.y - a.y);
    lemma_small_product(b.z - a.z, c.x - a.x);
    lemma_small_product(b.x - a.x, c.z - a.z);
    lemma_small_product(b.x - a.x, c.y - a.y);
    lemma_small_product(b.y - a.y, c.x - a.x);
    lemma_small_product(a.nx * 4, a.nx as int);
    lemma_small_product(a.ny * 4, a.ny as int);
    lemma_small_product(a.nz * 4, a.nz as int);
}

/// A product by a number between -2 and 2, as a sum.
spec fn part(x: int, y: int) -> int {
    if y == 0 {
        0
    } else if y == 1 {
        x
    } else if y == -1 {
        -x
    } else if y == 2 {
        x + x
    } else {
        -x - x
    }
}

/// The cube winds outward: every one of its triangles faces the way of its shading normal.
pub proof fn lemma_cube_winds_outward()
    ensures
        winds_outward(corners_of(cube_faces()), quads(6)),
{
    let vs = corners_of(cube_faces());
    let is = quads(6);
    lemma_corner_places(cube_faces());
    lemma_quad_places(6);
    assert forall|k: int|
        #![trigger is[3 * k]]
        0 <= 3 * k < is.len() implies is[3 * k] < vs.len() && is[3 * k + 1] < vs.len() && is[3 * k
        + 2] < vs.len() && faces_outward(
        vs[is[3 * k] as int],
        vs[is[3 * k + 1] as int],
        vs[is[3 * k + 2] as int],
    ) by {
        let i = k / 2;
        let f = cube_faces()[i];
        assert(is[6 * i] == 4 * i);
        assert(vs[4 * i] == face_corners(f)[0]);
        assert(i == 0 || i == 1 || i == 2 || i == 3 || i == 4 || i == 5);
        if k % 2 == 0 {
            assert(3 * k == 6 * i);
            lemma_triangle(face_corners(f)[0], face_corners(f)[1], face_corners(f)[2]);
        } else {
            assert(3 * k == 6 * i + 3);
            lemma_triangle(face_corners(f)[0], face_corners(f)[2], face_corners(f)[3]);
        }
    }
}

/// The plane winds outward on both of its sides.
pub proof fn lemma_plane_winds_outward()
    ensures
        winds_outward(corners_of(plane_faces()), plane_indices()),
{
    let vs = corners_of(plane_faces());
    let is = plane_indices();
    lemma_corner_places(plane_faces());
    let f = plane_faces()[0];
    let b = plane_faces()[1];
    assert(vs[4 * 0int] == face_corners(f)[0]);
    assert(vs[4 * 1int] == face_corners(b)[0]);
    assert forall|k: int|
        #![trigger is[3 * k]]
        0 <= 3 * k < is.len() implies is[3 * k] < vs.len() && is[3 * k + 1] < vs.len() && is[3 * k
        + 2] < vs.len() && faces_outward(
        vs[is[3 * k] as int],
        vs[is[3 * k + 1] as int],
        vs[is[3 * k + 2] as int],
    ) by {
        assert(k == 0 || k == 1 || k == 2 || k == 3);
        lemma_triangle(face_corners(f)[0], face_corners(f)[1], face_corners(f)[2]);
        lemma_triangle(face_corners(f)[0], face_corners(f)[2], face_corners(f)[3]);
        lemma_triangle(face_corners(b)[0], face_corners(b)[2], face_corners(b)[1]);
        lemma_triangle(face_corners(b)[0], face_corners(b)[3], face_corners(b)[2]);
    }
}

/// Every corner of the meshes with straight edges has the handedness -1.
pub proof fn lemma_handedness(faces: Seq<Face>, i: int)
    requires
        0 <= i < corners_of(faces).len(),
    ensures
        corners_of(faces)[i].handedness == -1,
    decreases faces.len(),
{
    if faces.len() > 0 {
        let before = corners_of(faces.drop_last());
        if i < before.len() {
            lemma_handedness(faces.drop_last(), i);
        }
    }
}

// ── Lighting ─────────────────────────────────────────────────────────────

/// A lighting environment, in thousandths.
#[derive(Clone, Copy, Debug, PartialEq, Eq, Structural)]
pub struct EnvPreset {
    pub key_color: Tone,
    pub key_intensity: u32,
    pub ambient_top: Tone,
    pub ambient_bottom: Tone,
    pub exposure: u32,
}

/// A color of light, in thousandths.
#[derive(Clone, Copy, Debug, PartialEq, Eq, Structural)]
pub struct Tone {
    pub r: u32,
    pub g: u32,
    pub b: u32,
}

impl EnvPreset {
    /// The environment of a name; a name that is not known stands for the soft studio.
    pub open spec fn of(name: Seq<char>) -> EnvPreset {
        if name == "Warehouse"@ {
            EnvPreset {
                key_color: Tone { r: 1000, g: 950, b: 850 },
                key_intensity: 2600,
                ambient_top: Tone { r: 90, g: 90, b: 100 },
                ambient_bottom: Tone { r: 40, g: 40, b: 45 },
                exposure: 1000,
            }
        } else if name == "Outdoor Noon"@ {
            EnvPreset {
                key_color: Tone { r: 1000, g: 980, b: 920 },
                key_intensity: 4600,
                ambient_top: Tone { r: 200, g: 260, b: 340 },
                ambient_bottom: Tone { r: 110, g: 100, b: 80 },
                exposure: 1100,
            }
        } else if name == "Night City"@ {
            EnvPreset {
                key_color: Tone { r: 550, g: 620, b: 950 },
                key_intensity: 1600,
                ambient_top: Tone { r: 40, g: 50, b: 90 },
                ambient_bottom: Tone { r: 30, g: 20, b: 40 },
                exposure: 1350,
            }
        } else {
            EnvPreset {
                key_color: Tone { r: 1000, g: 1000, b: 1000 },
                key_intensity: 3000,
                ambient_top: Tone { r: 100, g: 110, b: 130 },
                ambient_bottom: Tone { r: 30, g: 35, b: 45 },
                exposure: 1000,
            }
        }
    }

    /// The environment of a name.
    pub fn from_hdri(name: &str) -> (r: Self)
        ensures
            r == EnvPreset::of(name@),
    {
        if text::same(name, "Warehouse") {
            EnvPreset {
                key_color: Tone { r: 1000, g: 950, b: 850 },
                key_intensity: 2600,
                ambient_top: Tone { r: 90, g: 90, b: 100 },
                ambient_bottom: Tone { r: 40, g: 40, b: 45 },
                exposure: 1000,
            }
        } else if text::same(name, "Outdoor Noon") {
            EnvPreset {
                key_color: Tone { r: 1000, g: 980, b: 920 },
                key_intensity: 4600,
                ambient_top: Tone { r: 200, g: 260, b: 340 },
                ambient_bottom: Tone { r: 110, g: 100, b: 80 },
                exposure: 1100,
            }
        } else if text::same(name, "Night City") {
            EnvPreset {
                key_color: Tone { r: 550, g: 620, b: 950 },
                key_intensity: 1600,
                ambient_top: Tone { r: 40, g: 50, b: 90 },
                ambient_bottom: Tone { r: 30, g: 20, b: 40 },
                exposure: 1350,
            }
        } else {
            EnvPreset {
                key_color: Tone { r: 1000, g: 1000, b: 1000 },
                key_intensity: 3000,
                ambient_top: Tone { r: 100, g: 110, b: 130 },
                ambient_bottom: Tone { r: 30, g: 35, b: 45 },
                exposure: 1000,
            }
        }
    }
}

// ── Pixels ───────────────────────────────────────────────────────────────

/// The largest master that shades the preview.
pub const PREVIEW_MAX_NATIVE: usize = 4096;

/// The pixels that shade a mesh, and their side.
pub struct Shading {
    pub pixels: Option<Pixels>,
    pub side: usize,
}

impl AppModel {
    /// Whether a map's master shades the preview: it is decoded and not too large.
    pub open spec fn shades_native(self, id: MapId) -> bool {
        self.master_pixels.contains_key(id) && self.master_pixels[id].1 <= PREVIEW_MAX_NATIVE
    }
}

impl AppState {
    /// The pixels of a map that shade the preview: a decoded master that is not too large, else
    /// the working copy. No master is decoded for it.
    pub fn preview_pixels(&mut self, id: MapId) -> (r: Shading)
        ensures
            old(self)@.shades_native(id) ==> final(self)@ == old(self)@ && r.pixels == Some(
                Pixels::Raw(old(self)@.master_pixels[id].0),
            ) && r.side == old(self)@.master_pixels[id].1,
            !old(self)@.shades_native(id) ==> r.side == TEX_SIZE && (
            if old(self)@.map_pixels.contains_key(id) {
                r.pixels == Some(old(self)@.map_pixels[id]) && final(self)@ == old(self)@
            } else if id == MapId::Albedo {
                r.pixels == Some(Pixels::Procedural { seed: old(self)@.seed }) && final(self)@ == (
                AppModel {
                    map_pixels: old(self)@.map_pixels.insert(
                        MapId::Albedo,
                        Pixels::Procedural { seed: old(self)@.seed },
                    ),
                    ..old(self)@
                })
            } else {
                r.pixels is None && final(self)@ == old(self)@
            }),
    {
        if let Some(m) = self.master_pixels.get(id) {
            if m.1 <= PREVIEW_MAX_NATIVE {
                return Shading { pixels: Some(Pixels::Raw(Arc::clone(&m.0))), side: m.1 };
            }
        }
        Shading { pixels: self.map_rgba(id), side: TEX_SIZE }
    }

    /// The pixels of a map other than the albedo that shade the preview: before the whole set
    /// is there, none.
    pub fn preview_map(&mut self, id: MapId, generated: bool) -> (r: Shading)
        requires
            id != MapId::Albedo,
        ensures
            final(self)@ == old(self)@,
            !generated ==> r.pixels is None && r.side == TEX_SIZE,
            generated && old(self)@.shades_native(id) ==> r.pixels == Some(
                Pixels::Raw(old(self)@.master_pixels[id].0),
            ) && r.side == old(self)@.master_pixels[id].1,
            generated && !old(self)@.shades_native(id) ==> r.side == TEX_SIZE && r.pixels == (
            if old(self)@.map_pixels.contains_key(id) {
                Some(old(self)@.map_pixels[id])
            } else {
                None
            }),
    {
        if generated {
            self.preview_pixels(id)
        } else {
            Shading { pixels: None, side: TEX_SIZE }
        }
    }
}

/// What to do about the texture of a shading slot.
#[derive(Clone, Copy, Debug, PartialEq, Eq, Structural)]
pub enum SlotStep {
    /// Show plain white: there are no pixels, or not of that size.
    White,
    /// Keep the texture that is there.
    Keep,
    /// Upload the pixels.
    Upload,
}

/// What to do about the texture of a shading slot: `len` is how many bytes its pixels have,
/// and `cached` whether the texture that is there shows the same buffer at the same side.
pub fn slot_step(len: Option<usize>, side: usize, cached: bool) -> (r: SlotStep)
    ensures
        r == (if len is None || !square_of(len->0 as nat, side as nat) {
            SlotStep::White
        } else if cached {
            SlotStep::Keep
        } else {
            SlotStep::Upload
        }),
{
    match len {
        Some(n) => {
            if !is_square(n, side) {
                SlotStep::White
            } else if cached {
                SlotStep::Keep
            } else {
                SlotStep::Upload
            }
        },
        None => SlotStep::White,
    }
}

} // verus!
