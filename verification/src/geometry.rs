//! The geometry of the box: what follows from its six face coordinates.
//!
//! A box is given by the coordinate of each face along that face's axis, in
//! the order `-X, -Y, -Z, +X, +Y, +Z`. Everything here is a pure function of
//! such an array.

use vstd::prelude::*;
use crate::math::{direction_dot, Direction, IntVec, Rotation, Vec3, UNIT};

verus! {

/// The index of a face:
///
/// ```text
/// 0 = -X
/// 1 = -Y
/// 2 = -Z
/// 3 = +X
/// 4 = +Y
/// 5 = +Z
/// ```
pub type FaceIndex = usize;

/// The face on the low side of the X axis.
pub const NEG_X: FaceIndex = 0;

/// The face on the low side of the Y axis.
pub const NEG_Y: FaceIndex = 1;

/// The face on the low side of the Z axis.
pub const NEG_Z: FaceIndex = 2;

/// The face on the high side of the X axis.
pub const POS_X: FaceIndex = 3;

/// The face on the high side of the Y axis.
pub const POS_Y: FaceIndex = 4;

/// The face on the high side of the Z axis.
pub const POS_Z: FaceIndex = 5;

/// The index of a corner, one bit per axis: bit 0 is set where the corner
/// lies on the `+X` face, bit 1 for `+Y`, bit 2 for `+Z`.
pub type CornerIndex = usize;

/// The closed loop of edges around one face: its four corners in winding
/// order, and the first corner once more.
#[derive(Clone, Copy, Debug, PartialEq, Eq)]
pub struct Polyline {
    pub vertices: [Vec3; 5],
}

/// An axis-aligned box by its least and greatest corner.
#[derive(Clone, Copy, Debug, PartialEq, Eq, Structural)]
pub struct Aabb {
    pub mins: Vec3,
    pub maxs: Vec3,
}

/// The axis a face is perpendicular to: 0 for X, 1 for Y, 2 for Z.
pub open spec fn face_axis(face: int) -> int {
    face % 3
}

/// The face on the other side of the box.
pub open spec fn opposite_face(face: int) -> int {
    (face + 3) % 6
}

/// -1 for the three low faces, +1 for the three high ones.
pub open spec fn face_sign_of(face: int) -> int {
    if face < 3 {
        -1
    } else {
        1
    }
}

/// The lesser of two coordinates.
pub open spec fn lower(a: i32, b: i32) -> i32 {
    if a <= b {
        a
    } else {
        b
    }
}

/// The greater of two coordinates.
pub open spec fn upper(a: i32, b: i32) -> i32 {
    if a <= b {
        b
    } else {
        a
    }
}

/// Along each axis the low face is not above the high face.
pub open spec fn faces_sorted(faces: Seq<i32>) -> bool {
    &&& faces.len() == 6
    &&& faces[0] <= faces[3]
    &&& faces[1] <= faces[4]
    &&& faces[2] <= faces[5]
}

/// Along each axis the low face is strictly below the high face: the box has
/// a volume.
pub open spec fn faces_strictly_sorted(faces: Seq<i32>) -> bool {
    &&& faces.len() == 6
    &&& faces[0] < faces[3]
    &&& faces[1] < faces[4]
    &&& faces[2] < faces[5]
}

/// The faces with the two coordinates of each axis put in order.
pub open spec fn sorted_faces_of(faces: Seq<i32>) -> Seq<i32> {
    Seq::new(
        6,
        |i: int|
            if i < 3 {
                lower(faces[i], faces[i + 3])
            } else {
                upper(faces[i - 3], faces[i])
            },
    )
}

/// Whether a corner lies on the high face of an axis.
pub open spec fn corner_is_high(corner: int, axis: int) -> bool {
    if axis == 0 {
        corner % 2 == 1
    } else if axis == 1 {
        (corner / 2) % 2 == 1
    } else {
        (corner / 4) % 2 == 1
    }
}

/// The face that gives a corner its coordinate along an axis.
pub open spec fn corner_face(corner: int, axis: int) -> int {
    if corner_is_high(corner, axis) {
        axis + 3
    } else {
        axis
    }
}

/// The corner with a given index.
pub open spec fn corner_of(faces: Seq<i32>, corner: int) -> Vec3 {
    Vec3 {
        x: faces[corner_face(corner, 0)],
        y: faces[corner_face(corner, 1)],
        z: faces[corner_face(corner, 2)],
    }
}

/// The four corners of a face in winding order. The table is fixed: it does
/// not depend on where the faces are.
pub open spec fn face_quad(face: int) -> Seq<int> {
    if face == 0 {
        seq![0, 2, 6, 4]
    } else if face == 1 {
        seq![0, 4, 5, 1]
    } else if face == 2 {
        seq![0, 1, 3, 2]
    } else if face == 3 {
        seq![1, 5, 7, 3]
    } else if face == 4 {
        seq![2, 3, 7, 6]
    } else {
        seq![4, 6, 7, 5]
    }
}

/// The edge loop of a face: five points, the last one the first again.
pub open spec fn edge_loop_of(faces: Seq<i32>, face: int) -> Seq<Vec3> {
    Seq::new(5, |i: int| corner_of(faces, face_quad(face)[i % 4]))
}

/// The centroid of the four corners of a face, each coordinate rounded down
/// to the grid.
pub open spec fn face_center_of(faces: Seq<i32>, face: int) -> Vec3 {
    let q = face_quad(face);
    let a = corner_of(faces, q[0]);
    let b = corner_of(faces, q[1]);
    let c = corner_of(faces, q[2]);
    let d = corner_of(faces, q[3]);
    Vec3 {
        x: ((a.x + b.x + c.x + d.x) / 4) as i32,
        y: ((a.y + b.y + c.y + d.y) / 4) as i32,
        z: ((a.z + b.z + c.z + d.z) / 4) as i32,
    }
}

/// The length of the box along an axis.
pub open spec fn extent_of(faces: Seq<i32>, axis: int) -> int {
    upper(faces[axis], faces[axis + 3]) - lower(faces[axis], faces[axis + 3])
}

/// The bounding box of the faces.
pub open spec fn aabb_of(faces: Seq<i32>) -> Aabb {
    let s = sorted_faces_of(faces);
    Aabb { mins: Vec3 { x: s[0], y: s[1], z: s[2] }, maxs: Vec3 { x: s[3], y: s[4], z: s[5] } }
}

/// `m` is the middle one of `a`, `b` and `c`: it is one of them, and at least
/// two of them are not above it and at least two not below it.
pub open spec fn is_median(m: int, a: int, b: int, c: int) -> bool {
    &&& m == a || m == b || m == c
    &&& (a <= m && b <= m) || (a <= m && c <= m) || (b <= m && c <= m)
    &&& (a >= m && b >= m) || (a >= m && c >= m) || (b >= m && c >= m)
}

/// The middle one of three values.
pub open spec fn median_of(a: int, b: int, c: int) -> int {
    if a <= b {
        if b <= c {
            b
        } else if a <= c {
            c
        } else {
            a
        }
    } else {
        if a <= c {
            a
        } else if b <= c {
            c
        } else {
            b
        }
    }
}

/// The sign that turns a drag outward along a face's normal into a change of
/// the face's coordinate: -1 for the low faces, +1 for the high ones.
pub fn face_sign(face: FaceIndex) -> (sign: i32)
    ensures
        sign == face_sign_of(face as int),
{
    if face < 3 {
        -1
    } else {
        1
    }
}

/// Puts the two coordinates of each axis in order.
pub fn sorted_faces(faces: [i32; 6]) -> (sorted: [i32; 6])
    ensures
        sorted@ == sorted_faces_of(faces@),
        faces_sorted(sorted@),
{
    let x1: i32 = faces[0];
    let y1: i32 = faces[1];
    let z1: i32 = faces[2];
    let x2: i32 = faces[3];
    let y2: i32 = faces[4];
    let z2: i32 = faces[5];
    let sorted = [
        lesser(x1, x2),
        lesser(y1, y2),
        lesser(z1, z2),
        greater(x1, x2),
        greater(y1, y2),
        greater(z1, z2),
    ];
    assert(sorted@ =~= sorted_faces_of(faces@));
    sorted
}

fn lesser(a: i32, b: i32) -> (r: i32)
    ensures
        r == lower(a, b),
{
    if a <= b {
        a
    } else {
        b
    }
}

fn greater(a: i32, b: i32) -> (r: i32)
    ensures
        r == upper(a, b),
{
    if a <= b {
        b
    } else {
        a
    }
}

/// The bounding box of the faces, whatever their order.
pub fn aabb_from_faces(faces: [i32; 6]) -> (aabb: Aabb)
    ensures
        aabb == aabb_of(faces@),
        aabb.mins.x <= aabb.maxs.x,
        aabb.mins.y <= aabb.maxs.y,
        aabb.mins.z <= aabb.maxs.z,
{
    let s = sorted_faces(faces);
    Aabb { mins: Vec3 { x: s[0], y: s[1], z: s[2] }, maxs: Vec3 { x: s[3], y: s[4], z: s[5] } }
}

/// The point halfway between two coordinates, rounded down.
pub fn midpoint(a: i32, b: i32) -> (m: i32)
    ensures
        m == (a + b) / 2,
{
    let s: i64 = a as i64 + b as i64;
    let h: i64 = if s >= 0 {
        s / 2
    } else {
        -((1 - s) / 2)
    };
    h as i32
}

impl Aabb {
    /// The centre of the box, each coordinate rounded down to the grid.
    pub fn center(&self) -> (c: Vec3)
        ensures
            c.x == (self.mins.x + self.maxs.x) / 2,
            c.y == (self.mins.y + self.maxs.y) / 2,
            c.z == (self.mins.z + self.maxs.z) / 2,
    {
        Vec3 {
            x: midpoint(self.mins.x, self.maxs.x),
            y: midpoint(self.mins.y, self.maxs.y),
            z: midpoint(self.mins.z, self.maxs.z),
        }
    }
}

/// The eight corners, by [`CornerIndex`]. With unsorted faces these are
/// still eight points: the corners of a box turned inside out along the axes
/// that are out of order.
pub fn corner_vertices(faces: [i32; 6]) -> (corners: [Vec3; 8])
    ensures
        forall|k: int| 0 <= k < 8 ==> #[trigger] corners[k] == corner_of(faces@, k),
{
    let x1: i32 = faces[0];
    let y1: i32 = faces[1];
    let z1: i32 = faces[2];
    let x2: i32 = faces[3];
    let y2: i32 = faces[4];
    let z2: i32 = faces[5];
    [
        Vec3 { x: x1, y: y1, z: z1 },
        Vec3 { x: x2, y: y1, z: z1 },
        Vec3 { x: x1, y: y2, z: z1 },
        Vec3 { x: x2, y: y2, z: z1 },
        Vec3 { x: x1, y: y1, z: z2 },
        Vec3 { x: x2, y: y1, z: z2 },
        Vec3 { x: x1, y: y2, z: z2 },
        Vec3 { x: x2, y: y2, z: z2 },
    ]
}

/// The corners of a face in winding order.
pub fn face_corners(face: FaceIndex) -> (quad: [CornerIndex; 4])
    requires
        face < 6,
    ensures
        quad@.len() == 4,
        forall|i: int| 0 <= i < 4 ==> #[trigger] quad[i] == face_quad(face as int)[i],
        forall|i: int| 0 <= i < 4 ==> #[trigger] quad[i] < 8,
{
    if face == 0 {
        [0, 2, 6, 4]
    } else if face == 1 {
        [0, 4, 5, 1]
    } else if face == 2 {
        [0, 1, 3, 2]
    } else if face == 3 {
        [1, 5, 7, 3]
    } else if face == 4 {
        [2, 3, 7, 6]
    } else {
        [4, 6, 7, 5]
    }
}

/// The edge loop of one face.
pub fn face_polyline(faces: [i32; 6], face: FaceIndex) -> (line: Polyline)
    requires
        face < 6,
    ensures
        line.vertices@ == edge_loop_of(faces@, face as int),
{
    let verts = corner_vertices(faces);
    let quad = face_corners(face);
    let line = Polyline {
        vertices: [verts[quad[0]], verts[quad[1]], verts[quad[2]], verts[quad[3]], verts[quad[0]]],
    };
    assert(line.vertices@ =~= edge_loop_of(faces@, face as int));
    line
}

/// The edge loop of each face, by [`FaceIndex`].
pub fn face_polylines(faces: [i32; 6]) -> (lines: [Polyline; 6])
    ensures
        forall|face: int|
            0 <= face < 6 ==> (#[trigger] lines[face]).vertices@ == edge_loop_of(faces@, face),
{
    [
        face_polyline(faces, 0),
        face_polyline(faces, 1),
        face_polyline(faces, 2),
        face_polyline(faces, 3),
        face_polyline(faces, 4),
        face_polyline(faces, 5),
    ]
}

/// The centre of one face: the centroid of its four corners, rounded down to
/// the grid.
pub fn face_center(faces: [i32; 6], face: FaceIndex) -> (center: Vec3)
    requires
        face < 6,
    ensures
        center == face_center_of(faces@, face as int),
{
    let mx = midpoint(faces[0], faces[3]);
    let my = midpoint(faces[1], faces[4]);
    let mz = midpoint(faces[2], faces[5]);
    let own: i32 = faces[face];
    if face % 3 == 0 {
        Vec3 { x: own, y: my, z: mz }
    } else if face % 3 == 1 {
        Vec3 { x: mx, y: own, z: mz }
    } else {
        Vec3 { x: mx, y: my, z: own }
    }
}

/// The centre of each face, by [`FaceIndex`].
pub fn face_centers(faces: [i32; 6]) -> (centers: [Vec3; 6])
    ensures
        forall|face: int|
            0 <= face < 6 ==> #[trigger] centers[face] == face_center_of(faces@, face),
{
    [
        face_center(faces, 0),
        face_center(faces, 1),
        face_center(faces, 2),
        face_center(faces, 3),
        face_center(faces, 4),
        face_center(faces, 5),
    ]
}

/// The length of the box along each axis.
pub fn box_extents(faces: [i32; 6]) -> (extents: [u64; 3])
    ensures
        forall|axis: int| 0 <= axis < 3 ==> #[trigger] extents[axis] == extent_of(faces@, axis),
        forall|axis: int| 0 <= axis < 3 ==> #[trigger] extents[axis] <= u32::MAX,
{
    let s = sorted_faces(faces);
    [
        (s[3] as i64 - s[0] as i64) as u64,
        (s[4] as i64 - s[1] as i64) as u64,
        (s[5] as i64 - s[2] as i64) as u64,
    ]
}

/// The median of three values.
pub fn median3(extents: [u64; 3]) -> (m: u64)
    ensures
        m == median_of(extents[0] as int, extents[1] as int, extents[2] as int),
        is_median(m as int, extents[0] as int, extents[1] as int, extents[2] as int),
{
    let a: u64 = extents[0];
    let b: u64 = extents[1];
    let c: u64 = extents[2];
    if a <= b {
        if b <= c {
            b
        } else if a <= c {
            c
        } else {
            a
        }
    } else {
        if a <= c {
            a
        } else if b <= c {
            c
        } else {
            b
        }
    }
}

/// How far a direction, given in the box's own frame, points along the
/// outward normal of a face: its scalar product with that normal.
pub open spec fn face_alignment(face: int, model_normal: IntVec) -> int {
    let along = if face_axis(face) == 0 {
        model_normal.x
    } else if face_axis(face) == 1 {
        model_normal.y
    } else {
        model_normal.z
    };
    if face < 3 {
        -along
    } else {
        along
    }
}

/// `face` is the face whose outward normal lies closest to a direction: no
/// face is better aligned with it, and every face before it is worse.
pub open spec fn is_best_face(face: int, model_normal: IntVec) -> bool {
    &&& 0 <= face < 6
    &&& forall|j: int|
        0 <= j < 6 ==> face_alignment(j, model_normal) <= face_alignment(face, model_normal)
    &&& forall|j: int|
        0 <= j < face ==> face_alignment(j, model_normal) < face_alignment(face, model_normal)
}

/// The face whose outward normal lies closest to a direction; among equals,
/// the first.
pub open spec fn best_face_of(model_normal: IntVec) -> int {
    choose|face: int| is_best_face(face, model_normal)
}

/// The outward normal of a face in the box's own frame.
pub open spec fn local_normal_of(face: int) -> Direction {
    let len: i16 = if face < 3 {
        (-UNIT) as i16
    } else {
        UNIT
    };
    if face_axis(face) == 0 {
        Direction { x: len, y: 0, z: 0 }
    } else if face_axis(face) == 1 {
        Direction { x: 0, y: len, z: 0 }
    } else {
        Direction { x: 0, y: 0, z: len }
    }
}

/// A component of a direction turned round. The one value without a
/// negative in sixteen bits goes to the greatest value.
pub open spec fn negated(c: i16) -> i16 {
    if c == i16::MIN {
        i16::MAX
    } else {
        (-c) as i16
    }
}

/// The outward normal of a face in the world: the box's axis for a high
/// face, the axis turned round for a low face.
pub open spec fn world_normal_of(rotation: Rotation, face: int) -> Direction {
    let axis = if face_axis(face) == 0 {
        rotation.x_axis
    } else if face_axis(face) == 1 {
        rotation.y_axis
    } else {
        rotation.z_axis
    };
    if face < 3 {
        Direction { x: negated(axis.x), y: negated(axis.y), z: negated(axis.z) }
    } else {
        axis
    }
}

/// The alignment of a direction with a face is its scalar product with the
/// face's outward normal, which is `UNIT` long.
pub proof fn lemma_alignment_is_product_with_normal(face: int, model_normal: IntVec)
    requires
        0 <= face < 6,
    ensures
        local_normal_of(face)@.dot(model_normal) == UNIT * face_alignment(face, model_normal),
{
    let n = local_normal_of(face)@;
    let m = model_normal;
    assert(n.x * m.x + n.y * m.y + n.z * m.z == UNIT * face_alignment(face, m))
        by (nonlinear_arith)
        requires
            UNIT == 16384,
            (n.x == 0 && n.y == 0 && (n.z == 16384 && face_alignment(face, m) == m.z || n.z
                == -16384 && face_alignment(face, m) == -m.z)) || (n.x == 0 && n.z == 0 && (n.y
                == 16384 && face_alignment(face, m) == m.y || n.y == -16384 && face_alignment(
                face,
                m,
            ) == -m.y)) || (n.y == 0 && n.z == 0 && (n.x == 16384 && face_alignment(face, m)
                == m.x || n.x == -16384 && face_alignment(face, m) == -m.x)),
    ;
}

/// Every direction has a best face.
pub proof fn lemma_best_face_exists(model_normal: IntVec)
    ensures
        is_best_face(best_face_of(model_normal), model_normal),
        0 <= best_face_of(model_normal) < 6,
{
    let a0 = face_alignment(0, model_normal);
    let a1 = face_alignment(1, model_normal);
    let a2 = face_alignment(2, model_normal);
    let a3 = face_alignment(3, model_normal);
    let a4 = face_alignment(4, model_normal);
    let a5 = face_alignment(5, model_normal);
    if a0 >= a1 && a0 >= a2 && a0 >= a3 && a0 >= a4 && a0 >= a5 {
        assert(is_best_face(0, model_normal));
    } else if a1 >= a2 && a1 >= a3 && a1 >= a4 && a1 >= a5 {
        assert(is_best_face(1, model_normal));
    } else if a2 >= a3 && a2 >= a4 && a2 >= a5 {
        assert(is_best_face(2, model_normal));
    } else if a3 >= a4 && a3 >= a5 {
        assert(is_best_face(3, model_normal));
    } else if a4 >= a5 {
        assert(is_best_face(4, model_normal));
    } else {
        assert(is_best_face(5, model_normal));
    }
}

/// Which face a direction points at does not depend on how long the
/// direction is.
pub proof fn lemma_best_face_ignores_length(model_normal: IntVec, k: int)
    requires
        k > 0,
    ensures
        best_face_of(model_normal.times(k)) == best_face_of(model_normal),
{
    let face = best_face_of(model_normal);
    let stretched = model_normal.times(k);
    lemma_best_face_exists(model_normal);
    assert forall|j: int| 0 <= j < 6 implies face_alignment(j, stretched) == k * face_alignment(
        j,
        model_normal,
    ) by {
        assert(-(model_normal.x * k) == k * (-model_normal.x) && -(model_normal.y * k) == k * (
        -model_normal.y) && -(model_normal.z * k) == k * (-model_normal.z) && model_normal.x * k
            == k * model_normal.x && model_normal.y * k == k * model_normal.y && model_normal.z
            * k == k * model_normal.z) by (nonlinear_arith);
    }
    assert forall|j: int| 0 <= j < 6 implies face_alignment(j, stretched) <= face_alignment(
        face,
        stretched,
    ) by {
        lemma_stretch_keeps_order(
            face_alignment(j, model_normal),
            face_alignment(face, model_normal),
            k,
        );
    }
    assert forall|j: int| 0 <= j < face implies face_alignment(j, stretched) < face_alignment(
        face,
        stretched,
    ) by {
        lemma_stretch_keeps_order(
            face_alignment(j, model_normal),
            face_alignment(face, model_normal),
            k,
        );
    }
    lemma_best_face_unique(face, stretched);
}

proof fn lemma_stretch_keeps_order(a: int, b: int, k: int)
    by (nonlinear_arith)
    requires
        k > 0,
    ensures
        a <= b ==> k * a <= k * b,
        a < b ==> k * a < k * b,
{
}

/// There is one best face and only one.
pub proof fn lemma_best_face_unique(face: int, model_normal: IntVec)
    requires
        is_best_face(face, model_normal),
    ensures
        best_face_of(model_normal) == face,
{
    let other = best_face_of(model_normal);
    assert(is_best_face(other, model_normal));
    if other < face {
        assert(face_alignment(other, model_normal) < face_alignment(face, model_normal));
        assert(face_alignment(face, model_normal) <= face_alignment(other, model_normal));
    } else if face < other {
        assert(face_alignment(face, model_normal) < face_alignment(other, model_normal));
        assert(face_alignment(other, model_normal) <= face_alignment(face, model_normal));
    }
}

/// The face that three wide components point at.
fn best_face(x: i64, y: i64, z: i64) -> (face: FaceIndex)
    requires
        i64::MIN < x,
        i64::MIN < y,
        i64::MIN < z,
    ensures
        is_best_face(face as int, IntVec { x: x as int, y: y as int, z: z as int }),
        face as int == best_face_of(IntVec { x: x as int, y: y as int, z: z as int }),
{
    let ghost n = IntVec { x: x as int, y: y as int, z: z as int };
    let prods: [i64; 6] = [-x, -y, -z, x, y, z];
    assert(forall|j: int| 0 <= j < 6 ==> prods[j] == face_alignment(j, n));
    let mut max_prod_face: usize = 0;
    let mut i: usize = 1;
    while i < 6
        invariant
            1 <= i <= 6,
            max_prod_face < i,
            forall|j: int| 0 <= j < 6 ==> prods[j] == face_alignment(j, n),
            forall|j: int| 0 <= j < i ==> prods[j] <= prods[max_prod_face as int],
            forall|j: int| 0 <= j < max_prod_face ==> prods[j] < prods[max_prod_face as int],
        decreases 6 - i,
    {
        if prods[i] > prods[max_prod_face] {
            max_prod_face = i;
        }
        i += 1;
    }
    proof {
        lemma_best_face_unique(max_prod_face as int, n);
    }
    max_prod_face
}

/// The face whose outward normal lies closest to a direction given in the
/// box's own frame: the one whose normal has the greatest scalar product
/// with it, and among equals the first.
pub fn face_index_from_model_normal(model_normal: Direction) -> (face: FaceIndex)
    ensures
        is_best_face(face as int, model_normal@),
        face as int == best_face_of(model_normal@),
{
    best_face(model_normal.x as i64, model_normal.y as i64, model_normal.z as i64)
}

/// The face whose outward normal lies closest to a direction given in the
/// world, for a box turned by `rotation`.
pub fn face_index_from_world_normal(world_normal: Direction, rotation: &Rotation) -> (face:
    FaceIndex)
    ensures
        is_best_face(face as int, rotation.to_model(world_normal@)),
        face as int == best_face_of(rotation.to_model(world_normal@)),
{
    let x = direction_dot(rotation.x_axis, world_normal);
    let y = direction_dot(rotation.y_axis, world_normal);
    let z = direction_dot(rotation.z_axis, world_normal);
    best_face(x, y, z)
}

/// The outward normal of a face in the box's own frame.
pub fn face_normal(face: FaceIndex) -> (normal: Direction)
    requires
        face < 6,
    ensures
        normal == local_normal_of(face as int),
{
    let len: i16 = if face < 3 {
        -UNIT
    } else {
        UNIT
    };
    if face % 3 == 0 {
        Direction { x: len, y: 0, z: 0 }
    } else if face % 3 == 1 {
        Direction { x: 0, y: len, z: 0 }
    } else {
        Direction { x: 0, y: 0, z: len }
    }
}

fn negate(c: i16) -> (r: i16)
    ensures
        r == negated(c),
{
    if c == i16::MIN {
        i16::MAX
    } else {
        -c
    }
}

/// The outward normal of a face in the world, for a box turned by
/// `rotation`.
pub fn world_face_normal(rotation: &Rotation, face: FaceIndex) -> (normal: Direction)
    requires
        face < 6,
    ensures
        normal == world_normal_of(*rotation, face as int),
{
    let axis = if face % 3 == 0 {
        rotation.x_axis
    } else if face % 3 == 1 {
        rotation.y_axis
    } else {
        rotation.z_axis
    };
    if face < 3 {
        Direction { x: negate(axis.x), y: negate(axis.y), z: negate(axis.z) }
    } else {
        axis
    }
}

/// The vertex of a bounding box that lies where corner `corner` lies: on the
/// high side of an axis where the corner's bit for it is set.
pub open spec fn box_vertex(aabb: Aabb, corner: int) -> Vec3 {
    Vec3 {
        x: if corner_is_high(corner, 0) {
            aabb.maxs.x
        } else {
            aabb.mins.x
        },
        y: if corner_is_high(corner, 1) {
            aabb.maxs.y
        } else {
            aabb.mins.y
        },
        z: if corner_is_high(corner, 2) {
            aabb.maxs.z
        } else {
            aabb.mins.z
        },
    }
}

/// Two points differ along exactly one axis.
pub open spec fn differ_along_one_axis(a: Vec3, b: Vec3) -> bool {
    ||| a.x != b.x && a.y == b.y && a.z == b.z
    ||| a.x == b.x && a.y != b.y && a.z == b.z
    ||| a.x == b.x && a.y == b.y && a.z != b.z
}

/// Sorting is idempotent: sorting sorted faces changes nothing.
pub proof fn lemma_sorted_faces_idempotent(faces: [i32; 6])
    ensures
        sorted_faces_of(sorted_faces_of(faces@)) == sorted_faces_of(faces@),
        faces_sorted(sorted_faces_of(faces@)),
{
    assert(sorted_faces_of(sorted_faces_of(faces@)) =~= sorted_faces_of(faces@));
}

/// Sorted faces are a fixed point of sorting.
pub proof fn lemma_sorted_faces_fixed(faces: [i32; 6])
    requires
        faces_sorted(faces@),
    ensures
        sorted_faces_of(faces@) == faces@,
{
    assert(sorted_faces_of(faces@) =~= faces@);
}

/// The least corner of the bounding box is nowhere above its greatest
/// corner, for sorted faces and for unsorted ones.
pub proof fn lemma_bounding_box_ordered(faces: [i32; 6])
    ensures
        aabb_of(faces@).mins.x <= aabb_of(faces@).maxs.x,
        aabb_of(faces@).mins.y <= aabb_of(faces@).maxs.y,
        aabb_of(faces@).mins.z <= aabb_of(faces@).maxs.z,
{
}

/// The corners of sorted faces are the eight vertices of the bounding box,
/// each at its own index.
pub proof fn lemma_corners_are_box_vertices(faces: [i32; 6])
    requires
        faces_sorted(faces@),
    ensures
        forall|k: int|
            0 <= k < 8 ==> #[trigger] corner_of(faces@, k) == box_vertex(aabb_of(faces@), k),
{
}

/// The eight corners of a box with a volume are eight different points.
pub proof fn lemma_corners_distinct(faces: [i32; 6])
    requires
        faces_strictly_sorted(faces@),
    ensures
        forall|j: int, k: int|
            0 <= j < 8 && 0 <= k < 8 && j != k ==> #[trigger] corner_of(faces@, j)
                != #[trigger] corner_of(faces@, k),
{
}

/// Along the edge loop of any face of a box with a volume, each point
/// differs from the next along exactly one axis.
pub proof fn lemma_edge_loop_steps_along_one_axis(faces: [i32; 6])
    requires
        faces_strictly_sorted(faces@),
    ensures
        forall|face: int, i: int|
            0 <= face < 6 && 0 <= i < 4 ==> differ_along_one_axis(
                #[trigger] edge_loop_of(faces@, face)[i],
                edge_loop_of(faces@, face)[i + 1],
            ),
{
}

/// The value that `median_of` picks is the middle one.
pub proof fn lemma_median_is_middle(a: int, b: int, c: int)
    ensures
        is_median(median_of(a, b, c), a, b, c),
        forall|m: int| is_median(m, a, b, c) ==> m == median_of(a, b, c),
{
}

} // verus!
