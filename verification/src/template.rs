//! The template of a cube: the corners of its twelve triangles, in a fixed
//! order, and what makes this list of corners a cube.

use vstd::prelude::*;
use crate::model::Point;

verus! {


/// The number of vertices of one cube: six faces of two triangles each.
pub const CUBE_VERTICES: usize = 36;

/// The number of triangles of one cube.
pub const CUBE_TRIANGLES: usize = 12;

/// Where the faces of a cube lie, seen from its centre: half a cell towards
/// the smaller coordinates, and half a cell towards the larger ones.
pub const LOW: i64 = -1;

pub const HIGH: i64 = 1;

/// The corners of the cube's twelve triangles, as displacements from the
/// centre of a cell, three entries to a triangle. The order is fixed: consumers
/// of a mesh may rely on it.
pub open spec fn cube_offsets() -> Seq<Point> {
    seq![
        Point { x: LOW, y: LOW, z: LOW },
        Point { x: LOW, y: LOW, z: HIGH },
        Point { x: LOW, y: HIGH, z: HIGH },
        Point { x: HIGH, y: HIGH, z: LOW },
        Point { x: LOW, y: LOW, z: LOW },
        Point { x: LOW, y: HIGH, z: LOW },
        Point { x: HIGH, y: LOW, z: HIGH },
        Point { x: LOW, y: LOW, z: LOW },
        Point { x: HIGH, y: LOW, z: LOW },
        Point { x: HIGH, y: HIGH, z: LOW },
        Point { x: HIGH, y: LOW, z: LOW },
        Point { x: LOW, y: LOW, z: LOW },
        Point { x: LOW, y: LOW, z: LOW },
        Point { x: LOW, y: HIGH, z: HIGH },
        Point { x: LOW, y: HIGH, z: LOW },
        Point { x: HIGH, y: LOW, z: HIGH },
        Point { x: LOW, y: LOW, z: HIGH },
        Point { x: LOW, y: LOW, z: LOW },
        Point { x: LOW, y: HIGH, z: HIGH },
        Point { x: LOW, y: LOW, z: HIGH },
        Point { x: HIGH, y: LOW, z: HIGH },
        Point { x: HIGH, y: HIGH, z: HIGH },
        Point { x: HIGH, y: LOW, z: LOW },
        Point { x: HIGH, y: HIGH, z: LOW },
        Point { x: HIGH, y: LOW, z: LOW },
        Point { x: HIGH, y: HIGH, z: HIGH },
        Point { x: HIGH, y: LOW, z: HIGH },
        Point { x: HIGH, y: HIGH, z: HIGH },
        Point { x: HIGH, y: HIGH, z: LOW },
        Point { x: LOW, y: HIGH, z: LOW },
        Point { x: HIGH, y: HIGH, z: HIGH },
        Point { x: LOW, y: HIGH, z: LOW },
        Point { x: LOW, y: HIGH, z: HIGH },
        Point { x: HIGH, y: HIGH, z: HIGH },
        Point { x: LOW, y: HIGH, z: HIGH },
        Point { x: HIGH, y: LOW, z: HIGH },
    ]
}

/// Whether `p` is a corner of the cube of side 2 about the origin.
pub open spec fn is_corner(p: Point) -> bool {
    &&& p.x == LOW || p.x == HIGH
    &&& p.y == LOW || p.y == HIGH
    &&& p.z == LOW || p.z == HIGH
}

/// The table of `cube_offsets`.
pub fn cube_offset_table() -> (table: Vec<Point>)
    ensures
        table@ == cube_offsets(),
{
    let table: Vec<Point> = vec![
        Point { x: LOW, y: LOW, z: LOW },
        Point { x: LOW, y: LOW, z: HIGH },
        Point { x: LOW, y: HIGH, z: HIGH },
        Point { x: HIGH, y: HIGH, z: LOW },
        Point { x: LOW, y: LOW, z: LOW },
        Point { x: LOW, y: HIGH, z: LOW },
        Point { x: HIGH, y: LOW, z: HIGH },
        Point { x: LOW, y: LOW, z: LOW },
        Point { x: HIGH, y: LOW, z: LOW },
        Point { x: HIGH, y: HIGH, z: LOW },
        Point { x: HIGH, y: LOW, z: LOW },
        Point { x: LOW, y: LOW, z: LOW },
        Point { x: LOW, y: LOW, z: LOW },
        Point { x: LOW, y: HIGH, z: HIGH },
        Point { x: LOW, y: HIGH, z: LOW },
        Point { x: HIGH, y: LOW, z: HIGH },
        Point { x: LOW, y: LOW, z: HIGH },
        Point { x: LOW, y: LOW, z: LOW },
        Point { x: LOW, y: HIGH, z: HIGH },
        Point { x: LOW, y: LOW, z: HIGH },
        Point { x: HIGH, y: LOW, z: HIGH },
        Point { x: HIGH, y: HIGH, z: HIGH },
        Point { x: HIGH, y: LOW, z: LOW },
        Point { x: HIGH, y: HIGH, z: LOW },
        Point { x: HIGH, y: LOW, z: LOW },
        Point { x: HIGH, y: HIGH, z: HIGH },
        Point { x: HIGH, y: LOW, z: HIGH },
        Point { x: HIGH, y: HIGH, z: HIGH },
        Point { x: HIGH, y: HIGH, z: LOW },
        Point { x: LOW, y: HIGH, z: LOW },
        Point { x: HIGH, y: HIGH, z: HIGH },
        Point { x: LOW, y: HIGH, z: LOW },
        Point { x: LOW, y: HIGH, z: HIGH },
        Point { x: HIGH, y: HIGH, z: HIGH },
        Point { x: LOW, y: HIGH, z: HIGH },
        Point { x: HIGH, y: LOW, z: HIGH },
    ];
    assert(table@ =~= cube_offsets());
    table
}

/// The table has 36 entries, and each is a corner of the cube.
pub proof fn lemma_cube_offsets_are_corners()
    ensures
        cube_offsets().len() == CUBE_VERTICES,
        forall|j: int| 0 <= j < CUBE_VERTICES ==> is_corner(#[trigger] cube_offsets()[j]),
{
}

/// The coordinate of `p` along `axis`: 0 for x, 1 for y, and z for any other.
pub open spec fn coordinate(p: Point, axis: int) -> int {
    if axis == 0 {
        p.x as int
    } else if axis == 1 {
        p.y as int
    } else {
        p.z as int
    }
}

/// Corner `k` (0, 1 or 2) of triangle `t` of the template.
pub open spec fn triangle_corner(t: int, k: int) -> Point {
    cube_offsets()[3 * t + k]
}

/// Whether triangle `t` of the template lies in the face of the cube that is
/// normal to `axis`, on the side `side` (-1 or 1) of the centre.
pub open spec fn lies_in_face(t: int, axis: int, side: int) -> bool {
    &&& coordinate(triangle_corner(t, 0), axis) == side
    &&& coordinate(triangle_corner(t, 1), axis) == side
    &&& coordinate(triangle_corner(t, 2), axis) == side
}

/// The cross product of the edges from `a` to `b` and from `a` to `c`. It is
/// normal to the triangle a, b, c, and points at the side from which a, b, c
/// are seen to run counter-clockwise.
pub open spec fn winding_normal(a: Point, b: Point, c: Point) -> (int, int, int) {
    let (ux, uy, uz) = (b.x - a.x, b.y - a.y, b.z - a.z);
    let (vx, vy, vz) = (c.x - a.x, c.y - a.y, c.z - a.z);
    (uy * vz - uz * vy, uz * vx - ux * vz, ux * vy - uy * vx)
}

/// The vector of length `length` that points outward from the face that is
/// normal to `axis`, on the side `side`.
pub open spec fn outward(axis: int, side: int, length: int) -> (int, int, int) {
    if axis == 0 {
        (side * length, 0, 0)
    } else if axis == 1 {
        (0, side * length, 0)
    } else {
        (0, 0, side * length)
    }
}

/// Whether triangle `t` of the template is half of the face that is normal to
/// `axis`, on the side `side`: it lies in that face, and seen from outside the
/// cube its corners run counter-clockwise. (The square of side 2 has area 4,
/// which is the length of the cross product of a triangle of area 2.)
pub open spec fn is_half_of_face(t: int, axis: int, side: int) -> bool {
    &&& lies_in_face(t, axis, side)
    &&& winding_normal(triangle_corner(t, 0), triangle_corner(t, 1), triangle_corner(t, 2))
        == outward(axis, side, 4)
}

/// The two triangles of the template that make up the face normal to `axis`,
/// on the side `side`.
pub open spec fn triangles_of_face(axis: int, side: int) -> (int, int) {
    if axis == 0 {
        if side < 0 {
            (0, 4)
        } else {
            (7, 8)
        }
    } else if axis == 1 {
        if side < 0 {
            (2, 5)
        } else {
            (9, 10)
        }
    } else {
        if side < 0 {
            (1, 3)
        } else {
            (6, 11)
        }
    }
}

/// The product of two numbers that are each -2, 0 or 2, without a
/// multiplication.
spec fn edge_product(u: int, v: int) -> int {
    if u == 0 || v == 0 {
        0
    } else if u == v {
        4
    } else {
        -4
    }
}

proof fn lemma_edge_product(u: int, v: int)
    by (nonlinear_arith)
    requires
        u == -2 || u == 0 || u == 2,
        v == -2 || v == 0 || v == 2,
    ensures
        u * v == edge_product(u, v),
{
}

/// Between corners of the cube every edge component is -2, 0 or 2, so the
/// products in the winding normal can be read off.
proof fn lemma_winding_normal_between_corners(a: Point, b: Point, c: Point)
    requires
        is_corner(a),
        is_corner(b),
        is_corner(c),
    ensures
        ({
            let (ux, uy, uz) = (b.x - a.x, b.y - a.y, b.z - a.z);
            let (vx, vy, vz) = (c.x - a.x, c.y - a.y, c.z - a.z);
            winding_normal(a, b, c) == (
                edge_product(uy, vz) - edge_product(uz, vy),
                edge_product(uz, vx) - edge_product(ux, vz),
                edge_product(ux, vy) - edge_product(uy, vx),
            )
        }),
{
    let (ux, uy, uz) = (b.x - a.x, b.y - a.y, b.z - a.z);
    let (vx, vy, vz) = (c.x - a.x, c.y - a.y, c.z - a.z);
    lemma_edge_product(uy, vz);
    lemma_edge_product(uz, vy);
    lemma_edge_product(uz, vx);
    lemma_edge_product(ux, vz);
    lemma_edge_product(ux, vy);
    lemma_edge_product(uy, vx);
}

/// Each face of the cube is made of two triangles of the template, both wound
/// counter-clockwise as seen from outside; no other triangle lies in that
/// face, and the two between them touch all four corners of the face.
pub proof fn lemma_faces_are_two_triangles(axis: int, side: int)
    requires
        0 <= axis < 3,
        side == 1 || side == -1,
    ensures
        ({
            let (first, second) = triangles_of_face(axis, side);
            &&& 0 <= first < second < CUBE_TRIANGLES
            &&& is_half_of_face(first, axis, side)
            &&& is_half_of_face(second, axis, side)
            &&& forall|t: int|
                0 <= t < CUBE_TRIANGLES && lies_in_face(t, axis, side) ==> t == first || t
                    == second
            &&& forall|p: Point|
                is_corner(p) && coordinate(p, axis) == side ==> exists|k: int|
                    0 <= k < 3 && (#[trigger] triangle_corner(first, k) == p || triangle_corner(
                        second,
                        k,
                    ) == p)
        }),
{
    let (first, second) = triangles_of_face(axis, side);
    lemma_winding_normal_between_corners(
        triangle_corner(first, 0),
        triangle_corner(first, 1),
        triangle_corner(first, 2),
    );
    lemma_winding_normal_between_corners(
        triangle_corner(second, 0),
        triangle_corner(second, 1),
        triangle_corner(second, 2),
    );
    assert forall|t: int| 0 <= t < CUBE_TRIANGLES && lies_in_face(t, axis, side) implies t == first
        || t == second by {
        if t != first && t != second {
            assert(!lies_in_face(t, axis, side));
        }
    }
    assert forall|p: Point| is_corner(p) && coordinate(p, axis) == side implies exists|k: int|
        0 <= k < 3 && (#[trigger] triangle_corner(first, k) == p || triangle_corner(second, k)
            == p) by {
        let k = if triangle_corner(first, 0) == p || triangle_corner(second, 0) == p {
            0int
        } else if triangle_corner(first, 1) == p || triangle_corner(second, 1) == p {
            1int
        } else {
            2int
        };
        assert(triangle_corner(first, k) == p || triangle_corner(second, k) == p);
    }
}

/// Every triangle of the template is half of some face of the cube.
pub proof fn lemma_triangles_are_halves_of_faces(t: int)
    requires
        0 <= t < CUBE_TRIANGLES,
    ensures
        exists|axis: int, side: int|
            0 <= axis < 3 && (side == 1 || side == -1) && #[trigger] is_half_of_face(
                t,
                axis,
                side,
            ),
{
    let axis: int = if t == 0 || t == 4 || t == 7 || t == 8 {
        0
    } else if t == 2 || t == 5 || t == 9 || t == 10 {
        1
    } else {
        2
    };
    let side: int = if t == 0 || t == 4 || t == 2 || t == 5 || t == 1 || t == 3 {
        -1
    } else {
        1
    };
    lemma_faces_are_two_triangles(axis, side);
    assert(is_half_of_face(t, axis, side));
}

} // verus!
