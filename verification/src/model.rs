//! The data that the mesher reads and writes.

use vstd::prelude::*;
use crate::color::Rgba;

verus! {

/// One occupied cell of the voxel grid: its grid coordinates and the index of
/// its colour in the palette. Coordinates are not bounded by any grid size,
/// and may be negative.
#[derive(Clone, Copy, Debug, PartialEq, Eq, Structural)]
pub struct VoxelCell {
    pub x: i32,
    pub y: i32,
    pub z: i32,
    pub i: u8,
}

/// A point, or a displacement, in mesh space. The unit is half a cell: the
/// centre of the cell at grid coordinate `n` lies at `2 * n`, and its faces at
/// `2 * n - 1` and `2 * n + 1`.
#[derive(Clone, Copy, Debug, PartialEq, Eq, Structural)]
pub struct Point {
    pub x: i64,
    pub y: i64,
    pub z: i64,
}

/// A vertex of the mesh: where it lies and its flat colour.
#[derive(Clone, Copy, Debug, PartialEq, Eq, Structural)]
pub struct Vertex {
    pub position: Point,
    pub color: Rgba,
}

/// The point that lies `offset` away from the centre of `cell`, which is at
/// twice the cell's grid coordinates.
pub open spec fn displaced(cell: VoxelCell, offset: Point) -> Point {
    Point {
        x: (2 * cell.x + offset.x) as i64,
        y: (2 * cell.y + offset.y) as i64,
        z: (2 * cell.z + offset.z) as i64,
    }
}

} // verus!
