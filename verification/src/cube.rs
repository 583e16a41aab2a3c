//! The cube that stands for one voxel.

use vstd::prelude::*;
use crate::color::{palette_to_rgba, resolve, Rgba};
use crate::model::{displaced, Point, Vertex, VoxelCell};
use crate::template::{
    cube_offset_table, cube_offsets, is_corner, lemma_cube_offsets_are_corners, CUBE_VERTICES,
};

verus! {

/// The vertices, in the order of `cube_offsets`, of the cube that stands for
/// `cell`, each with the colour that the cell's index has in `palette`.
pub open spec fn cube_of(cell: VoxelCell, palette: Seq<u32>) -> Seq<Vertex> {
    Seq::new(
        CUBE_VERTICES as nat,
        |j: int|
            Vertex {
                position: displaced(cell, cube_offsets()[j]),
                color: resolve(palette, cell.i as int),
            },
    )
}

/// Appends the cube of `voxel` to `mesh`. The caller brings the table of
/// the template, so that a mesh of many cells needs only one.
pub(crate) fn extend_with_cube(
    mesh: &mut Vec<Vertex>,
    voxel: &VoxelCell,
    palette: &Vec<u32>,
    offsets: &Vec<Point>,
)
    requires
        offsets@ == cube_offsets(),
    ensures
        final(mesh)@ == old(mesh)@ + cube_of(*voxel, palette@),
{
    let color: Rgba = palette_to_rgba(palette, voxel.i as usize);
    let mut j: usize = 0;
    proof {
        lemma_cube_offsets_are_corners();
    }
    while j < CUBE_VERTICES
        invariant
            j <= CUBE_VERTICES,
            offsets@ == cube_offsets(),
            forall|k: int| 0 <= k < CUBE_VERTICES ==> is_corner(#[trigger] cube_offsets()[k]),
            color == resolve(palette@, voxel.i as int),
            mesh@ == old(mesh)@ + cube_of(*voxel, palette@).take(j as int),
        decreases CUBE_VERTICES - j,
    {
        let offset: Point = offsets[j];
        assert(is_corner(cube_offsets()[j as int]));
        let position: Point = Point {
            x: 2 * (voxel.x as i64) + offset.x,
            y: 2 * (voxel.y as i64) + offset.y,
            z: 2 * (voxel.z as i64) + offset.z,
        };
        mesh.push(Vertex { position, color });
        assert(cube_of(*voxel, palette@).take(j + 1) =~= cube_of(*voxel, palette@).take(
            j as int,
        ).push(cube_of(*voxel, palette@)[j as int]));
        j += 1;
    }
    assert(cube_of(*voxel, palette@).take(CUBE_VERTICES as int) =~= cube_of(*voxel, palette@));
}

/// Turns one voxel into the 36 vertices of its cube.
pub fn voxel_to_cube(voxel: &VoxelCell, palette: &Vec<u32>) -> (cube: Vec<Vertex>)
    ensures
        cube@ == cube_of(*voxel, palette@),
        cube@.len() == CUBE_VERTICES,
{
    let offsets: Vec<Point> = cube_offset_table();
    let mut cube: Vec<Vertex> = Vec::with_capacity(CUBE_VERTICES);
    extend_with_cube(&mut cube, voxel, palette, &offsets);
    cube
}

/// Every vertex of the cube of a cell lies one half cell from the cell's
/// centre along each axis, on the side that the template gives, and no
/// coordinate wraps around. All 36 vertices have the cell's colour.
pub proof fn lemma_cube_vertex(cell: VoxelCell, palette: Seq<u32>, j: int)
    requires
        0 <= j < CUBE_VERTICES,
    ensures
        ({
            let vertex = cube_of(cell, palette)[j];
            let offset = cube_offsets()[j];
            &&& is_corner(offset)
            &&& vertex.position.x == 2 * cell.x + offset.x
            &&& vertex.position.y == 2 * cell.y + offset.y
            &&& vertex.position.z == 2 * cell.z + offset.z
            &&& vertex.color == resolve(palette, cell.i as int)
        }),
{
    lemma_cube_offsets_are_corners();
}

} // verus!
