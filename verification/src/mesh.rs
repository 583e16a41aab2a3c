//! The mesh of a whole model: the cubes of its cells, one after another.

use vstd::prelude::*;
use crate::color::resolve;
use crate::cube::{cube_of, extend_with_cube};
use crate::model::{displaced, Point, Vertex, VoxelCell};
use crate::template::{cube_offset_table, cube_offsets, CUBE_VERTICES};

verus! {

/// The mesh of `cells`: for each cell, in the order given, the 36 vertices of
/// its cube. Cells do not interact: no face is culled and no vertex shared,
/// and a cell listed twice gives two cubes.
pub open spec fn mesh_of(cells: Seq<VoxelCell>, palette: Seq<u32>) -> Seq<Vertex> {
    Seq::new(
        (CUBE_VERTICES * cells.len()) as nat,
        |k: int| cube_of(cells[k / CUBE_VERTICES as int], palette)[k % CUBE_VERTICES as int],
    )
}

/// What is asked of a mesh, vertex by vertex: it has 36 vertices for each
/// cell, and vertex `j` of cell `i` lies the `j`th template offset away from the
/// centre of that cell and has the cell's colour.
pub open spec fn is_mesh_of(mesh: Seq<Vertex>, cells: Seq<VoxelCell>, palette: Seq<u32>) -> bool {
    &&& mesh.len() == CUBE_VERTICES * cells.len()
    &&& forall|i: int, j: int|
        0 <= i < cells.len() && 0 <= j < CUBE_VERTICES ==> #[trigger] mesh[CUBE_VERTICES * i + j]
            == (Vertex {
            position: displaced(cells[i], cube_offsets()[j]),
            color: resolve(palette, cells[i].i as int),
        })
}

/// Builds the mesh of a model from its cells and its palette.
pub fn build_mesh(cells: &Vec<VoxelCell>, palette: &Vec<u32>) -> (mesh: Vec<Vertex>)
    ensures
        mesh@ == mesh_of(cells@, palette@),
        mesh@.len() == CUBE_VERTICES * cells@.len(),
        is_mesh_of(mesh@, cells@, palette@),
{
    let offsets: Vec<Point> = cube_offset_table();
    let mut mesh: Vec<Vertex> = Vec::new();
    let mut i: usize = 0;
    proof {
        lemma_mesh_of_nothing(palette@);
        assert(cells@.take(0) =~= Seq::<VoxelCell>::empty());
    }
    while i < cells.len()
        invariant
            i <= cells.len(),
            offsets@ == cube_offsets(),
            mesh@ == mesh_of(cells@.take(i as int), palette@),
        decreases cells.len() - i,
    {
        extend_with_cube(&mut mesh, &cells[i], palette, &offsets);
        proof {
            let done = cells@.take(i as int);
            let next = seq![cells@[i as int]];
            assert(cells@.take(i + 1) =~= done + next);
            lemma_mesh_of_concat(done, next, palette@);
            lemma_mesh_of_one(cells@[i as int], palette@);
        }
        i += 1;
    }
    proof {
        assert(cells@.take(cells.len() as int) =~= cells@);
        lemma_mesh_of_is_mesh(cells@, palette@);
    }
    mesh
}

/// The mesh has 36 vertices for each cell.
pub proof fn lemma_mesh_len(cells: Seq<VoxelCell>, palette: Seq<u32>)
    ensures
        mesh_of(cells, palette).len() == 36 * cells.len(),
{
}

/// The vertices of cell `i` stand at the indices from `36 * i`, in the order
/// of the template; each has the cell's colour.
pub proof fn lemma_mesh_of_is_mesh(cells: Seq<VoxelCell>, palette: Seq<u32>)
    ensures
        is_mesh_of(mesh_of(cells, palette), cells, palette),
{
    let mesh = mesh_of(cells, palette);
    assert forall|i: int, j: int|
        0 <= i < cells.len() && 0 <= j < CUBE_VERTICES implies #[trigger] mesh[CUBE_VERTICES * i
        + j] == (Vertex {
        position: displaced(cells[i], cube_offsets()[j]),
        color: resolve(palette, cells[i].i as int),
    }) by {
        let k = CUBE_VERTICES * i + j;
        assert(k / 36 == i && k % 36 == j);
    }
}

/// The cells and the palette determine the mesh: two meshes that both meet
/// `is_mesh_of` for them are equal. So building twice gives the same mesh.
pub proof fn lemma_mesh_is_determined(
    first: Seq<Vertex>,
    second: Seq<Vertex>,
    cells: Seq<VoxelCell>,
    palette: Seq<u32>,
)
    requires
        is_mesh_of(first, cells, palette),
        is_mesh_of(second, cells, palette),
    ensures
        first == second,
{
    assert forall|k: int| 0 <= k < first.len() implies first[k] == second[k] by {
        let i = k / 36;
        let j = k % 36;
        assert(k == CUBE_VERTICES * i + j);
        assert(0 <= i < cells.len());
    }
    assert(first =~= second);
}

/// No cells, no vertices.
pub proof fn lemma_mesh_of_nothing(palette: Seq<u32>)
    ensures
        mesh_of(Seq::empty(), palette) == Seq::<Vertex>::empty(),
{
    assert(mesh_of(Seq::empty(), palette) =~= Seq::<Vertex>::empty());
}

/// The mesh of a single cell is its cube.
pub proof fn lemma_mesh_of_one(cell: VoxelCell, palette: Seq<u32>)
    ensures
        mesh_of(seq![cell], palette) == cube_of(cell, palette),
{
    assert(mesh_of(seq![cell], palette) =~= cube_of(cell, palette));
}

/// The mesh of two lists of cells, one after the other, is the mesh of the
/// first followed by the mesh of the second: what a cell contributes does not
/// depend on the cells around it.
pub proof fn lemma_mesh_of_concat(front: Seq<VoxelCell>, back: Seq<VoxelCell>, palette: Seq<u32>)
    ensures
        mesh_of(front + back, palette) == mesh_of(front, palette) + mesh_of(back, palette),
{
    let whole = mesh_of(front + back, palette);
    let parts = mesh_of(front, palette) + mesh_of(back, palette);
    assert(whole.len() == parts.len());
    assert forall|k: int| 0 <= k < whole.len() implies whole[k] == parts[k] by {
        let n = front.len() as int;
        if k < 36 * n {
            assert(k / 36 < n);
        } else {
            let r = k - 36 * n;
            assert(k / 36 == r / 36 + n);
            assert(k % 36 == r % 36);
            assert((front + back)[k / 36] == back[r / 36]);
        }
    }
    assert(whole =~= parts);
}

/// A model of two cells has 72 vertices: the cube of the first cell, then the
/// cube of the second.
pub proof fn lemma_mesh_of_two(first: VoxelCell, second: VoxelCell, palette: Seq<u32>)
    ensures
        mesh_of(seq![first, second], palette).len() == 72,
        mesh_of(seq![first, second], palette).subrange(0, 36) == mesh_of(seq![first], palette),
        mesh_of(seq![first, second], palette).subrange(36, 72) == mesh_of(seq![second], palette),
        mesh_of(seq![first, second], palette) == cube_of(first, palette) + cube_of(second, palette),
{
    assert(seq![first, second] =~= seq![first] + seq![second]);
    lemma_mesh_of_concat(seq![first], seq![second], palette);
    lemma_mesh_of_one(first, palette);
    lemma_mesh_of_one(second, palette);
    let whole = mesh_of(seq![first, second], palette);
    assert(whole.subrange(0, 36) =~= cube_of(first, palette));
    assert(whole.subrange(36, 72) =~= cube_of(second, palette));
}

} // verus!
