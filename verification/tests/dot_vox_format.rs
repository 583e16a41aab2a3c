use avow::vec::are_eq;
use dot_vox_amethyst::{palette_to_rgba, voxel_to_cube, Rgba, Vertex, VoxelCell};

#[derive(Debug, PartialEq)]
struct PosColor {
    position: [f32; 3],
    color: [f32; 4],
}

fn channels(color: Rgba) -> [f32; 4] {
    [
        color.r as f32 / 255.0,
        color.g as f32 / 255.0,
        color.b as f32 / 255.0,
        color.a as f32 / 255.0,
    ]
}

fn rendered(mesh: Vec<Vertex>) -> Vec<PosColor> {
    mesh.into_iter()
        .map(|vertex| PosColor {
            position: [
                vertex.position.x as f32 / 2.0,
                vertex.position.y as f32 / 2.0,
                vertex.position.z as f32 / 2.0,
            ],
            color: channels(vertex.color),
        })
        .collect()
}

fn pos(x: f32, y: f32, z: f32) -> PosColor {
    PosColor {
        position: [x, y, z],
        color: [1.0, 1.0, 1.0, 1.0],
    }
}

#[test]
fn one_voxel_becomes_a_12_triangle_cube() {
    let result = voxel_to_cube(&VoxelCell { x: 1, y: 1, z: 1, i: 0 },
                               &dot_vox::DEFAULT_PALETTE.to_vec());
    are_eq(rendered(result), vec![
        pos(0.5, 0.5, 0.5),
        pos(0.5, 0.5, 1.5),
        pos(0.5, 1.5, 1.5),
        pos(1.5, 1.5, 0.5),
        pos(0.5, 0.5, 0.5),
        pos(0.5, 1.5, 0.5),
        pos(1.5, 0.5, 1.5),
        pos(0.5, 0.5, 0.5),
        pos(1.5, 0.5, 0.5),
        pos(1.5, 1.5, 0.5),
        pos(1.5, 0.5, 0.5),
        pos(0.5, 0.5, 0.5),
        pos(0.5, 0.5, 0.5),
        pos(0.5, 1.5, 1.5),
        pos(0.5, 1.5, 0.5),
        pos(1.5, 0.5, 1.5),
        pos(0.5, 0.5, 1.5),
        pos(0.5, 0.5, 0.5),
        pos(0.5, 1.5, 1.5),
        pos(0.5, 0.5, 1.5),
        pos(1.5, 0.5, 1.5),
        pos(1.5, 1.5, 1.5),
        pos(1.5, 0.5, 0.5),
        pos(1.5, 1.5, 0.5),
        pos(1.5, 0.5, 0.5),
        pos(1.5, 1.5, 1.5),
        pos(1.5, 0.5, 1.5),
        pos(1.5, 1.5, 1.5),
        pos(1.5, 1.5, 0.5),
        pos(0.5, 1.5, 0.5),
        pos(1.5, 1.5, 1.5),
        pos(0.5, 1.5, 0.5),
        pos(0.5, 1.5, 1.5),
        pos(1.5, 1.5, 1.5),
        pos(0.5, 1.5, 1.5),
        pos(1.5, 0.5, 1.5),
    ]);
}

#[test]
fn palette_and_index_becomes_a_color() {
    assert_eq!(channels(palette_to_rgba(&dot_vox::DEFAULT_PALETTE.to_vec(), 215)),
               [0.93333334, 0.0, 0.0, 1.0]);
}
