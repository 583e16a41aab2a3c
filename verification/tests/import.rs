use dot_vox_amethyst::{
    build_mesh, voxel_to_cube, DecodeError, DotVoxFormat, Point, Rgba, VoxData, VoxelCell, NAME,
};

fn chunk(id: &str, content: &[u8], children: &[u8]) -> Vec<u8> {
    let mut bytes = id.as_bytes().to_vec();
    bytes.extend_from_slice(&(content.len() as u32).to_le_bytes());
    bytes.extend_from_slice(&(children.len() as u32).to_le_bytes());
    bytes.extend_from_slice(content);
    bytes.extend_from_slice(children);
    bytes
}

fn size_chunk(x: u32, y: u32, z: u32) -> Vec<u8> {
    let mut content = x.to_le_bytes().to_vec();
    content.extend_from_slice(&y.to_le_bytes());
    content.extend_from_slice(&z.to_le_bytes());
    chunk("SIZE", &content, &[])
}

// In a file a voxel's colour index is one more than its index into the palette.
fn voxels_chunk(voxels: &[[u8; 4]]) -> Vec<u8> {
    let mut content = (voxels.len() as u32).to_le_bytes().to_vec();
    for voxel in voxels {
        content.extend_from_slice(voxel);
    }
    chunk("XYZI", &content, &[])
}

fn palette_chunk(palette: &[u32]) -> Vec<u8> {
    let mut content = Vec::new();
    for packed in palette {
        content.extend_from_slice(&packed.to_le_bytes());
    }
    chunk("RGBA", &content, &[])
}

fn vox_file(children: &[u8]) -> Vec<u8> {
    let mut bytes = b"VOX ".to_vec();
    bytes.extend_from_slice(&150u32.to_le_bytes());
    bytes.extend_from_slice(&chunk("MAIN", &[], children));
    bytes
}

fn four_voxels() -> Vec<u8> {
    let mut children = size_chunk(2, 2, 2);
    children.extend_from_slice(&voxels_chunk(&[
        [0, 0, 0, 226],
        [0, 1, 1, 216],
        [1, 0, 1, 236],
        [1, 1, 0, 6],
    ]));
    vox_file(&children)
}

fn shades() -> Vec<u32> {
    (0u32..256).map(|k| 0xFF00_0000 | (k << 16) | (k << 8) | k).collect()
}

#[test]
fn a_file_without_a_palette_gets_the_default_one() {
    let mesh = DotVoxFormat.import(four_voxels(), ()).unwrap();
    let cells = vec![
        VoxelCell { x: 0, y: 0, z: 0, i: 225 },
        VoxelCell { x: 0, y: 1, z: 1, i: 215 },
        VoxelCell { x: 1, y: 0, z: 1, i: 235 },
        VoxelCell { x: 1, y: 1, z: 0, i: 5 },
    ];
    assert_eq!(mesh.len(), 144);
    assert_eq!(mesh, build_mesh(&cells, &dot_vox::DEFAULT_PALETTE.to_vec()));
    assert_eq!(mesh[36].position, Point { x: -1, y: 1, z: 1 });
    assert_eq!(mesh[36].color, Rgba { r: 238, g: 0, b: 0, a: 255 });
}

#[test]
fn the_palette_of_the_file_colours_the_mesh() {
    let mut children = size_chunk(1, 1, 1);
    children.extend_from_slice(&voxels_chunk(&[[0, 0, 0, 101]]));
    children.extend_from_slice(&palette_chunk(&shades()));
    let mesh = DotVoxFormat.import(vox_file(&children), ()).unwrap();
    assert_eq!(mesh, voxel_to_cube(&VoxelCell { x: 0, y: 0, z: 0, i: 100 }, &shades()));
    assert_eq!(mesh[0].color, Rgba { r: 100, g: 100, b: 100, a: 255 });
}

#[test]
fn only_the_first_model_is_meshed() {
    let mut children = size_chunk(1, 1, 1);
    children.extend_from_slice(&voxels_chunk(&[[0, 0, 0, 1]]));
    children.extend_from_slice(&size_chunk(3, 3, 3));
    children.extend_from_slice(&voxels_chunk(&[[2, 2, 2, 1], [1, 1, 1, 1]]));
    let mesh = DotVoxFormat.import(vox_file(&children), ()).unwrap();
    assert_eq!(mesh.len(), 36);
    assert_eq!(mesh[0].position, Point { x: -1, y: -1, z: -1 });
}

#[test]
fn a_model_without_voxels_gives_an_empty_mesh() {
    let mut children = size_chunk(4, 4, 4);
    children.extend_from_slice(&voxels_chunk(&[]));
    assert_eq!(DotVoxFormat.import(vox_file(&children), ()), Ok(Vec::new()));
}

#[test]
fn bytes_that_are_no_vox_file_are_rejected() {
    assert_eq!(DotVoxFormat.import(b"GIF89a not a voxel model".to_vec(), ()), Err(DecodeError::InvalidFile));
    assert_eq!(DotVoxFormat.import(Vec::new(), ()), Err(DecodeError::InvalidFile));
    assert_eq!(DotVoxFormat.import(vec![0; 64], ()), Err(DecodeError::InvalidFile));
}

#[test]
fn a_truncated_file_is_rejected() {
    let whole = four_voxels();
    assert_eq!(DotVoxFormat.import(whole[..4].to_vec(), ()), Err(DecodeError::InvalidFile));
    assert_eq!(DotVoxFormat.import(whole[..8].to_vec(), ()), Err(DecodeError::InvalidFile));
    assert_eq!(DotVoxFormat.import(whole[..19].to_vec(), ()), Err(DecodeError::InvalidFile));
    assert_eq!(
        DotVoxFormat.import(whole[..whole.len() - 1].to_vec(), ()),
        Err(DecodeError::InvalidFile)
    );
}

#[test]
fn a_file_without_a_model_is_reported() {
    assert_eq!(DotVoxFormat.import(vox_file(&[]), ()), Err(DecodeError::MissingModel));
    assert_eq!(
        DotVoxFormat.import(vox_file(&size_chunk(2, 2, 2)), ()),
        Err(DecodeError::MissingModel)
    );
    assert_eq!(
        DotVoxFormat.import(vox_file(&palette_chunk(&shades())), ()),
        Err(DecodeError::MissingModel)
    );
}

#[test]
fn nothing_decoded_is_an_invalid_file() {
    assert_eq!(DotVoxFormat::mesh_of_decoded(None), Err(DecodeError::InvalidFile));
}

#[test]
fn decoded_contents_without_a_model_are_reported() {
    let nothing = VoxData { models: Vec::new(), palette: shades() };
    assert_eq!(DotVoxFormat::mesh_of_decoded(Some(nothing)), Err(DecodeError::MissingModel));
}

#[test]
fn the_first_model_of_decoded_contents_is_meshed() {
    let first = vec![VoxelCell { x: 9, y: 8, z: 7, i: 6 }, VoxelCell { x: 5, y: 4, z: 3, i: 2 }];
    let second = vec![VoxelCell { x: 1, y: 1, z: 1, i: 1 }];
    let data = VoxData { models: vec![first.clone(), second], palette: shades() };
    let mesh = DotVoxFormat::mesh_of_decoded(Some(data)).unwrap();
    assert_eq!(mesh, build_mesh(&first, &shades()));
    assert_eq!(mesh.len(), 72);
    assert_eq!(mesh[71].position, Point { x: 11, y: 7, z: 7 });
    assert_eq!(mesh[71].color, Rgba { r: 2, g: 2, b: 2, a: 255 });
}

#[test]
fn a_first_model_without_cells_is_an_empty_mesh() {
    let data = VoxData { models: vec![Vec::new()], palette: Vec::new() };
    assert_eq!(DotVoxFormat::mesh_of_decoded(Some(data)), Ok(Vec::new()));
}

#[test]
fn each_error_has_its_sentence() {
    assert_eq!(DecodeError::InvalidFile.message(), "Not a valid MagicaVoxel .vox file");
    assert_eq!(DecodeError::MissingModel.message(), "The .vox file holds no model");
}

#[test]
fn the_format_has_its_name() {
    assert_eq!(NAME, "MAGICAVOXEL_DOT_VOX");
}
