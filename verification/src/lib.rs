//! Triangle meshes for palette-indexed voxel models.
//!
//! Every occupied cell of a voxel grid becomes one axis-aligned unit cube of
//! twelve independent triangles, coloured flat with the cell's palette entry.
//! All quantities are exact: lengths are counted in half cells, so that the
//! corners of a cube centred on an integer coordinate are integers, and colour
//! channels are bytes, the numerators of fractions over 255.

pub mod color;
pub mod components;
pub mod cube;
pub mod dot_vox_format;
pub mod mesh;
pub mod model;
pub mod systems;
pub mod template;

pub use color::{palette_to_rgba, Rgba};
pub use components::Name;
pub use cube::voxel_to_cube;
pub use dot_vox_format::{DecodeError, DotVoxFormat, VoxData, NAME};
pub use mesh::build_mesh;
pub use model::{Point, Vertex, VoxelCell};
pub use systems::{Rotation, RotationSystem};
pub use template::{cube_offset_table, CUBE_TRIANGLES, CUBE_VERTICES};
