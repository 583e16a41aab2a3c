//! Meshes from MagicaVoxel `.vox` files.

use vstd::prelude::*;
use crate::mesh::{build_mesh, mesh_of};
use crate::model::{Vertex, VoxelCell};

verus! {

/// The name under which this format is known to a host.
pub const NAME: &'static str = "MAGICAVOXEL_DOT_VOX";

/// The `.vox` format as a source of meshes.
#[derive(Clone, Copy, Debug)]
pub struct DotVoxFormat;

/// Why a file gave no mesh.
#[derive(Clone, Copy, Debug, PartialEq, Eq, Structural)]
pub enum DecodeError {
    /// The bytes are not a `.vox` file.
    InvalidFile,
    /// The file was read, and holds no model.
    MissingModel,
}

/// What a `.vox` file holds, as far as a mesh depends on it: the cells of each
/// model, in the order of the file, and the palette that the models share.
pub struct VoxData {
    pub models: Vec<Vec<VoxelCell>>,
    pub palette: Vec<u32>,
}

/// The contents of a `VoxData` as sequences.
pub struct VoxScene {
    pub models: Seq<Seq<VoxelCell>>,
    pub palette: Seq<u32>,
}

impl View for VoxData {
    type V = VoxScene;

    open spec fn view(&self) -> VoxScene {
        VoxScene {
            models: Seq::new(self.models.len() as nat, |k: int| self.models[k]@),
            palette: self.palette@,
        }
    }
}

/// The view of what decoding gave.
pub open spec fn decoded_view(decoded: Option<VoxData>) -> Option<VoxScene> {
    match decoded {
        Some(data) => Some(data@),
        None => None,
    }
}

/// The view of what an import gave.
pub open spec fn imported_view(imported: Result<Vec<Vertex>, DecodeError>) -> Result<
    Seq<Vertex>,
    DecodeError,
> {
    match imported {
        Ok(mesh) => Ok(mesh@),
        Err(error) => Err(error),
    }
}

/// What the `dot_vox` crate reads from `bytes`: `None` where it rejects them.
pub uninterp spec fn vox_file_contents(bytes: Seq<u8>) -> Option<VoxScene>;

/// Whether a file was read and found to hold no model.
pub open spec fn has_no_model(contents: Option<VoxScene>) -> bool {
    contents matches Some(scene) && scene.models.len() == 0
}

/// The mesh that a decoded file stands for: that of its first model, with the
/// file's palette.
pub open spec fn mesh_of_contents(contents: Option<VoxScene>) -> Result<Seq<Vertex>, DecodeError> {
    match contents {
        None => Err(DecodeError::InvalidFile),
        Some(scene) => if scene.models.len() == 0 {
            Err(DecodeError::MissingModel)
        } else {
            Ok(mesh_of(scene.models[0], scene.palette))
        },
    }
}

/// Calls `dot_vox::load_bytes`, which parses `bytes` as a `.vox` file, and
/// copies out of its result the voxels of every model, in order, and the
/// palette. `None` is given where `load_bytes` returns its error.
///
/// The contract claims one thing of it, and takes it on trust: that the
/// outcome depends on the bytes alone, so that it can be called
/// `vox_file_contents(bytes)`. What the parser takes for a file, and what it
/// reads from one, is not stated here.
///
/// The parser is taken to return on every input, as its documentation says. It
/// reserves room for as many entries as a chunk announces before it reads them,
/// and descends once for each level of nested chunks: like every allocation
/// and every call, these are assumed to find the memory they need.
#[verifier::external_body]
fn load_bytes(bytes: &[u8]) -> (decoded: Option<VoxData>)
    ensures
        decoded_view(decoded) == vox_file_contents(bytes@),
{
    match dot_vox::load_bytes(bytes) {
        Ok(data) => {
            let mut models = Vec::new();
            for model in data.models {
                let mut cells = Vec::new();
                for v in model.voxels {
                    cells.push(VoxelCell { x: v.x.into(), y: v.y.into(), z: v.z.into(), i: v.i });
                }
                models.push(cells);
            }
            Some(VoxData { models, palette: data.palette })
        },
        Err(_) => None,
    }
}

impl DecodeError {
    /// A sentence for the user.
    pub fn message(&self) -> (text: &'static str)
        ensures
            *self == DecodeError::InvalidFile ==> text@ == "Not a valid MagicaVoxel .vox file"@,
            *self == DecodeError::MissingModel ==> text@ == "The .vox file holds no model"@,
    {
        match self {
            DecodeError::InvalidFile => "Not a valid MagicaVoxel .vox file",
            DecodeError::MissingModel => "The .vox file holds no model",
        }
    }
}

impl DotVoxFormat {
    /// Builds the mesh of the first model of a `.vox` file. There are no
    /// options to choose from.
    ///
    /// Fails with `InvalidFile` where the bytes are not such a file, and with
    /// `MissingModel` where the file holds no model; every other file gives
    /// a mesh.
    pub fn import(&self, bytes: Vec<u8>, _options: ()) -> (imported: Result<
        Vec<Vertex>,
        DecodeError,
    >)
        ensures
            imported_view(imported) == mesh_of_contents(vox_file_contents(bytes@)),
            imported == Err::<Vec<Vertex>, DecodeError>(DecodeError::InvalidFile)
                <==> vox_file_contents(bytes@) is None,
            imported == Err::<Vec<Vertex>, DecodeError>(DecodeError::MissingModel)
                <==> has_no_model(vox_file_contents(bytes@)),
    {
        let decoded: Option<VoxData> = load_bytes(bytes.as_slice());
        DotVoxFormat::mesh_of_decoded(decoded)
    }

    /// The mesh of what was decoded from a file: `InvalidFile` where nothing
    /// was, `MissingModel` where there is no model, and else the mesh of the
    /// first model. Further models are not read.
    pub fn mesh_of_decoded(decoded: Option<VoxData>) -> (imported: Result<Vec<Vertex>, DecodeError>)
        ensures
            imported_view(imported) == mesh_of_contents(decoded_view(decoded)),
            imported == Err::<Vec<Vertex>, DecodeError>(DecodeError::InvalidFile)
                <==> decoded is None,
            imported == Err::<Vec<Vertex>, DecodeError>(DecodeError::MissingModel)
                <==> has_no_model(decoded_view(decoded)),
    {
        match decoded {
            None => Err(DecodeError::InvalidFile),
            Some(data) => {
                if data.models.len() == 0 {
                    Err(DecodeError::MissingModel)
                } else {
                    Ok(build_mesh(&data.models[0], &data.palette))
                }
            },
        }
    }
}

} // verus!
