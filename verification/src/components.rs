//! What a host attaches to the entities of a scene.

use vstd::prelude::*;

verus! {

/// A label for an entity. Entities that carry one are the ones that
/// `RotationSystem` turns.
#[derive(Clone, Copy, Debug)]
pub struct Name(pub &'static str);

} // verus!
