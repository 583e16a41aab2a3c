//! What happens to a scene from one tick to the next.

use vstd::prelude::*;

verus! {

/// A turn about an axis through the centre of an entity. The axis is given as
/// a direction, which need not have length one, and the angle in whole degrees.
#[derive(Clone, Copy, Debug, PartialEq, Eq, Structural)]
pub struct Rotation {
    pub axis_x: i32,
    pub axis_y: i32,
    pub axis_z: i32,
    pub degrees: u32,
}

/// Turns every labelled entity by the same small angle on each tick, so that a
/// model shows all its sides.
pub struct RotationSystem;

impl RotationSystem {
    /// The turn that one tick applies: one degree about the diagonal of the
    /// x-y plane.
    pub fn rotation(&self) -> (turn: Rotation)
        ensures
            turn == (Rotation { axis_x: 1, axis_y: 1, axis_z: 0, degrees: 1 }),
    {
        Rotation { axis_x: 1, axis_y: 1, axis_z: 0, degrees: 1 }
    }
}

} // verus!
