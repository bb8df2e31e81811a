//! One placed brick.

use glam::{Quat, Vec3};
use vstd::prelude::*;

verus! {

/// One placed instance of the brick template.
#[derive(Debug, Clone, Copy)]
pub struct Brick {
    /// Seam parameter along the brick's length, as the bit pattern of a
    /// single-precision number. Carried along for shading; placement does not
    /// read it.
    pub pivot_u: u32,
    /// Scale along the brick's own axes; need not be uniform.
    pub scale: Vec3,
    /// Where the brick's origin lies in the world.
    pub position: Vec3,
    /// Orientation of the brick, a unit quaternion.
    pub rotation: Quat,
}

} // verus!
