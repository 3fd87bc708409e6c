use vstd::prelude::*;

verus! {

/// Bit pattern of the 32-bit float `1.0`.
pub const F32_ONE_BITS: u32 = 0x3F80_0000;

/// Position and rotation of a mesh or a camera. Each word holds the bit
/// pattern of a 32-bit float; the engine never computes with these values,
/// it only stores them and copies them into push constants, so they are kept
/// as raw bits. Value type, copied freely.
#[derive(Clone, Copy, Debug, PartialEq, Eq, Structural)]
pub struct Transform {
    pub pos_x: u32,
    pub pos_y: u32,
    pub pos_z: u32,
    pub pos_w: u32,
    pub rot_x: u32,
    pub rot_y: u32,
    pub rot_z: u32,
    pub rot_w: u32,
}

impl Transform {
    /// The identity transform: zero position, unit rotation.
    pub open spec fn identity() -> Transform {
        Transform {
            pos_x: 0,
            pos_y: 0,
            pos_z: 0,
            pos_w: 0,
            rot_x: 0,
            rot_y: 0,
            rot_z: 0,
            rot_w: F32_ONE_BITS,
        }
    }
}

impl Default for Transform {
    /// Default = identity (zero position, unit rotation).
    fn default() -> (t: Self)
        ensures
            t == Transform::identity(),
    {
        Transform {
            pos_x: 0,
            pos_y: 0,
            pos_z: 0,
            pos_w: 0,
            rot_x: 0,
            rot_y: 0,
            rot_z: 0,
            rot_w: F32_ONE_BITS,
        }
    }
}

} // verus!
