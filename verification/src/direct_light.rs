use vstd::prelude::*;

verus! {

/// A point light: position, color and falloff radius, each component the
/// bit pattern of a 32-bit float. The engine stores and forwards these
/// words; the lighting math runs on the GPU.
#[derive(Clone, Copy, Debug, PartialEq, Eq, Structural)]
pub struct DirectLight {
    pub position_x: u32,
    pub position_y: u32,
    pub position_z: u32,
    pub color_r: u32,
    pub color_g: u32,
    pub color_b: u32,
    pub radius: u32,
}

impl DirectLight {
    /// A light at the origin with zero color and zero radius.
    pub fn new() -> (l: Self)
        ensures
            l == (DirectLight {
                position_x: 0,
                position_y: 0,
                position_z: 0,
                color_r: 0,
                color_g: 0,
                color_b: 0,
                radius: 0,
            }),
    {
        DirectLight {
            position_x: 0,
            position_y: 0,
            position_z: 0,
            color_r: 0,
            color_g: 0,
            color_b: 0,
            radius: 0,
        }
    }
}

} // verus!
