use vstd::prelude::*;
use crate::transform::{Transform, F32_ONE_BITS};

verus! {

/// Projection parameters plus viewpoint: the unit of "what to render and
/// from where". The four projection words and the exposure hold 32-bit
/// float bit patterns; deriving the packed projection vector the shaders
/// consume is float work done by the rendering backend, the engine only
/// stores and forwards the words.
pub struct Camera {
    proj_x: u32,
    proj_y: u32,
    proj_z: u32,
    proj_w: u32,
    transform: Transform,
    exposure: u32,
}

impl Camera {
    pub closed spec fn projection_spec(self) -> (u32, u32, u32, u32) {
        (self.proj_x, self.proj_y, self.proj_z, self.proj_w)
    }

    pub closed spec fn transform_spec(self) -> Transform {
        self.transform
    }

    pub closed spec fn exposure_spec(self) -> u32 {
        self.exposure
    }

    /// A camera with a zero projection, the identity transform and an
    /// exposure of one.
    pub fn new() -> (c: Self)
        ensures
            c.projection_spec() == (0u32, 0u32, 0u32, 0u32),
            c.transform_spec() == Transform::identity(),
            c.exposure_spec() == F32_ONE_BITS,
    {
        Camera {
            proj_x: 0,
            proj_y: 0,
            proj_z: 0,
            proj_w: 0,
            transform: Transform::default(),
            exposure: F32_ONE_BITS,
        }
    }

    /// Store the packed perspective parameters: aspect-scaled focal
    /// lengths and the near/far terms, as float bit patterns.
    pub fn set_perspective(&mut self, x: u32, y: u32, z: u32, w: u32)
        ensures
            final(self).projection_spec() == (x, y, z, w),
            final(self).transform_spec() == old(self).transform_spec(),
            final(self).exposure_spec() == old(self).exposure_spec(),
    {
        self.proj_x = x;
        self.proj_y = y;
        self.proj_z = z;
        self.proj_w = w;
    }

    pub fn transform(&self) -> (t: Transform)
        ensures
            t == self.transform_spec(),
    {
        self.transform
    }

    /// Replace the camera's transform.
    pub fn set_transform(&mut self, transform: Transform)
        ensures
            final(self).transform_spec() == transform,
            final(self).projection_spec() == old(self).projection_spec(),
            final(self).exposure_spec() == old(self).exposure_spec(),
    {
        self.transform = transform;
    }

    pub fn projection(&self) -> (p: (u32, u32, u32, u32))
        ensures
            p == self.projection_spec(),
    {
        (self.proj_x, self.proj_y, self.proj_z, self.proj_w)
    }

    pub fn exposure(&self) -> (e: u32)
        ensures
            e == self.exposure_spec(),
    {
        self.exposure
    }

    /// Replace the tone-mapping exposure, as a float bit pattern.
    pub fn set_exposure(&mut self, exposure: u32)
        ensures
            final(self).exposure_spec() == exposure,
            final(self).projection_spec() == old(self).projection_spec(),
            final(self).transform_spec() == old(self).transform_spec(),
    {
        self.exposure = exposure;
    }
}

} // verus!
