use vstd::prelude::*;
use crate::direct_light::DirectLight;

verus! {

/// The lights of the scene, read by the lighting subpass each frame.
pub struct World {
    lights: Vec<DirectLight>,
}

impl World {
    pub closed spec fn lights_spec(self) -> Seq<DirectLight> {
        self.lights@
    }

    pub fn new() -> (w: Self)
        ensures
            w.lights_spec().len() == 0,
    {
        World { lights: Vec::new() }
    }

    /// Add a light to the scene.
    pub fn add_light(&mut self, light: DirectLight)
        ensures
            final(self).lights_spec() == old(self).lights_spec().push(light),
    {
        self.lights.push(light);
    }

    pub fn lights(&self) -> (l: &Vec<DirectLight>)
        ensures
            l@ == self.lights_spec(),
    {
        &self.lights
    }
}

} // verus!
