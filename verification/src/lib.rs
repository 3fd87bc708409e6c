#![verifier::loop_isolation(false)]
//! Core of a deferred-shading real-time render engine.
//!
//! The engine's GPU objects (images, buffers, descriptor sets, swapchains) are
//! modelled by plain values: every GPU object carries an integer handle, and a
//! handle comparison is exactly the identity comparison the engine's cache
//! coherency rules are stated over. The code that talks to a concrete graphics
//! API lives outside this crate and feeds plain values (acquired image
//! indices, swapchain image sets, file bytes) into the functions here.

use vstd::prelude::*;

pub mod camera;
pub mod codecs;
pub mod direct_light;
pub mod game_graph;
pub mod game_graph_driver;
pub mod mesh;
pub mod mesh_batch;
pub mod mesh_data;
pub mod mesh_group;
pub mod pipelines;
pub mod resources;
pub mod surface;
pub mod texture;
pub mod threads;
pub mod transform;
pub mod world;

verus! {

/// Process-wide handle to the graphics device and queue. All windows created
/// from the same context share its resources. The context also owns the
/// counter from which every GPU object handle is drawn, so two objects
/// allocated through the same context never share a handle.
pub struct Context {
    device: u64,
    queue: u64,
    next_handle: u64,
}

impl Context {
    /// Bring up the graphics device and queue, upload the shared resources
    /// (sampler, white-pixel placeholder) and build the deferred pipeline
    /// context, waiting for the uploads before returning. Called once per
    /// process; everything else borrows the returned values.
    pub fn new() -> (r: (Context, resources::Resources, pipelines::deferred::DeferredPipelineContext))
        ensures
            r.0.device_spec() == 0,
            r.0.queue_spec() == 1,
            r.0.next_handle_spec() == 10,
            r.1.white_pixel_spec().image_spec().width == 1,
            r.1.white_pixel_spec().image_spec().height == 1,
            r.1.textures_spec().len() == 0,
            r.1.models_spec().len() == 0,
            r.1.models_wf(),
    {
        let mut ctx = Context { device: 0, queue: 1, next_handle: 2 };
        let res = resources::Resources::new(&mut ctx);
        let pctx = pipelines::deferred::DeferredPipelineDef::make_context(&mut ctx);
        (ctx, res, pctx)
    }

    /// The next GPU handle this context would hand out.
    pub closed spec fn next_handle_spec(self) -> u64 {
        self.next_handle
    }

    /// The next GPU handle this context would hand out; it also counts the
    /// GPU objects allocated so far.
    pub fn next_handle(&self) -> (h: u64)
        ensures
            h == self.next_handle_spec(),
    {
        self.next_handle
    }

    pub closed spec fn device_spec(self) -> u64 {
        self.device
    }

    pub closed spec fn queue_spec(self) -> u64 {
        self.queue
    }

    /// Draw a fresh GPU object handle.
    pub(crate) fn alloc_handle(&mut self) -> (h: u64)
        requires
            old(self).next_handle_spec() < u64::MAX,
        ensures
            h == old(self).next_handle_spec(),
            final(self).next_handle_spec() == old(self).next_handle_spec() + 1,
            final(self).device_spec() == old(self).device_spec(),
            final(self).queue_spec() == old(self).queue_spec(),
    {
        let h = self.next_handle;
        self.next_handle = self.next_handle + 1;
        h
    }

    pub fn device(&self) -> (d: u64)
        ensures
            d == self.device_spec(),
    {
        self.device
    }

    pub fn queue(&self) -> (q: u64)
        ensures
            q == self.queue_spec(),
    {
        self.queue
    }
}

} // verus!
