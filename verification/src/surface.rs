use vstd::prelude::*;
use crate::camera::Camera;
use crate::direct_light::DirectLight;
use crate::mesh::MeshView;
use crate::mesh_group::MeshGroup;
use crate::pipelines::deferred::{
    group_ranges_valid, DeferredPipeline, DeferredPipelineContext,
};
use crate::pipelines::{draw_commands, CommandBuffer};
use crate::texture::{Image, PixelFormat};
use crate::Context;

verus! {

/// Format of every swapchain image the engine renders to.
pub const SWAP_FORMAT: PixelFormat = PixelFormat::B8g8r8a8Srgb;

/// The engine's record of one swapchain: its identity, the image set the
/// backend created for it, and its extent. Recreated whole on resize.
pub struct Swapchain {
    handle: u64,
    images: Vec<Image>,
    width: u32,
    height: u32,
}

impl Swapchain {
    pub closed spec fn handle_spec(self) -> u64 {
        self.handle
    }

    pub closed spec fn images_spec(self) -> Seq<Image> {
        self.images@
    }

    pub closed spec fn width_spec(self) -> u32 {
        self.width
    }

    pub closed spec fn height_spec(self) -> u32 {
        self.height
    }

    pub fn images(&self) -> (i: &Vec<Image>)
        ensures
            i@ == self.images_spec(),
    {
        &self.images
    }

    pub fn dimensions(&self) -> (d: (u32, u32))
        ensures
            d.0 == self.width_spec(),
            d.1 == self.height_spec(),
    {
        (self.width, self.height)
    }
}

/// The presentation modes a surface can be driven with.
#[derive(Clone, Copy, Debug, PartialEq, Eq, Structural)]
pub enum PresentMode {
    Mailbox,
    Immediate,
    Relaxed,
    Fifo,
}

/// Pick the presentation mode from what the platform supports: mailbox
/// first, then immediate, then relaxed, falling back to fifo, which every
/// platform supports.
pub fn choose_present_mode(mailbox: bool, immediate: bool, relaxed: bool) -> (m: PresentMode)
    ensures
        m == (if mailbox {
            PresentMode::Mailbox
        } else if immediate {
            PresentMode::Immediate
        } else if relaxed {
            PresentMode::Relaxed
        } else {
            PresentMode::Fifo
        }),
{
    if mailbox {
        PresentMode::Mailbox
    } else if immediate {
        PresentMode::Immediate
    } else if relaxed {
        PresentMode::Relaxed
    } else {
        PresentMode::Fifo
    }
}

/// What acquiring the next swapchain image came back with: an image index,
/// or the out-of-date signal after an in-flight resize race. Any other
/// backend failure is fatal upstream and never reaches the engine.
pub enum AcquireOutcome {
    Acquired { image_num: usize },
    OutOfDate,
}

/// What recreating the swapchain at a new extent came back with: the new
/// image set, or the transient rejection some platforms give while the
/// window is still changing.
pub enum RecreateOutcome {
    Recreated { images: Vec<Image> },
    UnsupportedDimensions,
}

/// What one frame did: skipped (no GPU submission at all), or submitted
/// one fully recorded command buffer for the acquired image.
pub enum DrawOutcome {
    Skipped,
    Submitted { image_num: usize, commands: CommandBuffer },
}

/// The extent a resize actually targets: the platform's reported extent
/// wins over the caller-supplied one.
pub open spec fn chosen_extent(width: u32, height: u32, platform: Option<(u32, u32)>) -> (
    u32,
    u32,
) {
    match platform {
        Some(e) => e,
        None => (width, height),
    }
}

/// One OS window's rendering state: the swapchain, the pipeline built for
/// its images, and the fence of the previously submitted frame.
pub struct Surface {
    swapchain: Swapchain,
    pipeline: DeferredPipeline,
    prev_frame_fence: Option<u64>,
    frame_counter: u64,
}

impl Surface {
    pub closed spec fn swapchain_spec(self) -> Swapchain {
        self.swapchain
    }

    pub closed spec fn pipeline_spec(self) -> DeferredPipeline {
        self.pipeline
    }

    pub closed spec fn prev_frame_fence_spec(self) -> Option<u64> {
        self.prev_frame_fence
    }

    pub closed spec fn frame_counter_spec(self) -> u64 {
        self.frame_counter
    }

    /// The pipeline always fits the swapchain: one framebuffer per
    /// swapchain image, each targeting that image, and G-buffer
    /// attachments sized to the swapchain's extent.
    pub open spec fn wf(self) -> bool {
        &&& self.pipeline_spec().wf()
        &&& self.pipeline_spec().framebuffers_spec().len() == self.swapchain_spec().images_spec().len()
        &&& forall|i: int|
            0 <= i < self.swapchain_spec().images_spec().len()
                ==> (#[trigger] self.pipeline_spec().framebuffers_spec()[i]).color_attachment
                == self.swapchain_spec().images_spec()[i].handle
        &&& self.pipeline_spec().width_spec() == self.swapchain_spec().width_spec()
        &&& self.pipeline_spec().height_spec() == self.swapchain_spec().height_spec()
    }

    /// Wrap a backend surface whose swapchain the backend created with the
    /// given images and extent, and build the pipeline for them.
    pub fn from_vk(
        ctx: &mut Context,
        pctx: &DeferredPipelineContext,
        images: Vec<Image>,
        width: u32,
        height: u32,
    ) -> (s: Self)
        requires
            old(ctx).next_handle_spec() + 10 + images@.len() <= u64::MAX,
        ensures
            s.wf(),
            s.swapchain_spec().images_spec() == images@,
            s.swapchain_spec().width_spec() == width,
            s.swapchain_spec().height_spec() == height,
            s.prev_frame_fence_spec() is None,
            final(ctx).next_handle_spec() == old(ctx).next_handle_spec() + 10 + images@.len(),
            final(ctx).device_spec() == old(ctx).device_spec(),
            final(ctx).queue_spec() == old(ctx).queue_spec(),
    {
        let handle = ctx.alloc_handle();
        let pipeline = pctx.make_pipeline(ctx, &images, width, height);
        Surface {
            swapchain: Swapchain { handle, images, width, height },
            pipeline,
            prev_frame_fence: None,
            frame_counter: 0,
        }
    }

    /// Draw one frame. An out-of-date acquire abandons the frame: nothing
    /// is recorded, nothing is submitted, and neither the surface nor the
    /// scene changes; the next resize or acquire recovers. A successful
    /// acquire refreshes the scene's descriptors, records the full
    /// three-subpass command buffer for the acquired image, and advances
    /// the frame fence that the next frame's submission chains after.
    pub fn draw(
        &mut self,
        cam: &Camera,
        group: &mut MeshGroup,
        lights: &Vec<DirectLight>,
        acquire: AcquireOutcome,
    ) -> (r: DrawOutcome)
        requires
            old(self).wf(),
            old(self).frame_counter_spec() < u64::MAX,
            old(group).wf(),
            group_ranges_valid(*old(group)),
            acquire matches AcquireOutcome::Acquired { image_num } ==> image_num < old(
                self,
            ).swapchain_spec().images_spec().len(),
        ensures
            final(self).wf(),
            final(self).swapchain_spec() == old(self).swapchain_spec(),
            final(self).pipeline_spec() == old(self).pipeline_spec(),
            final(group).wf(),
            acquire is OutOfDate ==> {
                &&& r is Skipped
                &&& *final(self) == *old(self)
                &&& *final(group) == *old(group)
            },
            acquire matches AcquireOutcome::Acquired { image_num } ==> {
                &&& final(group).next_id_spec() == old(group).next_id_spec()
                &&& final(group).skybox_spec() == old(group).skybox_spec()
                &&& final(group).white_pixel_spec() == old(group).white_pixel_spec()
                &&& final(group).meshes_spec().len() == old(group).meshes_spec().len()
                &&& (forall|i: int|
                    0 <= i < old(group).meshes_spec().len()
                        ==> (#[trigger] final(group).meshes_spec()[i])@ == (MeshView {
                        desc: crate::mesh::desc_of(old(group).meshes_spec()[i]@.textures),
                        ..old(group).meshes_spec()[i]@
                    }))
                &&& final(self).frame_counter_spec() == old(self).frame_counter_spec() + 1
                &&& final(self).prev_frame_fence_spec() == Some(final(self).frame_counter_spec())
                &&& (r matches DrawOutcome::Submitted { image_num: n, commands } && n == image_num
                    && commands@ == draw_commands(
                    old(self).pipeline_spec().framebuffers_spec()[image_num as int].handle,
                    final(group).meshes_spec(),
                    lights@,
                    old(self).pipeline_spec().gbuffers_desc_spec(),
                    old(group).skybox_spec(),
                    cam.exposure_spec(),
                ))
            },
    {
        match acquire {
            AcquireOutcome::OutOfDate => DrawOutcome::Skipped,
            AcquireOutcome::Acquired { image_num } => {
                let commands = self.pipeline.draw(image_num, cam, group, lights);
                self.frame_counter = self.frame_counter + 1;
                self.prev_frame_fence = Some(self.frame_counter);
                DrawOutcome::Submitted { image_num, commands }
            },
        }
    }

    /// Apply a resize. The platform's reported extent wins over the
    /// caller's width and height. A transient rejection of the new
    /// dimensions is silently ignored: a later resize event retries. On
    /// success the swapchain is recreated around the backend's new image
    /// set and the pipeline is rebuilt to match it.
    pub fn resize(
        &mut self,
        ctx: &mut Context,
        width: u32,
        height: u32,
        platform_extent: Option<(u32, u32)>,
        outcome: RecreateOutcome,
    )
        requires
            old(self).wf(),
            outcome matches RecreateOutcome::Recreated { images } ==> old(ctx).next_handle_spec() + 10
                + images@.len() <= u64::MAX,
        ensures
            final(self).wf(),
            final(ctx).device_spec() == old(ctx).device_spec(),
            final(ctx).queue_spec() == old(ctx).queue_spec(),
            outcome is UnsupportedDimensions ==> {
                &&& *final(self) == *old(self)
                &&& *final(ctx) == *old(ctx)
            },
            outcome matches RecreateOutcome::Recreated { images } ==> {
                &&& final(self).swapchain_spec().images_spec() == images@
                &&& final(self).swapchain_spec().width_spec() == chosen_extent(
                    width,
                    height,
                    platform_extent,
                ).0
                &&& final(self).swapchain_spec().height_spec() == chosen_extent(
                    width,
                    height,
                    platform_extent,
                ).1
                &&& final(self).pipeline_spec().framebuffers_spec().len() == images@.len()
                &&& final(self).prev_frame_fence_spec() == old(self).prev_frame_fence_spec()
                &&& final(self).frame_counter_spec() == old(self).frame_counter_spec()
            },
    {
        let (w, h) = match platform_extent {
            Some(e) => e,
            None => (width, height),
        };
        match outcome {
            RecreateOutcome::UnsupportedDimensions => {},
            RecreateOutcome::Recreated { images } => {
                let handle = ctx.alloc_handle();
                self.pipeline.resize(ctx, &images, w, h);
                self.swapchain = Swapchain { handle, images, width: w, height: h };
            },
        }
    }

    pub fn swapchain(&self) -> (s: &Swapchain)
        ensures
            *s == self.swapchain_spec(),
    {
        &self.swapchain
    }

    pub fn pipeline(&self) -> (p: &DeferredPipeline)
        ensures
            *p == self.pipeline_spec(),
    {
        &self.pipeline
    }

    /// How many frames this surface has submitted.
    pub fn frame_counter(&self) -> (n: u64)
        ensures
            n == self.frame_counter_spec(),
    {
        self.frame_counter
    }
}

/// One resize request as the round-trip law sees it: the caller's extent,
/// what the platform reported, and whether the backend recreated the
/// swapchain (with which images) or transiently rejected the request.
pub struct ResizeEvent {
    pub width: u32,
    pub height: u32,
    pub platform_extent: Option<(u32, u32)>,
    pub new_images: Option<Seq<Image>>,
}

/// The shape of a surface that the resize round-trip law tracks: the
/// swapchain's image handles and extent, and the pipeline's framebuffer
/// targets and attachment extent.
pub struct SurfaceShape {
    pub image_handles: Seq<u64>,
    pub fb_attachments: Seq<u64>,
    pub pipeline_extent: (u32, u32),
    pub swapchain_extent: (u32, u32),
}

/// A surface shape is well formed when the pipeline mirrors the swapchain
/// exactly: one framebuffer per image, targeting it, at the same extent.
pub open spec fn shape_wf(s: SurfaceShape) -> bool {
    &&& s.fb_attachments == s.image_handles
    &&& s.pipeline_extent == s.swapchain_extent
}

/// What one resize event does to the shape; mirrors `Surface::resize`: a
/// rejected recreation changes nothing, an applied one installs the new
/// image set at the chosen extent and rebuilds the framebuffers for it.
pub open spec fn apply_resize(s: SurfaceShape, e: ResizeEvent) -> SurfaceShape {
    match e.new_images {
        None => s,
        Some(images) => SurfaceShape {
            image_handles: images.map_values(|i: Image| i.handle),
            fb_attachments: images.map_values(|i: Image| i.handle),
            pipeline_extent: chosen_extent(e.width, e.height, e.platform_extent),
            swapchain_extent: chosen_extent(e.width, e.height, e.platform_extent),
        },
    }
}

pub open spec fn apply_resizes(s: SurfaceShape, evs: Seq<ResizeEvent>) -> SurfaceShape
    decreases evs.len(),
{
    if evs.len() == 0 {
        s
    } else {
        apply_resize(apply_resizes(s, evs.drop_last()), evs.last())
    }
}

/// The most recently applied extent: the chosen extent of the last event
/// whose recreation succeeded, or the starting extent while none did.
pub open spec fn last_applied_extent(initial: (u32, u32), evs: Seq<ResizeEvent>) -> (u32, u32)
    decreases evs.len(),
{
    if evs.len() == 0 {
        initial
    } else {
        match evs.last().new_images {
            Some(_) => chosen_extent(
                evs.last().width,
                evs.last().height,
                evs.last().platform_extent,
            ),
            None => last_applied_extent(initial, evs.drop_last()),
        }
    }
}

/// Swapchain resize round-trip: after any sequence of resize events, the
/// pipeline's framebuffers still match the swapchain's current image set
/// one for one, and the G-buffer attachment extent equals the most
/// recently successfully-applied extent.
pub proof fn lemma_swapchain_resize_round_trip(s: SurfaceShape, evs: Seq<ResizeEvent>)
    requires
        shape_wf(s),
    ensures
        shape_wf(apply_resizes(s, evs)),
        apply_resizes(s, evs).pipeline_extent == last_applied_extent(s.swapchain_extent, evs),
    decreases evs.len(),
{
    if evs.len() > 0 {
        lemma_swapchain_resize_round_trip(s, evs.drop_last());
    }
}

} // verus!
