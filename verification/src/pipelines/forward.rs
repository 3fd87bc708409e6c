use vstd::prelude::*;
use crate::camera::Camera;
use crate::mesh::MeshInner;
use crate::mesh_group::MeshGroup;
use crate::pipelines::{cmd_views, lemma_cmd_views_push, Command, CommandBuffer, CommandView};
use crate::surface::SWAP_FORMAT;
use crate::texture::{Image, PixelFormat};
use crate::Context;

verus! {

pub const FORWARD_DEPTH_FORMAT: PixelFormat = PixelFormat::D32Sfloat;

/// The forward pipeline definition: a depth prepass over its own depth
/// attachment, then one shaded pass straight to the swapchain image. The
/// simpler sibling of the deferred pipeline, kept for targets where the
/// G-buffer is too expensive.
pub struct ForwardPipelineDef;

impl ForwardPipelineDef {
    /// Build the per-device pipeline context: the two render passes and
    /// the shared shader layout.
    pub fn make_context(ctx: &mut Context) -> (r: ForwardPipelineContext)
        requires
            old(ctx).next_handle_spec() + 3 <= u64::MAX,
        ensures
            final(ctx).next_handle_spec() == old(ctx).next_handle_spec() + 3,
            final(ctx).device_spec() == old(ctx).device_spec(),
            final(ctx).queue_spec() == old(ctx).queue_spec(),
    {
        ForwardPipelineContext::new(ctx)
    }
}

/// Per-device state of the forward pipeline: the depth and swap render
/// passes and the shader pipeline layout.
pub struct ForwardPipelineContext {
    depth_pass: u64,
    swap_pass: u64,
    layout_desc: u64,
}

impl ForwardPipelineContext {
    pub closed spec fn layout_desc_spec(self) -> u64 {
        self.layout_desc
    }

    pub(crate) fn new(ctx: &mut Context) -> (r: Self)
        requires
            old(ctx).next_handle_spec() + 3 <= u64::MAX,
        ensures
            final(ctx).next_handle_spec() == old(ctx).next_handle_spec() + 3,
            final(ctx).device_spec() == old(ctx).device_spec(),
            final(ctx).queue_spec() == old(ctx).queue_spec(),
    {
        let depth_pass = ctx.alloc_handle();
        let swap_pass = ctx.alloc_handle();
        let layout_desc = ctx.alloc_handle();
        ForwardPipelineContext { depth_pass, swap_pass, layout_desc }
    }

    pub fn layout_desc(&self) -> (r: u64)
        ensures
            r == self.layout_desc_spec(),
    {
        self.layout_desc
    }

    /// Build the per-swapchain pipeline: the depth attachment and its
    /// framebuffer, one swapchain framebuffer per image, and the two
    /// graphics pipeline objects.
    pub fn make_pipeline(
        &self,
        ctx: &mut Context,
        images: &Vec<Image>,
        width: u32,
        height: u32,
    ) -> (p: ForwardPipeline)
        requires
            old(ctx).next_handle_spec() + 4 + images@.len() <= u64::MAX,
        ensures
            p.wf(),
            p.width_spec() == width,
            p.height_spec() == height,
            p.framebuffers_spec().len() == images@.len(),
            forall|i: int|
                0 <= i < images@.len() ==> #[trigger] p.framebuffers_spec()[i]
                    == images@[i].handle,
            final(ctx).next_handle_spec() == old(ctx).next_handle_spec() + 4 + images@.len(),
            final(ctx).device_spec() == old(ctx).device_spec(),
            final(ctx).queue_spec() == old(ctx).queue_spec(),
    {
        ForwardPipeline::new(ctx, images, width, height)
    }
}

/// The geometry command one mesh contributes to a forward pass: the
/// forward shaders bind no material descriptor, so the draw carries only
/// the mesh's range and transform.
pub open spec fn forward_cmd_of(m: crate::mesh::MeshView) -> Seq<CommandView> {
    match m.mesh_data {
        Some(md) => seq![
            CommandView::DrawMesh {
                topology: md.topology_spec(),
                mesh_data: md.handle_spec(),
                first_index: m.range_start,
                end_index: m.range_end,
                desc: Seq::empty(),
                transform: m.transform,
            },
        ],
        None => Seq::empty(),
    }
}

pub open spec fn forward_cmds(meshes: Seq<MeshInner>) -> Seq<CommandView>
    decreases meshes.len(),
{
    if meshes.len() == 0 {
        Seq::empty()
    } else {
        forward_cmds(meshes.drop_last()) + forward_cmd_of(meshes.last()@)
    }
}

/// The full forward frame: the depth prepass draws every mesh into the
/// depth framebuffer, then the shaded pass draws every mesh again into
/// the acquired swapchain framebuffer.
pub open spec fn forward_draw_commands(
    depth_framebuffer: u64,
    framebuffer: u64,
    meshes: Seq<MeshInner>,
) -> Seq<CommandView> {
    seq![CommandView::BeginPass { framebuffer: depth_framebuffer }] + forward_cmds(meshes) + seq![
        CommandView::EndPass,
        CommandView::BeginPass { framebuffer },
    ] + forward_cmds(meshes) + seq![CommandView::EndPass]
}

/// The per-swapchain forward pipeline.
pub struct ForwardPipeline {
    depth_pipeline: u64,
    pipeline: u64,
    depth_image: Image,
    depth_framebuffer: u64,
    framebuffers: Vec<u64>,
    width: u32,
    height: u32,
}

impl ForwardPipeline {
    pub closed spec fn depth_image_spec(self) -> Image {
        self.depth_image
    }

    pub closed spec fn depth_framebuffer_spec(self) -> u64 {
        self.depth_framebuffer
    }

    /// The color attachment handle of each swapchain framebuffer.
    pub closed spec fn framebuffers_spec(self) -> Seq<u64> {
        self.framebuffers@
    }

    pub closed spec fn width_spec(self) -> u32 {
        self.width
    }

    pub closed spec fn height_spec(self) -> u32 {
        self.height
    }

    /// The depth attachment has the pipeline's extent and format.
    pub open spec fn wf(self) -> bool {
        &&& self.depth_image_spec().width == self.width_spec()
        &&& self.depth_image_spec().height == self.height_spec()
        &&& self.depth_image_spec().format == FORWARD_DEPTH_FORMAT
    }

    pub(crate) fn new(ctx: &mut Context, images: &Vec<Image>, width: u32, height: u32) -> (p: Self)
        requires
            old(ctx).next_handle_spec() + 4 + images@.len() <= u64::MAX,
        ensures
            p.wf(),
            p.width_spec() == width,
            p.height_spec() == height,
            p.framebuffers_spec().len() == images@.len(),
            forall|i: int|
                0 <= i < images@.len() ==> #[trigger] p.framebuffers_spec()[i]
                    == images@[i].handle,
            final(ctx).next_handle_spec() == old(ctx).next_handle_spec() + 4 + images@.len(),
            final(ctx).device_spec() == old(ctx).device_spec(),
            final(ctx).queue_spec() == old(ctx).queue_spec(),
    {
        let depth_pipeline = ctx.alloc_handle();
        let pipeline = ctx.alloc_handle();
        let depth_image = Image {
            handle: ctx.alloc_handle(),
            width,
            height,
            format: FORWARD_DEPTH_FORMAT,
        };
        let depth_framebuffer = ctx.alloc_handle();
        let n = images.len();
        let mut framebuffers: Vec<u64> = Vec::new();
        for i in 0..n
            invariant
                framebuffers@.len() == i,
                forall|j: int| 0 <= j < i ==> #[trigger] framebuffers@[j] == images@[j].handle,
                ctx.next_handle_spec() == old(ctx).next_handle_spec() + 4 + i,
                ctx.device_spec() == old(ctx).device_spec(),
                ctx.queue_spec() == old(ctx).queue_spec(),
        {
            let _fb = ctx.alloc_handle();
            framebuffers.push(images[i].handle);
        }
        ForwardPipeline {
            depth_pipeline,
            pipeline,
            depth_image,
            depth_framebuffer,
            framebuffers,
            width,
            height,
        }
    }

    /// Record one forward frame: the depth prepass draws every mesh that
    /// has data, then the shaded pass draws them again into the acquired
    /// swapchain image.
    pub fn draw(&self, image_num: usize, _cam: &Camera, group: &MeshGroup) -> (cb: CommandBuffer)
        requires
            image_num < self.framebuffers_spec().len(),
        ensures
            cb@ == forward_draw_commands(
                self.depth_framebuffer_spec(),
                self.framebuffers_spec()[image_num as int],
                group.meshes_spec(),
            ),
    {
        let mut cmds: Vec<Command> = Vec::new();
        let begin_depth = Command::BeginPass { framebuffer: self.depth_framebuffer };
        proof {
            lemma_cmd_views_push(cmds@, begin_depth);
        }
        cmds.push(begin_depth);
        let ghost prefix0 = seq![
            CommandView::BeginPass { framebuffer: self.depth_framebuffer_spec() },
        ];
        proof {
            assert(cmd_views(cmds@) =~= prefix0);
        }
        record_forward_meshes(&mut cmds, group, Ghost(prefix0));

        let end_depth = Command::EndPass;
        proof {
            lemma_cmd_views_push(cmds@, end_depth);
        }
        cmds.push(end_depth);
        let begin_swap = Command::BeginPass { framebuffer: self.framebuffers[image_num] };
        proof {
            lemma_cmd_views_push(cmds@, begin_swap);
        }
        cmds.push(begin_swap);
        let ghost prefix1 = prefix0 + forward_cmds(group.meshes_spec()) + seq![
            CommandView::EndPass,
            CommandView::BeginPass { framebuffer: self.framebuffers_spec()[image_num as int] },
        ];
        proof {
            assert(cmd_views(cmds@) =~= prefix1);
        }
        record_forward_meshes(&mut cmds, group, Ghost(prefix1));
        proof {
            lemma_cmd_views_push(cmds@, Command::EndPass);
        }
        cmds.push(Command::EndPass);

        let cb = CommandBuffer { commands: cmds };
        proof {
            assert(cb@ =~= forward_draw_commands(
                self.depth_framebuffer_spec(),
                self.framebuffers_spec()[image_num as int],
                group.meshes_spec(),
            ));
        }
        cb
    }

    /// Rebuild the depth attachment, framebuffers and pipelines for a new
    /// swapchain image set and extent.
    pub fn resize(&mut self, ctx: &mut Context, images: &Vec<Image>, width: u32, height: u32)
        requires
            old(ctx).next_handle_spec() + 4 + images@.len() <= u64::MAX,
        ensures
            final(self).wf(),
            final(self).width_spec() == width,
            final(self).height_spec() == height,
            final(self).framebuffers_spec().len() == images@.len(),
            final(ctx).next_handle_spec() == old(ctx).next_handle_spec() + 4 + images@.len(),
            final(ctx).device_spec() == old(ctx).device_spec(),
            final(ctx).queue_spec() == old(ctx).queue_spec(),
    {
        let p = ForwardPipeline::new(ctx, images, width, height);
        *self = p;
    }
}

/// Record the forward draw of every mesh of the group, in registry order.
fn record_forward_meshes(cmds: &mut Vec<Command>, group: &MeshGroup, Ghost(prefix): Ghost<
    Seq<CommandView>,
>)
    requires
        cmd_views(old(cmds)@) == prefix,
    ensures
        cmd_views(final(cmds)@) == prefix + forward_cmds(group.meshes_spec()),
{
    let n = group.len();
    for i in 0..n
        invariant
            cmd_views(cmds@) =~= prefix + forward_cmds(group.meshes_spec().take(i as int)),
    {
        let m = group.mesh_at(i);
        match m.mesh_data() {
            Some(md) => {
                let r = m.range();
                let cmd = Command::DrawMesh {
                    topology: md.topology(),
                    mesh_data: md.handle(),
                    first_index: r.0,
                    end_index: r.1,
                    desc: Vec::new(),
                    transform: m.transform(),
                };
                proof {
                    assert(cmd@ == forward_cmd_of(group.meshes_spec()[i as int]@)[0]);
                    lemma_cmd_views_push(cmds@, cmd);
                }
                cmds.push(cmd);
            },
            None => {},
        }
        proof {
            let taken = group.meshes_spec().take(i as int + 1);
            assert(taken.drop_last() =~= group.meshes_spec().take(i as int));
            assert(taken.last() == group.meshes_spec()[i as int]);
            assert(cmd_views(cmds@) =~= prefix + forward_cmds(taken));
        }
    }
    proof {
        assert(group.meshes_spec().take(n as int) =~= group.meshes_spec());
    }
}

} // verus!
