use vstd::prelude::*;
use crate::camera::Camera;
use crate::direct_light::DirectLight;
use crate::mesh::MeshView;
use crate::mesh_group::MeshGroup;
use crate::pipelines::{
    cmd_views, draw_commands, geom_cmd_of, geom_cmds, lemma_cmd_views_push, light_cmds, Command,
    CommandBuffer, CommandView,
};
use crate::texture::{Image, PixelFormat};
use crate::Context;

verus! {

pub const DEPTH_FORMAT: PixelFormat = PixelFormat::D32Sfloat;

pub const COLOR_FORMAT: PixelFormat = PixelFormat::A2b10g10r10Unorm;

pub const POSITION_FORMAT: PixelFormat = PixelFormat::R32g32b32a32Sfloat;

pub const NORMAL_FORMAT: PixelFormat = PixelFormat::R32g32b32a32Sfloat;

pub const LIGHT_FORMAT: PixelFormat = PixelFormat::R32g32b32a32Sfloat;

/// The deferred pipeline definition: three subpasses over a fixed G-buffer
/// layout (geometry, lighting accumulation, composite).
pub struct DeferredPipelineDef;

impl DeferredPipelineDef {
    /// Build the per-device pipeline context: render pass, shader layouts
    /// and the full-screen quad.
    pub fn make_context(ctx: &mut Context) -> (r: DeferredPipelineContext)
        requires
            old(ctx).next_handle_spec() + 6 <= u64::MAX,
        ensures
            final(ctx).next_handle_spec() == old(ctx).next_handle_spec() + 6,
            final(ctx).device_spec() == old(ctx).device_spec(),
            final(ctx).queue_spec() == old(ctx).queue_spec(),
    {
        DeferredPipelineContext::new(ctx)
    }
}

/// Per-device state shared by every window's pipeline: the render-pass
/// object, the three shader pipeline layouts, and the full-screen quad's
/// vertex and index buffers.
pub struct DeferredPipelineContext {
    render_pass: u64,
    layout_desc: u64,
    swap_layout_desc: u64,
    light_layout_desc: u64,
    quad_vertices: u64,
    quad_indices: u64,
}

impl DeferredPipelineContext {
    pub closed spec fn layout_desc_spec(self) -> u64 {
        self.layout_desc
    }

    pub(crate) fn new(ctx: &mut Context) -> (r: Self)
        requires
            old(ctx).next_handle_spec() + 6 <= u64::MAX,
        ensures
            final(ctx).next_handle_spec() == old(ctx).next_handle_spec() + 6,
            final(ctx).device_spec() == old(ctx).device_spec(),
            final(ctx).queue_spec() == old(ctx).queue_spec(),
    {
        let render_pass = ctx.alloc_handle();
        let layout_desc = ctx.alloc_handle();
        let swap_layout_desc = ctx.alloc_handle();
        let light_layout_desc = ctx.alloc_handle();
        let quad_vertices = ctx.alloc_handle();
        let quad_indices = ctx.alloc_handle();
        DeferredPipelineContext {
            render_pass,
            layout_desc,
            swap_layout_desc,
            light_layout_desc,
            quad_vertices,
            quad_indices,
        }
    }

    /// The geometry pass's pipeline layout, which mesh descriptors are
    /// built against.
    pub fn layout_desc(&self) -> (r: u64)
        ensures
            r == self.layout_desc_spec(),
    {
        self.layout_desc
    }

    /// Build the per-swapchain pipeline: G-buffer attachments sized to the
    /// extent, one framebuffer per output image, and the four graphics
    /// pipeline objects.
    pub fn make_pipeline(
        &self,
        ctx: &mut Context,
        images: &Vec<Image>,
        width: u32,
        height: u32,
    ) -> (p: DeferredPipeline)
        requires
            old(ctx).next_handle_spec() + 9 + images@.len() <= u64::MAX,
        ensures
            p.wf(),
            p.width_spec() == width,
            p.height_spec() == height,
            p.framebuffers_spec().len() == images@.len(),
            forall|i: int|
                0 <= i < images@.len() ==> (#[trigger] p.framebuffers_spec()[i]).color_attachment
                    == images@[i].handle,
            final(ctx).next_handle_spec() == old(ctx).next_handle_spec() + 9 + images@.len(),
            final(ctx).device_spec() == old(ctx).device_spec(),
            final(ctx).queue_spec() == old(ctx).queue_spec(),
    {
        DeferredPipeline::new(ctx, images, width, height)
    }
}

/// The G-buffer attachments of one pipeline, all sized to the same extent.
pub struct GBuffers {
    pub depth: Image,
    pub diffuse: Image,
    pub normal: Image,
    pub position: Image,
    pub light: Image,
}

/// What the G-buffer input descriptor binds: the five attachments in
/// layout order.
pub open spec fn gbuffers_desc_of(g: GBuffers) -> Seq<u64> {
    seq![g.depth.handle, g.diffuse.handle, g.normal.handle, g.position.handle, g.light.handle]
}

/// One framebuffer: the five G-buffer attachments plus one swapchain image
/// as the color output.
#[derive(Clone, Copy, Debug, PartialEq, Eq, Structural)]
pub struct Framebuffer {
    pub handle: u64,
    pub color_attachment: u64,
}

/// Allocate the five G-buffer attachment images at the given extent.
fn create_gbuffers(ctx: &mut Context, width: u32, height: u32) -> (g: GBuffers)
    requires
        old(ctx).next_handle_spec() + 5 <= u64::MAX,
    ensures
        gbuffers_wf(g, width, height),
        final(ctx).next_handle_spec() == old(ctx).next_handle_spec() + 5,
        final(ctx).device_spec() == old(ctx).device_spec(),
        final(ctx).queue_spec() == old(ctx).queue_spec(),
{
    let depth = Image { handle: ctx.alloc_handle(), width, height, format: DEPTH_FORMAT };
    let diffuse = Image { handle: ctx.alloc_handle(), width, height, format: COLOR_FORMAT };
    let normal = Image { handle: ctx.alloc_handle(), width, height, format: NORMAL_FORMAT };
    let position = Image { handle: ctx.alloc_handle(), width, height, format: POSITION_FORMAT };
    let light = Image { handle: ctx.alloc_handle(), width, height, format: LIGHT_FORMAT };
    GBuffers { depth, diffuse, normal, position, light }
}

/// Every attachment has the pipeline's extent and its fixed format.
pub open spec fn gbuffers_wf(g: GBuffers, width: u32, height: u32) -> bool {
    &&& g.depth.width == width && g.depth.height == height && g.depth.format == DEPTH_FORMAT
    &&& g.diffuse.width == width && g.diffuse.height == height && g.diffuse.format == COLOR_FORMAT
    &&& g.normal.width == width && g.normal.height == height && g.normal.format == NORMAL_FORMAT
    &&& g.position.width == width && g.position.height == height && g.position.format
        == POSITION_FORMAT
    &&& g.light.width == width && g.light.height == height && g.light.format == LIGHT_FORMAT
}

/// Build one framebuffer per output image over the shared G-buffers.
fn create_framebuffers(ctx: &mut Context, images: &Vec<Image>) -> (fbs: Vec<Framebuffer>)
    requires
        old(ctx).next_handle_spec() + images@.len() <= u64::MAX,
    ensures
        fbs@.len() == images@.len(),
        forall|i: int|
            0 <= i < images@.len() ==> (#[trigger] fbs@[i]).color_attachment == images@[i].handle,
        final(ctx).next_handle_spec() == old(ctx).next_handle_spec() + images@.len(),
        final(ctx).device_spec() == old(ctx).device_spec(),
        final(ctx).queue_spec() == old(ctx).queue_spec(),
{
    let n = images.len();
    let mut fbs: Vec<Framebuffer> = Vec::new();
    for i in 0..n
        invariant
            fbs@.len() == i,
            forall|j: int|
                0 <= j < i ==> (#[trigger] fbs@[j]).color_attachment == images@[j].handle,
            ctx.next_handle_spec() == old(ctx).next_handle_spec() + i,
            ctx.device_spec() == old(ctx).device_spec(),
            ctx.queue_spec() == old(ctx).queue_spec(),
    {
        let handle = ctx.alloc_handle();
        fbs.push(Framebuffer { handle, color_attachment: images[i].handle });
    }
    fbs
}

/// Bind the five G-buffer attachments as the lighting and composite
/// subpasses' input descriptor.
fn make_gbuffers_desc(g: &GBuffers) -> (d: Vec<u64>)
    ensures
        d@ == gbuffers_desc_of(*g),
{
    let mut d: Vec<u64> = Vec::new();
    d.push(g.depth.handle);
    d.push(g.diffuse.handle);
    d.push(g.normal.handle);
    d.push(g.position.handle);
    d.push(g.light.handle);
    assert(d@ =~= gbuffers_desc_of(*g));
    d
}

/// Copy a descriptor's bound handles into a command.
fn copy_handles(v: &Vec<u64>) -> (r: Vec<u64>)
    ensures
        r@ == v@,
{
    let n = v.len();
    let mut r: Vec<u64> = Vec::new();
    for i in 0..n
        invariant
            r@ =~= v@.take(i as int),
    {
        r.push(v[i]);
    }
    assert(r@ =~= v@);
    r
}

/// Every registered mesh's draw range lies inside its index buffer; the
/// frame would otherwise be unrecordable.
pub open spec fn group_ranges_valid(g: MeshGroup) -> bool {
    forall|i: int|
        0 <= i < g.meshes_spec().len() ==> match (#[trigger] g.meshes_spec()[i])@.mesh_data {
            Some(md) => g.meshes_spec()[i]@.range_end <= md.indices_spec().len_spec(),
            None => true,
        }
}

/// The per-swapchain deferred pipeline: the four graphics pipeline
/// objects, the G-buffer attachments, one framebuffer per swapchain image
/// and the descriptor binding the attachments for the later subpasses.
pub struct DeferredPipeline {
    geom_pipeline_soup: u64,
    geom_pipeline_strip: u64,
    light_pipeline: u64,
    swap_pipeline: u64,
    gbuffers: GBuffers,
    framebuffers: Vec<Framebuffer>,
    gbuffers_desc: Vec<u64>,
    width: u32,
    height: u32,
}

impl DeferredPipeline {
    pub closed spec fn gbuffers_spec(self) -> GBuffers {
        self.gbuffers
    }

    pub closed spec fn framebuffers_spec(self) -> Seq<Framebuffer> {
        self.framebuffers@
    }

    pub closed spec fn gbuffers_desc_spec(self) -> Seq<u64> {
        self.gbuffers_desc@
    }

    pub closed spec fn width_spec(self) -> u32 {
        self.width
    }

    pub closed spec fn height_spec(self) -> u32 {
        self.height
    }

    /// The G-buffer attachments match the pipeline's extent and the input
    /// descriptor binds exactly them.
    pub open spec fn wf(self) -> bool {
        &&& gbuffers_wf(self.gbuffers_spec(), self.width_spec(), self.height_spec())
        &&& self.gbuffers_desc_spec() == gbuffers_desc_of(self.gbuffers_spec())
    }

    pub(crate) fn new(ctx: &mut Context, images: &Vec<Image>, width: u32, height: u32) -> (p: Self)
        requires
            old(ctx).next_handle_spec() + 9 + images@.len() <= u64::MAX,
        ensures
            p.wf(),
            p.width_spec() == width,
            p.height_spec() == height,
            p.framebuffers_spec().len() == images@.len(),
            forall|i: int|
                0 <= i < images@.len() ==> (#[trigger] p.framebuffers_spec()[i]).color_attachment
                    == images@[i].handle,
            final(ctx).next_handle_spec() == old(ctx).next_handle_spec() + 9 + images@.len(),
            final(ctx).device_spec() == old(ctx).device_spec(),
            final(ctx).queue_spec() == old(ctx).queue_spec(),
    {
        let geom_pipeline_soup = ctx.alloc_handle();
        let geom_pipeline_strip = ctx.alloc_handle();
        let light_pipeline = ctx.alloc_handle();
        let swap_pipeline = ctx.alloc_handle();
        let gbuffers = create_gbuffers(ctx, width, height);
        let framebuffers = create_framebuffers(ctx, images);
        let gbuffers_desc = make_gbuffers_desc(&gbuffers);
        DeferredPipeline {
            geom_pipeline_soup,
            geom_pipeline_strip,
            light_pipeline,
            swap_pipeline,
            gbuffers,
            framebuffers,
            gbuffers_desc,
            width,
            height,
        }
    }

    pub fn framebuffer_count(&self) -> (n: usize)
        ensures
            n == self.framebuffers_spec().len(),
    {
        self.framebuffers.len()
    }

    pub fn dimensions(&self) -> (d: (u32, u32))
        ensures
            d.0 == self.width_spec(),
            d.1 == self.height_spec(),
    {
        (self.width, self.height)
    }

    /// Record one frame: refresh every mesh's descriptors, then the
    /// geometry subpass draws each mesh that has data, the lighting
    /// subpass draws each light additively over the G-buffer, and the
    /// composite subpass writes the acquired swapchain image once.
    pub fn draw(
        &self,
        image_num: usize,
        cam: &Camera,
        group: &mut MeshGroup,
        lights: &Vec<DirectLight>,
    ) -> (cb: CommandBuffer)
        requires
            self.wf(),
            image_num < self.framebuffers_spec().len(),
            old(group).wf(),
            group_ranges_valid(*old(group)),
        ensures
            final(group).wf(),
            final(group).next_id_spec() == old(group).next_id_spec(),
            final(group).skybox_spec() == old(group).skybox_spec(),
            final(group).white_pixel_spec() == old(group).white_pixel_spec(),
            final(group).meshes_spec().len() == old(group).meshes_spec().len(),
            forall|i: int|
                0 <= i < old(group).meshes_spec().len()
                    ==> (#[trigger] final(group).meshes_spec()[i])@ == (MeshView {
                    desc: crate::mesh::desc_of(old(group).meshes_spec()[i]@.textures),
                    ..old(group).meshes_spec()[i]@
                }),
            cb@ == draw_commands(
                self.framebuffers_spec()[image_num as int].handle,
                final(group).meshes_spec(),
                lights@,
                self.gbuffers_desc_spec(),
                old(group).skybox_spec(),
                cam.exposure_spec(),
            ),
    {
        group.refresh_all();

        let mut cmds: Vec<Command> = Vec::new();
        let begin_cmd = Command::BeginPass { framebuffer: self.framebuffers[image_num].handle };
        proof {
            lemma_cmd_views_push(cmds@, begin_cmd);
        }
        cmds.push(begin_cmd);
        let ghost begin = seq![
            CommandView::BeginPass {
                framebuffer: self.framebuffers_spec()[image_num as int].handle,
            },
        ];
        proof {
            assert(cmd_views(cmds@) =~= begin);
        }

        let n = group.len();
        for i in 0..n
            invariant
                cmd_views(cmds@) =~= begin + geom_cmds(group.meshes_spec().take(i as int)),
        {
            let ghost pre_cmds = cmds@;
            let m = group.mesh_at(i);
            match m.mesh_data() {
                Some(md) => {
                    let desc = copy_handles(m.desc());
                    let r = m.range();
                    let cmd = Command::DrawMesh {
                        topology: md.topology(),
                        mesh_data: md.handle(),
                        first_index: r.0,
                        end_index: r.1,
                        desc,
                        transform: m.transform(),
                    };
                    proof {
                        assert(cmd@ == geom_cmd_of(group.meshes_spec()[i as int]@)[0]);
                        lemma_cmd_views_push(cmds@, cmd);
                    }
                    cmds.push(cmd);
                },
                None => {},
            }
            proof {
                let taken = group.meshes_spec().take(i as int + 1);
                assert(taken.drop_last() =~= group.meshes_spec().take(i as int));
                assert(taken.last() == group.meshes_spec()[i as int]);
                assert(geom_cmds(taken) == geom_cmds(group.meshes_spec().take(i as int))
                    + geom_cmd_of(group.meshes_spec()[i as int]@));
                assert(cmd_views(cmds@) =~= begin + geom_cmds(taken));
            }
        }
        proof {
            assert(group.meshes_spec().take(n as int) =~= group.meshes_spec());
        }

        proof {
            lemma_cmd_views_push(cmds@, Command::NextSubpass);
        }
        cmds.push(Command::NextSubpass);

        let ghost prefix_geom = begin + geom_cmds(group.meshes_spec()) + seq![
            CommandView::NextSubpass,
        ];
        proof {
            assert(cmd_views(cmds@) =~= prefix_geom);
        }
        let nl = lights.len();
        for i in 0..nl
            invariant
                cmd_views(cmds@) =~= prefix_geom + light_cmds(
                    lights@.take(i as int),
                    self.gbuffers_desc_spec(),
                ),
        {
            let gb = copy_handles(&self.gbuffers_desc);
            let cmd = Command::DrawLight { light: lights[i], gbuffers: gb };
            proof {
                lemma_cmd_views_push(cmds@, cmd);
            }
            cmds.push(cmd);
            proof {
                let taken = lights@.take(i as int + 1);
                assert(taken.drop_last() =~= lights@.take(i as int));
                assert(taken.last() == lights@[i as int]);
                assert(cmd_views(cmds@) =~= prefix_geom + light_cmds(
                    taken,
                    self.gbuffers_desc_spec(),
                ));
            }
        }
        proof {
            assert(lights@.take(nl as int) =~= lights@);
        }

        proof {
            lemma_cmd_views_push(cmds@, Command::NextSubpass);
        }
        cmds.push(Command::NextSubpass);
        let gb = copy_handles(&self.gbuffers_desc);
        let composite = Command::DrawComposite {
            exposure: cam.exposure(),
            skybox: group.skybox(),
            gbuffers: gb,
        };
        proof {
            lemma_cmd_views_push(cmds@, composite);
        }
        cmds.push(composite);
        proof {
            lemma_cmd_views_push(cmds@, Command::EndPass);
        }
        cmds.push(Command::EndPass);

        let cb = CommandBuffer { commands: cmds };
        proof {
            assert(cb@ =~= draw_commands(
                self.framebuffers_spec()[image_num as int].handle,
                group.meshes_spec(),
                lights@,
                self.gbuffers_desc_spec(),
                group.skybox_spec(),
                cam.exposure_spec(),
            ));
        }
        cb
    }

    /// Tear down and rebuild the G-buffer attachments, framebuffers,
    /// pipelines and the attachment descriptor for a new swapchain image
    /// set and extent.
    pub fn resize(&mut self, ctx: &mut Context, images: &Vec<Image>, width: u32, height: u32)
        requires
            old(ctx).next_handle_spec() + 9 + images@.len() <= u64::MAX,
        ensures
            final(self).wf(),
            final(self).width_spec() == width,
            final(self).height_spec() == height,
            final(self).framebuffers_spec().len() == images@.len(),
            forall|i: int|
                0 <= i < images@.len()
                    ==> (#[trigger] final(self).framebuffers_spec()[i]).color_attachment
                    == images@[i].handle,
            final(ctx).next_handle_spec() == old(ctx).next_handle_spec() + 9 + images@.len(),
            final(ctx).device_spec() == old(ctx).device_spec(),
            final(ctx).queue_spec() == old(ctx).queue_spec(),
    {
        let p = DeferredPipeline::new(ctx, images, width, height);
        *self = p;
    }
}

} // verus!
