pub mod deferred;
pub mod forward;

use vstd::prelude::*;
use crate::direct_light::DirectLight;
use crate::mesh::{coherent, desc_of, MeshInner};
use crate::mesh_data::PrimitiveTopology;
use crate::transform::Transform;

verus! {

/// One recorded command of a frame's command buffer.
pub enum Command {
    /// Begin the render pass against one framebuffer.
    BeginPass { framebuffer: u64 },
    /// Geometry subpass: one indexed draw of a mesh's range, under its
    /// material descriptor (one bound image handle per layer) and its
    /// transform.
    DrawMesh {
        topology: PrimitiveTopology,
        mesh_data: u64,
        first_index: usize,
        end_index: usize,
        desc: Vec<u64>,
        transform: Transform,
    },
    /// Advance to the next subpass.
    NextSubpass,
    /// Lighting subpass: one additive full-screen draw for a light, reading
    /// the G-buffer attachments.
    DrawLight { light: DirectLight, gbuffers: Vec<u64> },
    /// Composite subpass: the final full-screen draw, reading the G-buffer
    /// attachments and the scene's skybox descriptor.
    DrawComposite { exposure: u32, skybox: u64, gbuffers: Vec<u64> },
    /// End the render pass.
    EndPass,
}

/// Spec-level form of a command.
pub enum CommandView {
    BeginPass { framebuffer: u64 },
    DrawMesh {
        topology: PrimitiveTopology,
        mesh_data: u64,
        first_index: usize,
        end_index: usize,
        desc: Seq<u64>,
        transform: Transform,
    },
    NextSubpass,
    DrawLight { light: DirectLight, gbuffers: Seq<u64> },
    DrawComposite { exposure: u32, skybox: u64, gbuffers: Seq<u64> },
    EndPass,
}

impl View for Command {
    type V = CommandView;

    open spec fn view(&self) -> CommandView {
        match self {
            Command::BeginPass { framebuffer } => CommandView::BeginPass {
                framebuffer: *framebuffer,
            },
            Command::DrawMesh { topology, mesh_data, first_index, end_index, desc, transform } => {
                CommandView::DrawMesh {
                    topology: *topology,
                    mesh_data: *mesh_data,
                    first_index: *first_index,
                    end_index: *end_index,
                    desc: desc@,
                    transform: *transform,
                }
            },
            Command::NextSubpass => CommandView::NextSubpass,
            Command::DrawLight { light, gbuffers } => CommandView::DrawLight {
                light: *light,
                gbuffers: gbuffers@,
            },
            Command::DrawComposite { exposure, skybox, gbuffers } => CommandView::DrawComposite {
                exposure: *exposure,
                skybox: *skybox,
                gbuffers: gbuffers@,
            },
            Command::EndPass => CommandView::EndPass,
        }
    }
}

/// A fully recorded, not yet submitted command buffer.
pub struct CommandBuffer {
    pub commands: Vec<Command>,
}

/// The spec-level form of a recorded command list.
pub open spec fn cmd_views(s: Seq<Command>) -> Seq<CommandView> {
    s.map_values(|c: Command| c@)
}

pub proof fn lemma_cmd_views_push(s: Seq<Command>, c: Command)
    ensures
        cmd_views(s.push(c)) =~= cmd_views(s).push(c@),
{
    assert forall|i: int| 0 <= i < s.len() + 1 implies cmd_views(s.push(c))[i] == cmd_views(
        s,
    ).push(c@)[i] by {
        if i < s.len() {
            assert(s.push(c)[i] == s[i]);
        } else {
            assert(s.push(c)[i] == c);
        }
    }
}

impl View for CommandBuffer {
    type V = Seq<CommandView>;

    open spec fn view(&self) -> Seq<CommandView> {
        cmd_views(self.commands@)
    }
}

/// The geometry-subpass command one mesh contributes: nothing while it has
/// no mesh data, else one indexed draw of its range under its current
/// descriptor.
pub open spec fn geom_cmd_of(m: crate::mesh::MeshView) -> Seq<CommandView> {
    match m.mesh_data {
        Some(md) => seq![
            CommandView::DrawMesh {
                topology: md.topology_spec(),
                mesh_data: md.handle_spec(),
                first_index: m.range_start,
                end_index: m.range_end,
                desc: m.desc,
                transform: m.transform,
            },
        ],
        None => Seq::empty(),
    }
}

/// The geometry-subpass commands of the meshes, in registry order.
pub open spec fn geom_cmds(meshes: Seq<MeshInner>) -> Seq<CommandView>
    decreases meshes.len(),
{
    if meshes.len() == 0 {
        Seq::empty()
    } else {
        geom_cmds(meshes.drop_last()) + geom_cmd_of(meshes.last()@)
    }
}

/// No frame draws a stale descriptor: when every mesh's bindings are
/// coherent (as they are right after the refresh that precedes recording),
/// every geometry draw the frame records binds exactly the images of the
/// textures assigned to some mesh at record time — never those of a
/// replaced texture.
pub proof fn lemma_no_stale_descriptor_recorded(meshes: Seq<MeshInner>)
    requires
        forall|i: int| 0 <= i < meshes.len() ==> coherent((#[trigger] meshes[i]).bindings()),
    ensures
        forall|j: int|
            0 <= j < geom_cmds(meshes).len() ==> match #[trigger] geom_cmds(meshes)[j] {
                CommandView::DrawMesh { desc, .. } => exists|i: int|
                    0 <= i < meshes.len() && desc == desc_of(
                        (#[trigger] meshes[i])@.textures,
                    ),
                _ => true,
            },
    decreases meshes.len(),
{
    if meshes.len() > 0 {
        let prefix = meshes.drop_last();
        assert forall|i: int| 0 <= i < prefix.len() implies coherent(
            (#[trigger] prefix[i]).bindings(),
        ) by {
            assert(prefix[i] == meshes[i]);
        }
        lemma_no_stale_descriptor_recorded(prefix);
        let last = meshes.last();
        assert forall|j: int| 0 <= j < geom_cmds(meshes).len() implies match #[trigger] geom_cmds(
            meshes,
        )[j] {
            CommandView::DrawMesh { desc, .. } => exists|i: int|
                0 <= i < meshes.len() && desc == desc_of((#[trigger] meshes[i])@.textures),
            _ => true,
        } by {
            if j < geom_cmds(prefix).len() {
                assert(geom_cmds(meshes)[j] == geom_cmds(prefix)[j]);
                match geom_cmds(prefix)[j] {
                    CommandView::DrawMesh { desc, .. } => {
                        let i = choose|i: int|
                            0 <= i < prefix.len() && desc == desc_of(
                                (#[trigger] prefix[i])@.textures,
                            );
                        assert(meshes[i] == prefix[i]);
                        assert(desc == desc_of(meshes[i]@.textures));
                    },
                    _ => {},
                }
            } else {
                match last@.mesh_data {
                    Some(_) => {
                        assert(geom_cmds(meshes)[j] == geom_cmd_of(last@)[0]);
                        assert(coherent(last.bindings()));
                        assert(last@.desc =~= desc_of(last@.textures));
                        assert(meshes[meshes.len() - 1] == last);
                        assert(last@.desc == desc_of(meshes[meshes.len() - 1]@.textures));
                    },
                    None => {},
                }
            }
        }
    }
}

/// The lighting-subpass commands: one draw per light, in order.
pub open spec fn light_cmds(lights: Seq<DirectLight>, gbuffers: Seq<u64>) -> Seq<CommandView>
    decreases lights.len(),
{
    if lights.len() == 0 {
        Seq::empty()
    } else {
        light_cmds(lights.drop_last(), gbuffers) + seq![
            CommandView::DrawLight { light: lights.last(), gbuffers },
        ]
    }
}

/// The complete command sequence of one frame: the geometry subpass draws
/// every mesh of the group, then the lighting subpass draws every light,
/// then the composite subpass writes the swapchain image once.
pub open spec fn draw_commands(
    framebuffer: u64,
    meshes: Seq<MeshInner>,
    lights: Seq<DirectLight>,
    gbuffers: Seq<u64>,
    skybox: u64,
    exposure: u32,
) -> Seq<CommandView> {
    seq![CommandView::BeginPass { framebuffer }] + geom_cmds(meshes) + seq![
        CommandView::NextSubpass,
    ] + light_cmds(lights, gbuffers) + seq![
        CommandView::NextSubpass,
        CommandView::DrawComposite { exposure, skybox, gbuffers },
        CommandView::EndPass,
    ]
}

} // verus!
