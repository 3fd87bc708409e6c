use nice_engine::camera::Camera;
use nice_engine::direct_light::DirectLight;
use nice_engine::game_graph::{GGIndexFormat, GGVertexFormat};
use nice_engine::game_graph_driver::{encode_indices_u32, MeshData_Alloc_Polygon};
use nice_engine::mesh::Mesh;
use nice_engine::mesh_data::{IndexBuffer, MeshData, PrimitiveTopology};
use nice_engine::mesh_group::MeshGroup;
use nice_engine::pipelines::Command;
use nice_engine::surface::{
    choose_present_mode, AcquireOutcome, DrawOutcome, PresentMode, RecreateOutcome, Surface,
    SWAP_FORMAT,
};
use nice_engine::texture::{Image, PixelFormat};
use nice_engine::Context;

fn swap_images(ctx: &mut Context, n: usize, w: u32, h: u32) -> Vec<Image> {
    // the backend's swapchain images, modelled with distinct handles
    let mut v = Vec::new();
    for _ in 0..n {
        let handle = 1_000_000 + ctx.device() + v.len() as u64 * 7 + w as u64 * 31 + h as u64;
        v.push(Image { handle, width: w, height: h, format: SWAP_FORMAT });
    }
    v
}

/// Index buffer round trip: a strip mesh built from N encoded 32-bit
/// indices decodes back to exactly those N indices, in order, with the
/// strip topology.
#[test]
fn index_buffer_round_trip_strip_32u() {
    let (mut ctx, _res, _pctx) = Context::new();
    let words: Vec<u32> = vec![7, 0, 8, 0xDEAD_BEEF, 9, u32::MAX];
    let bytes = encode_indices_u32(&words);
    assert_eq!(bytes.len(), 4 * words.len());
    let md = MeshData_Alloc_Polygon(
        &mut ctx,
        GGVertexFormat::VFMT_PNTL_32F,
        &vec![],
        GGIndexFormat::IFMT_STRIP_32U,
        &bytes,
    )
    .unwrap();
    assert_eq!(md.topology(), PrimitiveTopology::TriangleStrip);
    assert_eq!(md.indices().len(), words.len());
    match md.indices() {
        IndexBuffer::U32(v) => assert_eq!(v, &words),
        IndexBuffer::U16(_) => panic!("a 32-bit format keeps 32-bit indices"),
    }
}

#[test]
fn polygon_alloc_refuses_undefined_formats() {
    let (mut ctx, _res, _pctx) = Context::new();
    assert!(MeshData_Alloc_Polygon(
        &mut ctx,
        GGVertexFormat::VFMT_UNDEFINED,
        &vec![],
        GGIndexFormat::IFMT_SOUP_32U,
        &vec![],
    )
    .is_none());
    assert!(MeshData_Alloc_Polygon(
        &mut ctx,
        GGVertexFormat::VFMT_PNTL_32F,
        &vec![],
        GGIndexFormat::IFMT_UNDEFINED,
        &vec![],
    )
    .is_none());
}

#[test]
fn polygon_alloc_decodes_16u_soup() {
    let (mut ctx, _res, _pctx) = Context::new();
    let bytes = vec![1, 0, 2, 0, 3, 0]; // 1, 2, 3 little endian
    let md = MeshData_Alloc_Polygon(
        &mut ctx,
        GGVertexFormat::VFMT_PNTL_32F,
        &vec![],
        GGIndexFormat::IFMT_SOUP_16U,
        &bytes,
    )
    .unwrap();
    assert_eq!(md.topology(), PrimitiveTopology::TriangleList);
    match md.indices() {
        IndexBuffer::U16(v) => assert_eq!(v, &vec![1u16, 2, 3]),
        IndexBuffer::U32(_) => panic!("a 16-bit format keeps 16-bit indices"),
    }
}

/// Swapchain resize round-trip: the framebuffers always match the current
/// image set and the attachment extent always matches the most recently
/// applied extent; the platform's extent wins, and a transient rejection
/// changes nothing.
#[test]
fn resize_keeps_pipeline_matching_swapchain() {
    let (mut ctx, _res, pctx) = Context::new();
    let images = swap_images(&mut ctx, 2, 800, 600);
    let mut surface = Surface::from_vk(&mut ctx, &pctx, images, 800, 600);
    assert_eq!(surface.pipeline().framebuffer_count(), 2);
    assert_eq!(surface.pipeline().dimensions(), (800, 600));

    let three = swap_images(&mut ctx, 3, 1024, 768);
    surface.resize(&mut ctx, 1024, 768, None, RecreateOutcome::Recreated { images: three });
    assert_eq!(surface.swapchain().images().len(), 3);
    assert_eq!(surface.swapchain().dimensions(), (1024, 768));
    assert_eq!(surface.pipeline().framebuffer_count(), 3);
    assert_eq!(surface.pipeline().dimensions(), (1024, 768));

    // the platform's reported extent wins over the caller's
    let one = swap_images(&mut ctx, 1, 500, 400);
    surface.resize(
        &mut ctx,
        10,
        10,
        Some((500, 400)),
        RecreateOutcome::Recreated { images: one },
    );
    assert_eq!(surface.swapchain().dimensions(), (500, 400));
    assert_eq!(surface.pipeline().dimensions(), (500, 400));
    assert_eq!(surface.pipeline().framebuffer_count(), 1);

    // a transient rejection is silently ignored
    surface.resize(&mut ctx, 1, 1, None, RecreateOutcome::UnsupportedDimensions);
    assert_eq!(surface.swapchain().dimensions(), (500, 400));
    assert_eq!(surface.pipeline().framebuffer_count(), 1);
}

/// Frame-skip on out-of-date: an out-of-date acquire performs zero
/// submissions and leaves every piece of state unchanged.
#[test]
fn out_of_date_acquire_skips_the_frame() {
    let (mut ctx, res, pctx) = Context::new();
    let images = swap_images(&mut ctx, 2, 640, 480);
    let mut surface = Surface::from_vk(&mut ctx, &pctx, images, 640, 480);
    let mut group = MeshGroup::new(&res);
    let _mesh = Mesh::new(&mut group);
    let cam = Camera::new();
    let lights = vec![DirectLight::new()];

    let before_frames = surface.frame_counter();
    let outcome = surface.draw(&cam, &mut group, &lights, AcquireOutcome::OutOfDate);
    match outcome {
        DrawOutcome::Skipped => {}
        DrawOutcome::Submitted { .. } => panic!("an out-of-date frame must not submit"),
    }
    assert_eq!(surface.frame_counter(), before_frames);
    assert_eq!(surface.swapchain().dimensions(), (640, 480));
    assert_eq!(surface.pipeline().framebuffer_count(), 2);
    assert_eq!(group.len(), 1);
}

/// End-to-end: one triangle mesh drawn through the full three-subpass
/// frame against a two-image swapchain — per acquired image exactly one
/// composite write, and the geometry subpass records exactly one indexed
/// draw of three indices.
#[test]
fn one_triangle_end_to_end() {
    let (mut ctx, res, pctx) = Context::new();
    let mut group = MeshGroup::new(&res);

    let mesh = Mesh::new(&mut group);
    let md = MeshData::new_u32(
        &mut ctx,
        vec![Default::default(), Default::default(), Default::default()],
        vec![0, 1, 2],
        PrimitiveTopology::TriangleList,
    );
    let mut inner = group.take_mesh(mesh.id()).unwrap();
    inner.set_mesh_data(Some(md));
    inner.set_range(0, 3);
    group.put_mesh(inner);

    let mut cam = Camera::new();
    cam.set_perspective(
        (16.0f32 / 9.0).to_bits(),
        90.0f32.to_bits(),
        1.0f32.to_bits(),
        1000.0f32.to_bits(),
    );

    let images = swap_images(&mut ctx, 2, 1280, 720);
    let mut surface = Surface::from_vk(&mut ctx, &pctx, images, 1280, 720);
    let lights: Vec<DirectLight> = vec![];

    for image_num in 0..2usize {
        let outcome = surface.draw(
            &cam,
            &mut group,
            &lights,
            AcquireOutcome::Acquired { image_num },
        );
        let commands = match outcome {
            DrawOutcome::Submitted { image_num: n, commands } => {
                assert_eq!(n, image_num);
                commands
            }
            DrawOutcome::Skipped => panic!("a successful acquire must submit"),
        };
        let mut geometry_draws = 0;
        let mut composite_draws = 0;
        let mut subpass_advances = 0;
        for cmd in &commands.commands {
            match cmd {
                Command::DrawMesh { first_index, end_index, topology, .. } => {
                    geometry_draws += 1;
                    assert_eq!(end_index - first_index, 3, "index count is three");
                    assert_eq!(*topology, PrimitiveTopology::TriangleList);
                }
                Command::DrawComposite { exposure, .. } => {
                    composite_draws += 1;
                    assert_eq!(*exposure, 1.0f32.to_bits());
                }
                Command::NextSubpass => subpass_advances += 1,
                Command::BeginPass { .. } | Command::EndPass | Command::DrawLight { .. } => {}
            }
        }
        assert_eq!(geometry_draws, 1, "exactly one indexed draw per frame");
        assert_eq!(composite_draws, 1, "exactly one composite write per acquire");
        assert_eq!(subpass_advances, 2, "three subpasses");
    }
    assert_eq!(surface.frame_counter(), 2);
}

/// Replacing a texture between frames: the next frame's recorded draw
/// already binds the new image — the refresh that precedes recording
/// reconciled the descriptor.
#[test]
fn frame_after_texture_swap_binds_the_new_image() {
    let (mut ctx, res, pctx) = Context::new();
    let mut group = MeshGroup::new(&res);
    let mesh = Mesh::new(&mut group);
    let md = MeshData::new_u32(&mut ctx, vec![], vec![0, 1, 2], PrimitiveTopology::TriangleList);
    let mut inner = group.take_mesh(mesh.id()).unwrap();
    inner.set_mesh_data(Some(md));
    inner.set_range(0, 3);
    group.put_mesh(inner);

    let images = swap_images(&mut ctx, 1, 64, 64);
    let mut surface = Surface::from_vk(&mut ctx, &pctx, images, 64, 64);
    let cam = Camera::new();
    let lights: Vec<DirectLight> = vec![];

    let new_tex = nice_engine::texture::Texture::Immutable(
        nice_engine::texture::ImmutableTexture::from_image(Image {
            handle: 777,
            width: 8,
            height: 8,
            format: PixelFormat::R8g8b8a8Srgb,
        }),
    );
    let mut inner = group.take_mesh(mesh.id()).unwrap();
    inner.set_tex(0, new_tex);
    group.put_mesh(inner);

    let outcome = surface.draw(&cam, &mut group, &lights, AcquireOutcome::Acquired {
        image_num: 0,
    });
    let commands = match outcome {
        DrawOutcome::Submitted { commands, .. } => commands,
        DrawOutcome::Skipped => panic!("a successful acquire must submit"),
    };
    let mut saw_draw = false;
    for cmd in &commands.commands {
        if let Command::DrawMesh { desc, .. } = cmd {
            saw_draw = true;
            assert_eq!(desc[0], 777, "the draw binds the replaced texture's image");
        }
    }
    assert!(saw_draw);
}

#[test]
fn present_mode_preference_order() {
    assert_eq!(choose_present_mode(true, true, true), PresentMode::Mailbox);
    assert_eq!(choose_present_mode(false, true, true), PresentMode::Immediate);
    assert_eq!(choose_present_mode(false, false, true), PresentMode::Relaxed);
    assert_eq!(choose_present_mode(false, false, false), PresentMode::Fifo);
}

/// Lights each get one additive draw in the lighting subpass.
#[test]
fn one_light_draw_per_light() {
    let (mut ctx, res, pctx) = Context::new();
    let mut group = MeshGroup::new(&res);
    let cam = Camera::new();
    let images = swap_images(&mut ctx, 1, 320, 200);
    let mut surface = Surface::from_vk(&mut ctx, &pctx, images, 320, 200);
    let mut lights = Vec::new();
    for _ in 0..3 {
        lights.push(DirectLight::new());
    }
    let outcome = surface.draw(&cam, &mut group, &lights, AcquireOutcome::Acquired {
        image_num: 0,
    });
    let commands = match outcome {
        DrawOutcome::Submitted { commands, .. } => commands,
        DrawOutcome::Skipped => panic!("a successful acquire must submit"),
    };
    let light_draws = commands
        .commands
        .iter()
        .filter(|c| matches!(c, Command::DrawLight { .. }))
        .count();
    assert_eq!(light_draws, 3);
}
