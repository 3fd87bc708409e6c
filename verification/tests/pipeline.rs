use nice_engine::camera::Camera;
use nice_engine::mesh::Mesh;
use nice_engine::mesh_data::{MeshData, PrimitiveTopology};
use nice_engine::mesh_group::MeshGroup;
use nice_engine::pipelines::forward::ForwardPipelineDef;
use nice_engine::pipelines::Command;
use nice_engine::surface::SWAP_FORMAT;
use nice_engine::texture::{mipmap_blit_plan, Image, PixelFormat};
use nice_engine::Context;

#[test]
fn forward_pipeline_draws_every_mesh_twice() {
    let (mut ctx, res, _pctx) = Context::new();
    let fwd_ctx = ForwardPipelineDef::make_context(&mut ctx);
    let images = vec![
        Image { handle: 900, width: 640, height: 480, format: SWAP_FORMAT },
        Image { handle: 901, width: 640, height: 480, format: SWAP_FORMAT },
    ];
    let pipeline = fwd_ctx.make_pipeline(&mut ctx, &images, 640, 480);

    let mut group = MeshGroup::new(&res);
    for _ in 0..2 {
        let mesh = Mesh::new(&mut group);
        let md = MeshData::new_u32(
            &mut ctx,
            vec![],
            vec![0, 1, 2],
            PrimitiveTopology::TriangleList,
        );
        let mut inner = group.take_mesh(mesh.id()).unwrap();
        inner.set_mesh_data(Some(md));
        inner.set_range(0, 3);
        group.put_mesh(inner);
    }

    let cam = Camera::new();
    let cb = pipeline.draw(1, &cam, &group);
    let draws = cb
        .commands
        .iter()
        .filter(|c| matches!(c, Command::DrawMesh { .. }))
        .count();
    assert_eq!(draws, 4, "each mesh drawn in the depth prepass and the shaded pass");
    let passes = cb
        .commands
        .iter()
        .filter(|c| matches!(c, Command::BeginPass { .. }))
        .count();
    assert_eq!(passes, 2, "a depth pass and a swap pass");
    // the shaded pass targets the acquired image
    let begin_targets: Vec<u64> = cb
        .commands
        .iter()
        .filter_map(|c| match c {
            Command::BeginPass { framebuffer } => Some(*framebuffer),
            _ => None,
        })
        .collect();
    assert_eq!(begin_targets[1], 901);
}

#[test]
fn forward_pipeline_survives_resize() {
    let (mut ctx, res, _pctx) = Context::new();
    let fwd_ctx = ForwardPipelineDef::make_context(&mut ctx);
    let images = vec![Image { handle: 7, width: 100, height: 50, format: SWAP_FORMAT }];
    let mut pipeline = fwd_ctx.make_pipeline(&mut ctx, &images, 100, 50);
    let more = vec![
        Image { handle: 8, width: 300, height: 200, format: SWAP_FORMAT },
        Image { handle: 9, width: 300, height: 200, format: SWAP_FORMAT },
    ];
    pipeline.resize(&mut ctx, &more, 300, 200);
    let cam = Camera::new();
    let group = MeshGroup::new(&res);
    let cb = pipeline.draw(1, &cam, &group);
    // an empty scene still opens and closes both passes
    assert_eq!(cb.commands.len(), 4);
}

#[test]
fn mipmap_chain_halves_down_to_one() {
    let plan = mipmap_blit_plan(8, 4);
    // 8x4 -> 4x2 -> 2x1 -> 1x1
    assert_eq!(plan.len(), 3);
    assert_eq!((plan[0].src_width, plan[0].src_height), (8, 4));
    assert_eq!((plan[0].dst_width, plan[0].dst_height), (4, 2));
    assert_eq!((plan[1].dst_width, plan[1].dst_height), (2, 1));
    assert_eq!((plan[2].dst_width, plan[2].dst_height), (1, 1));

    // odd extents round down, narrow extents clamp at one
    let plan = mipmap_blit_plan(5, 1);
    assert_eq!(plan.len(), 2);
    assert_eq!((plan[0].dst_width, plan[0].dst_height), (2, 1));
    assert_eq!((plan[1].dst_width, plan[1].dst_height), (1, 1));

    // a 1x1 image needs no blits at all
    assert_eq!(mipmap_blit_plan(1, 1).len(), 0);
}

#[test]
fn pixel_format_depth_is_32_bits() {
    assert_eq!(PixelFormat::D32Sfloat.bits_per_pixel(), 32);
}
