use nice_engine::camera::Camera;
use nice_engine::direct_light::DirectLight;
use nice_engine::game_graph::{
    GGDriverStatus, GGImageUsage, GGPixelFormat, GGPlatform, IMG_USAGE_SKYBOX, IMG_USAGE_TARGET,
};
use nice_engine::game_graph_driver::{
    driver_main_status, GGD_ImageData, ImageData_Alloc, ImageData_DrawPixelData,
};
use nice_engine::mesh_batch::MeshBatch;
use nice_engine::texture::PixelFormat;
use nice_engine::threads::{yield_once, PollOutcome};
use nice_engine::transform::{Transform, F32_ONE_BITS};
use nice_engine::Context;

#[test]
fn it_works() {
    assert_eq!(2 + 2, 4);
}

#[test]
fn lib_it_works() {
    assert_eq!(2 + 2, 4);
}

#[test]
fn transform_default_is_identity() {
    let t = Transform::default();
    assert_eq!(t.pos_x, 0);
    assert_eq!(t.pos_y, 0);
    assert_eq!(t.pos_z, 0);
    assert_eq!(t.pos_w, 0);
    assert_eq!(t.rot_x, 0);
    assert_eq!(t.rot_y, 0);
    assert_eq!(t.rot_z, 0);
    assert_eq!(t.rot_w, F32_ONE_BITS);
    assert_eq!(t.rot_w, 1.0f32.to_bits());
}

#[test]
fn camera_stores_perspective_and_exposure() {
    let mut cam = Camera::new();
    assert_eq!(cam.projection(), (0, 0, 0, 0));
    assert_eq!(cam.exposure(), 1.0f32.to_bits());
    let aspect = (16.0f32 / 9.0).to_bits();
    let fovx = 90.0f32.to_bits();
    let znear = 1.0f32.to_bits();
    let zfar = 1000.0f32.to_bits();
    cam.set_perspective(aspect, fovx, znear, zfar);
    assert_eq!(cam.projection(), (aspect, fovx, znear, zfar));
    cam.set_exposure(2.0f32.to_bits());
    assert_eq!(cam.exposure(), 2.0f32.to_bits());
    let mut t = Transform::default();
    t.pos_x = 3.0f32.to_bits();
    cam.set_transform(t);
    assert_eq!(cam.transform().pos_x, 3.0f32.to_bits());
}

#[test]
fn direct_light_starts_dark() {
    let l = DirectLight::new();
    assert_eq!(l.position_x, 0);
    assert_eq!(l.color_r, 0);
    assert_eq!(l.radius, 0);
}

#[test]
fn yield_once_polls_pending_then_ready() {
    let mut y = yield_once();
    assert_eq!(y.poll(), PollOutcome::Pending);
    assert_eq!(y.poll(), PollOutcome::Ready);
    assert_eq!(y.poll(), PollOutcome::Ready);
}

#[test]
fn platform_codes_round_trip() {
    for code in 0u64..5 {
        let p = GGPlatform::from_u64(code).unwrap();
        assert_eq!(p.to_u64(), code);
    }
    assert!(GGPlatform::from_u64(5).is_none());
    assert!(GGPlatform::from_u64(u64::MAX).is_none());
    assert_eq!(GGPlatform::from_u64(3), Some(GGPlatform::WAYLAND));
}

#[test]
fn driver_main_gates_on_version() {
    assert_eq!(driver_main_status(0), GGDriverStatus::GGD_STATUS_DRIVER_READY);
    assert_eq!(driver_main_status(1), GGDriverStatus::GGD_STATUS_VERSION_INVALID);
}

#[test]
fn image_usage_flag_sets() {
    let u = GGImageUsage::from_bits(IMG_USAGE_TARGET | IMG_USAGE_SKYBOX);
    assert!(u.contains(IMG_USAGE_TARGET));
    assert!(u.contains(IMG_USAGE_SKYBOX));
    assert!(u.contains(IMG_USAGE_TARGET | IMG_USAGE_SKYBOX));
    assert!(!GGImageUsage::from_bits(IMG_USAGE_SKYBOX).contains(IMG_USAGE_TARGET));
}

#[test]
fn pixel_format_bits() {
    assert_eq!(PixelFormat::R8g8b8a8Srgb.bits_per_pixel(), 32);
    assert_eq!(PixelFormat::R16g16b16a16Sfloat.bits_per_pixel(), 64);
    assert_eq!(PixelFormat::R32g32b32a32Sfloat.bits_per_pixel(), 128);
}

#[test]
fn boundary_pixel_format_mapping() {
    assert_eq!(
        GGPixelFormat::PFMT_RGBA8.to_pixel_format(),
        Some(PixelFormat::R8g8b8a8Unorm)
    );
    assert_eq!(
        GGPixelFormat::PFMT_RGBA8_SRGB.to_pixel_format(),
        Some(PixelFormat::R8g8b8a8Srgb)
    );
    assert_eq!(GGPixelFormat::PFMT_BC7.to_pixel_format(), None);
}

#[test]
fn image_data_alloc_target_and_plain() {
    let (mut ctx, _res, _pctx) = Context::new();
    let target = ImageData_Alloc(
        &mut ctx,
        GGImageUsage::from_bits(IMG_USAGE_TARGET),
        32,
        16,
        GGPixelFormat::PFMT_RGBA8,
    )
    .unwrap();
    match target.tex() {
        Some(t) => {
            let img = t.image();
            assert_eq!(img.width, 32);
            assert_eq!(img.height, 16);
            assert_eq!(img.format, PixelFormat::R8g8b8a8Unorm);
        }
        None => panic!("target image must be initialized"),
    }
    let target_bad = ImageData_Alloc(
        &mut ctx,
        GGImageUsage::from_bits(IMG_USAGE_TARGET),
        32,
        16,
        GGPixelFormat::PFMT_BC7,
    );
    assert!(target_bad.is_none());
    let plain = ImageData_Alloc(
        &mut ctx,
        GGImageUsage::from_bits(IMG_USAGE_SKYBOX),
        8,
        8,
        GGPixelFormat::PFMT_RGBA16F,
    )
    .unwrap();
    match plain {
        GGD_ImageData::Uninitialized { x, y, .. } => {
            assert_eq!((x, y), (8, 8));
        }
        GGD_ImageData::Initialized(_) => panic!("plain image starts uninitialized"),
    }
}

#[test]
fn pixel_upload_initializes_an_image_once() {
    let (_ctx, res, _pctx) = Context::new();
    let placeholder = *res.white_pixel();
    let mut img = GGD_ImageData::Uninitialized {
        usage: GGImageUsage::from_bits(IMG_USAGE_SKYBOX),
        x: 4,
        y: 4,
        format: GGPixelFormat::PFMT_RGBA8,
    };
    assert!(img.tex().is_none());
    ImageData_DrawPixelData(&mut img, placeholder);
    match img.tex() {
        Some(t) => assert_eq!(t.image().handle, placeholder.image().handle),
        None => panic!("the image is initialized after the upload begins"),
    }
}

#[test]
fn mesh_batch_is_constructible() {
    let (ctx, _res, _pctx) = Context::new();
    let _batch = MeshBatch::new(&ctx);
    assert_eq!(ctx.device(), 0);
    assert_eq!(ctx.queue(), 1);
}
