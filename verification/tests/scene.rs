use nice_engine::mesh::{Mesh, LAYERS};
use nice_engine::mesh_group::MeshGroup;
use nice_engine::resources::TextureResource;
use nice_engine::texture::{Image, ImmutableTexture, PixelFormat, Texture};
use nice_engine::Context;

fn tex_with_handle(handle: u64) -> Texture {
    Texture::Immutable(ImmutableTexture::from_image(Image {
        handle,
        width: 4,
        height: 4,
        format: PixelFormat::R8g8b8a8Srgb,
    }))
}

/// Descriptor coherency: a new mesh's descriptor is coherent, a texture
/// replacement makes exactly that layer stale, and a refresh rebuilds
/// exactly the stale layers, after which every bound image matches its
/// layer's texture again.
#[test]
fn descriptor_refresh_rebuilds_exactly_stale_layers() {
    let (_ctx, res, _pctx) = Context::new();
    let mut group = MeshGroup::new(&res);
    let white = group.white_pixel().image().handle;
    let mesh = Mesh::new(&mut group);

    let mut inner = group.take_mesh(mesh.id()).unwrap();
    for i in 0..LAYERS {
        assert_eq!(inner.desc()[i], white);
        assert_eq!(inner.texture(i).image().handle, white);
    }
    assert_eq!(inner.refresh(), 0);

    let replacement = tex_with_handle(4242);
    inner.set_tex(2, replacement);
    assert_eq!(inner.desc()[2], white, "descriptor is stale until refresh");
    assert_eq!(inner.refresh(), 1, "exactly one layer was stale");
    assert_eq!(inner.desc()[2], 4242);
    for i in 0..LAYERS {
        assert_eq!(inner.desc()[i], inner.texture(i).image().handle);
    }

    inner.set_tex(0, tex_with_handle(7));
    inner.set_tex(5, tex_with_handle(8));
    assert_eq!(inner.refresh(), 2);
    for i in 0..LAYERS {
        assert_eq!(inner.desc()[i], inner.texture(i).image().handle);
    }
    group.put_mesh(inner);
}

/// Mesh registration: the group's registry holds exactly the live ids
/// through an interleaving of creations and destructions.
#[test]
fn group_registry_tracks_live_meshes() {
    let (_ctx, res, _pctx) = Context::new();
    let mut group = MeshGroup::new(&res);
    assert_eq!(group.len(), 0);

    let a = Mesh::new(&mut group);
    let b = Mesh::new(&mut group);
    let c = Mesh::new(&mut group);
    assert_eq!(group.len(), 3);
    assert!(a.id() != b.id() && b.id() != c.id() && a.id() != c.id());
    assert!(group.contains_id(a.id()));
    assert!(group.contains_id(b.id()));
    assert!(group.contains_id(c.id()));

    let b_id = b.id();
    b.destroy(&mut group);
    assert_eq!(group.len(), 2);
    assert!(group.contains_id(a.id()));
    assert!(!group.contains_id(b_id));
    assert!(group.contains_id(c.id()));

    let d = Mesh::new(&mut group);
    assert!(d.id() != b_id, "ids are never reused");
    assert_eq!(group.len(), 3);

    let a_id = a.id();
    let c_id = c.id();
    let d_id = d.id();
    a.destroy(&mut group);
    c.destroy(&mut group);
    d.destroy(&mut group);
    assert_eq!(group.len(), 0);
    assert!(!group.contains_id(a_id));
    assert!(!group.contains_id(c_id));
    assert!(!group.contains_id(d_id));
}

#[test]
fn skybox_binding_follows_texture() {
    let (_ctx, res, _pctx) = Context::new();
    let mut group = MeshGroup::new(&res);
    let white = group.white_pixel().image().handle;
    assert_eq!(group.skybox(), white);
    let sky = tex_with_handle(99);
    group.set_skybox(Some(&sky));
    assert_eq!(group.skybox(), 99);
    group.set_skybox(None);
    assert_eq!(group.skybox(), white);
}

#[test]
fn texture_resource_first_installation_wins() {
    let (_ctx, res, _pctx) = Context::new();
    let white = *res.white_pixel();
    let mut tr = TextureResource::new(white);
    assert_eq!(tr.image().handle, white.image().handle);
    let loaded = tex_with_handle(55);
    assert!(tr.set_texture(loaded).is_none());
    assert_eq!(tr.image().handle, 55);
    let late = tex_with_handle(56);
    let rejected = tr.set_texture(late);
    assert!(rejected.is_some());
    assert_eq!(rejected.unwrap().image().handle, 56);
    assert_eq!(tr.image().handle, 55, "the first installation stays");
}

#[test]
fn texture_cache_deduplicates_paths() {
    let (_ctx, mut res, _pctx) = Context::new();
    let white = res.white_pixel().image().handle;
    let path = b"tex/stone.ntx".to_vec();

    let first = res.get_texture(&path);
    assert_eq!(first.image().handle, white, "placeholder until loaded");
    assert_eq!(res.texture_count(), 1);

    let again = res.get_texture(&path);
    assert_eq!(again.image().handle, white);
    assert_eq!(res.texture_count(), 1, "same path reuses the entry");

    let loaded = tex_with_handle(1234);
    assert!(res.set_texture_loaded(&path, loaded));
    let after = res.get_texture(&path);
    assert_eq!(after.image().handle, 1234);
    assert!(
        !res.set_texture_loaded(&path, tex_with_handle(5678)),
        "a second load does not replace the first"
    );
    assert_eq!(res.get_texture(&path).image().handle, 1234);

    let other = b"tex/wood.ntx".to_vec();
    let other_tex = res.get_texture(&other);
    assert_eq!(other_tex.image().handle, white);
    assert_eq!(res.texture_count(), 2);
}

#[test]
fn mesh_setters_update_state() {
    let (mut ctx, res, _pctx) = Context::new();
    let mut group = MeshGroup::new(&res);
    let mesh = Mesh::new(&mut group);
    let mut inner = group.take_mesh(mesh.id()).unwrap();

    assert!(inner.mesh_data().is_none());
    assert_eq!(inner.range(), (0, 0));

    let md = nice_engine::mesh_data::MeshData::new_u32(
        &mut ctx,
        vec![],
        vec![0, 1, 2],
        nice_engine::mesh_data::PrimitiveTopology::TriangleList,
    );
    inner.set_mesh_data(Some(md));
    inner.set_range(0, 3);
    assert!(inner.mesh_data().is_some());
    assert_eq!(inner.range(), (0, 3));

    let mut t = nice_engine::transform::Transform::default();
    t.pos_y = 2.5f32.to_bits();
    inner.set_transform(t);
    assert_eq!(inner.transform().pos_y, 2.5f32.to_bits());
    group.put_mesh(inner);
}
