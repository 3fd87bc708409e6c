use nice_engine::mesh_data::IndexBuffer;
use nice_engine::mesh_group::MeshGroup;
use nice_engine::Context;

fn push_u16(v: &mut Vec<u8>, x: u16) {
    v.extend_from_slice(&x.to_le_bytes());
}

fn push_u32(v: &mut Vec<u8>, x: u32) {
    v.extend_from_slice(&x.to_le_bytes());
}

/// An nmdl file with one vertex, three indices and one material whose
/// first texture name is stored in the file.
fn nmdl_with_texture_name(name: &[u8]) -> Vec<u8> {
    let name_offset = 116u32;
    let mut v = Vec::new();
    v.extend_from_slice(b"nmdl");
    push_u32(&mut v, 0);
    push_u32(&mut v, 1);
    push_u32(&mut v, 41);
    push_u32(&mut v, 53);
    push_u32(&mut v, 65);
    push_u32(&mut v, 73);
    push_u32(&mut v, 3);
    push_u32(&mut v, 81);
    v.push(1);
    push_u32(&mut v, 93);
    for _ in 0..10 {
        push_u32(&mut v, 0);
    }
    push_u32(&mut v, 0);
    push_u32(&mut v, 1);
    push_u32(&mut v, 2);
    // material
    push_u32(&mut v, 3);
    push_u16(&mut v, name.len() as u16);
    push_u32(&mut v, name_offset);
    push_u16(&mut v, 0);
    push_u32(&mut v, 0);
    v.push(0);
    v.push(0);
    push_u16(&mut v, 0);
    v.extend_from_slice(&[0, 0, 0]);
    assert_eq!(v.len(), 116);
    v.extend_from_slice(name);
    v
}

fn mesh_data_handle(group: &mut MeshGroup, id: u64) -> u64 {
    let inner = group.take_mesh(id).unwrap();
    let handle = match inner.mesh_data() {
        Some(md) => md.handle(),
        None => panic!("a model mesh carries mesh data"),
    };
    group.put_mesh(inner);
    handle
}

/// Resource cache idempotence: loading the same path twice yields meshes
/// that share one underlying mesh-data upload, not a re-decoded copy.
#[test]
fn get_model_is_idempotent_per_path() {
    let (mut ctx, mut res, _pctx) = Context::new();
    let mut group = MeshGroup::new(&res);
    let path = b"models/tri.nmdl".to_vec();
    let bytes = nmdl_with_texture_name(b"skin.ntx");

    let first = res.get_model(&mut ctx, &mut group, &path, &bytes).unwrap();
    assert_eq!(first.len(), 1, "one mesh per material");
    assert_eq!(res.model_count(), 1);
    let handle_before = ctx.next_handle();

    let second = res.get_model(&mut ctx, &mut group, &path, &bytes).unwrap();
    assert_eq!(second.len(), 1);
    assert_eq!(res.model_count(), 1, "the same path is decoded once");
    assert_eq!(
        ctx.next_handle(),
        handle_before,
        "a cache hit uploads nothing new"
    );

    let h1 = mesh_data_handle(&mut group, first[0].id());
    let h2 = mesh_data_handle(&mut group, second[0].id());
    assert_eq!(h1, h2, "both meshes reference the same upload");

    let other_path = b"models/other.nmdl".to_vec();
    let third = res.get_model(&mut ctx, &mut group, &other_path, &bytes).unwrap();
    assert_eq!(res.model_count(), 2);
    let h3 = mesh_data_handle(&mut group, third[0].id());
    assert_ne!(h1, h3, "a new path is its own upload");
}

#[test]
fn get_model_configures_meshes_from_materials() {
    let (mut ctx, mut res, _pctx) = Context::new();
    let mut group = MeshGroup::new(&res);
    let white = group.white_pixel().image().handle;
    let path = b"models/a.nmdl".to_vec();
    let bytes = nmdl_with_texture_name(b"skin.ntx");

    let meshes = res.get_model(&mut ctx, &mut group, &path, &bytes).unwrap();
    assert_eq!(group.len(), 1);
    assert_eq!(
        res.texture_count(),
        2,
        "one entry per distinct texture name (skin.ntx and the default)"
    );

    let inner = group.take_mesh(meshes[0].id()).unwrap();
    assert_eq!(inner.range(), (0, 3));
    match inner.mesh_data() {
        Some(md) => {
            assert_eq!(md.vertices().len(), 1);
            match md.indices() {
                IndexBuffer::U32(v) => assert_eq!(v, &vec![0, 1, 2]),
                IndexBuffer::U16(_) => panic!("nmdl indices are 32-bit"),
            }
        }
        None => panic!("mesh data was set"),
    }
    // both material textures start as the white-pixel placeholder, their
    // loads not having run yet
    assert_eq!(inner.texture(0).image().handle, white);
    assert_eq!(inner.texture(1).image().handle, white);
    group.put_mesh(inner);
}

#[test]
fn get_model_rejects_malformed_bytes() {
    let (mut ctx, mut res, _pctx) = Context::new();
    let mut group = MeshGroup::new(&res);
    let path = b"models/bad.nmdl".to_vec();
    let bytes = vec![1u8, 2, 3];
    assert!(res.get_model(&mut ctx, &mut group, &path, &bytes).is_err());
    assert_eq!(res.model_count(), 0);
    assert_eq!(group.len(), 0);
}
