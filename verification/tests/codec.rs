use nice_engine::codecs::model::{from_nice_model, ModelParseError};
use nice_engine::codecs::texture::{from_nice_texture, TextureParseError};
use nice_engine::texture::PixelFormat;

fn push_u16(v: &mut Vec<u8>, x: u16) {
    v.extend_from_slice(&x.to_le_bytes());
}

fn push_u32(v: &mut Vec<u8>, x: u32) {
    v.extend_from_slice(&x.to_le_bytes());
}

/// A minimal well-formed nmdl file: one vertex, a three-index triangle,
/// one material with empty texture names.
fn tiny_nmdl() -> Vec<u8> {
    let mut v = Vec::new();
    v.extend_from_slice(b"nmdl");
    push_u32(&mut v, 7); // version, skipped
    push_u32(&mut v, 1); // vertex count
    push_u32(&mut v, 41); // positions offset
    push_u32(&mut v, 53); // normals offset
    push_u32(&mut v, 65); // main texcoords offset
    push_u32(&mut v, 73); // lightmap texcoords offset
    push_u32(&mut v, 3); // index count
    push_u32(&mut v, 81); // indices offset
    v.push(1); // material count
    push_u32(&mut v, 93); // materials offset
    assert_eq!(v.len(), 41);
    // positions: one vertex
    push_u32(&mut v, 1.0f32.to_bits());
    push_u32(&mut v, 2.0f32.to_bits());
    push_u32(&mut v, 3.0f32.to_bits());
    // normals
    push_u32(&mut v, 0.0f32.to_bits());
    push_u32(&mut v, 1.0f32.to_bits());
    push_u32(&mut v, 0.0f32.to_bits());
    // main texcoords
    push_u32(&mut v, 0.25f32.to_bits());
    push_u32(&mut v, 0.75f32.to_bits());
    // lightmap texcoords
    push_u32(&mut v, 0.5f32.to_bits());
    push_u32(&mut v, 0.5f32.to_bits());
    // indices
    push_u32(&mut v, 0);
    push_u32(&mut v, 1);
    push_u32(&mut v, 2);
    assert_eq!(v.len(), 93);
    // one material: 3 indices, both names empty, parameters 9/10/11, color
    push_u32(&mut v, 3);
    push_u16(&mut v, 0);
    push_u32(&mut v, 0);
    push_u16(&mut v, 0);
    push_u32(&mut v, 0);
    v.push(9);
    v.push(10);
    push_u16(&mut v, 11);
    v.push(200);
    v.push(150);
    v.push(100);
    assert_eq!(v.len(), 116);
    v
}

#[test]
fn nmdl_decodes_exactly() {
    let bytes = tiny_nmdl();
    let m = from_nice_model(&bytes).unwrap();
    assert_eq!(m.vertices.len(), 1);
    let v0 = &m.vertices[0];
    assert_eq!(v0.pos_x, 1.0f32.to_bits());
    assert_eq!(v0.pos_y, 2.0f32.to_bits());
    assert_eq!(v0.pos_z, 3.0f32.to_bits());
    assert_eq!(v0.nor_y, 1.0f32.to_bits());
    assert_eq!(v0.texc_u, 0.25f32.to_bits());
    assert_eq!(v0.texc_v, 0.75f32.to_bits());
    assert_eq!(v0.lmap_u, 0.5f32.to_bits());
    assert_eq!(m.indices, vec![0, 1, 2]);
    assert_eq!(m.materials.len(), 1);
    let mat = &m.materials[0];
    assert_eq!((mat.range_start, mat.range_end), (0, 3));
    assert_eq!(mat.tex1, b"default.ntx".to_vec(), "empty names fall back");
    assert_eq!(mat.tex2, b"default.ntx".to_vec());
    assert_eq!(mat.light_penetration, 9);
    assert_eq!(mat.subsurface_scattering, 10);
    assert_eq!(mat.emissive_brightness, 11);
    assert_eq!(
        (mat.base_color_r, mat.base_color_g, mat.base_color_b),
        (200, 150, 100)
    );
}

#[test]
fn nmdl_material_ranges_accumulate() {
    let mut bytes = tiny_nmdl();
    // a second material drawing five more indices, names stored in-file
    bytes[36] = 2; // material count
    let name_offset = bytes.len() as u32 + 23;
    push_u32(&mut bytes, 5);
    push_u16(&mut bytes, 4);
    push_u32(&mut bytes, name_offset);
    push_u16(&mut bytes, 0);
    push_u32(&mut bytes, 0);
    bytes.push(0);
    bytes.push(0);
    push_u16(&mut bytes, 0);
    bytes.extend_from_slice(&[1, 2, 3]);
    bytes.extend_from_slice(b"a.px");
    let m = from_nice_model(&bytes).unwrap();
    assert_eq!(m.materials.len(), 2);
    assert_eq!(
        (m.materials[1].range_start, m.materials[1].range_end),
        (3, 8)
    );
    assert_eq!(m.materials[1].tex1, b"a.px".to_vec());
}

#[test]
fn nmdl_rejects_short_input() {
    let bytes = vec![0u8; 40];
    assert_eq!(from_nice_model(&bytes).unwrap_err(), ModelParseError::TooShort);
}

#[test]
fn nmdl_rejects_bad_magic() {
    let mut bytes = tiny_nmdl();
    bytes[0] = b'x';
    assert_eq!(from_nice_model(&bytes).unwrap_err(), ModelParseError::BadMagic);
}

#[test]
fn nmdl_rejects_regions_past_the_end() {
    let mut bytes = tiny_nmdl();
    // vertex count far larger than the file
    bytes[8] = 0xFF;
    bytes[9] = 0xFF;
    assert_eq!(
        from_nice_model(&bytes).unwrap_err(),
        ModelParseError::OutOfBounds
    );
    let mut bytes2 = tiny_nmdl();
    // texture name reaching past the end
    bytes2[97] = 8; // tex1 name size
    bytes2[99] = 200; // tex1 name offset
    assert_eq!(
        from_nice_model(&bytes2).unwrap_err(),
        ModelParseError::OutOfBounds
    );
}

fn tiny_ntx() -> Vec<u8> {
    let mut v = Vec::new();
    v.extend_from_slice(b"ntx");
    v.push(1); // R8g8b8a8Unorm
    push_u16(&mut v, 2); // width
    push_u16(&mut v, 1); // height
    v.extend_from_slice(&[10, 20, 30, 40, 50, 60, 70, 80]);
    v
}

#[test]
fn ntx_decodes_exactly() {
    let bytes = tiny_ntx();
    let t = from_nice_texture(&bytes).unwrap();
    assert_eq!(t.format, PixelFormat::R8g8b8a8Unorm);
    assert_eq!((t.width, t.height), (2, 1));
    assert_eq!(t.pixels, vec![10, 20, 30, 40, 50, 60, 70, 80]);
}

#[test]
fn ntx_format_codes_select_encodings() {
    let mut bytes = tiny_ntx();
    bytes[3] = 0;
    assert_eq!(
        from_nice_texture(&bytes).unwrap().format,
        PixelFormat::R8g8b8a8Srgb
    );
    bytes[3] = 2;
    assert_eq!(
        from_nice_texture(&bytes).unwrap().format,
        PixelFormat::A2b10g10r10Unorm
    );
    bytes[3] = 3;
    assert_eq!(
        from_nice_texture(&bytes).unwrap().format,
        PixelFormat::A2b10g10r10Unorm
    );
}

#[test]
fn ntx_rejects_short_input() {
    assert_eq!(
        from_nice_texture(&b"ntx".to_vec()).unwrap_err(),
        TextureParseError::TooShort
    );
}

#[test]
fn ntx_rejects_bad_magic() {
    let mut bytes = tiny_ntx();
    bytes[1] = b'z';
    assert_eq!(
        from_nice_texture(&bytes).unwrap_err(),
        TextureParseError::BadMagic
    );
}

#[test]
fn ntx_rejects_legacy_ntex_magic() {
    // the legacy four-byte form starts "ntex": its fourth byte lands on
    // the format code, and its magic check still passes only for "ntx"
    let mut v = Vec::new();
    v.extend_from_slice(b"ntex");
    v.extend_from_slice(&[0, 0, 0, 0]);
    // "nte" != "ntx"
    assert_eq!(
        from_nice_texture(&v).unwrap_err(),
        TextureParseError::BadMagic
    );
}

#[test]
fn ntx_rejects_unknown_format() {
    let mut bytes = tiny_ntx();
    bytes[3] = 6;
    assert_eq!(
        from_nice_texture(&bytes).unwrap_err(),
        TextureParseError::BadFormat
    );
}

#[test]
fn ntx_rejects_truncated_pixels() {
    let mut bytes = tiny_ntx();
    bytes.pop();
    assert_eq!(
        from_nice_texture(&bytes).unwrap_err(),
        TextureParseError::TruncatedPixels
    );
}

#[test]
fn ntx_rounds_pixel_bits_up_to_bytes() {
    // 3x1 at 32 bits per pixel needs exactly 12 bytes
    let mut v = Vec::new();
    v.extend_from_slice(b"ntx");
    v.push(0);
    push_u16(&mut v, 3);
    push_u16(&mut v, 1);
    v.extend_from_slice(&[0u8; 11]);
    assert_eq!(
        from_nice_texture(&v).unwrap_err(),
        TextureParseError::TruncatedPixels
    );
    v.push(0);
    assert_eq!(from_nice_texture(&v).unwrap().pixels.len(), 12);
}
