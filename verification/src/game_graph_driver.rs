use vstd::prelude::*;
use vstd::arithmetic::div_mod::{
    lemma_div_denominator, lemma_fundamental_div_mod, lemma_small_mod,
};
use crate::codecs::{read_u16_le, read_u32_le, u16_le_at, u32_le_at};
use crate::game_graph::{GGDriverStatus, GGImageUsage, GGIndexFormat, GGPixelFormat,
    GGVertexFormat, IMG_USAGE_TARGET};
use crate::mesh_data::{IndexBuffer, MeshData, Pntl_32F, PrimitiveTopology};
use crate::texture::{TargetTexture, Texture};
use crate::Context;

verus! {

/// The driver boundary version this engine implements.
pub const GGD_API_VERSION: u64 = 0;

/// Glyph atlas data; not implemented yet.
#[allow(non_camel_case_types)]
pub struct GGD_FontData {}

/// Physics engine table; not implemented yet.
#[allow(non_camel_case_types)]
pub struct GGD_PhysicsEngine {}

/// An image as the driver boundary holds it: allocated but not yet filled,
/// or backed by an engine texture.
#[allow(non_camel_case_types)]
pub enum GGD_ImageData {
    Uninitialized { usage: GGImageUsage, x: u32, y: u32, format: GGPixelFormat },
    Initialized(Texture),
}

impl GGD_ImageData {
    pub open spec fn tex_spec(self) -> Option<Texture> {
        match self {
            GGD_ImageData::Initialized(t) => Some(t),
            GGD_ImageData::Uninitialized { .. } => None,
        }
    }

    /// The backing texture, once the image is initialized.
    pub fn tex(&self) -> (r: Option<&Texture>)
        ensures
            match r {
                Some(t) => self.tex_spec() == Some(*t),
                None => self.tex_spec() is None,
            },
    {
        match self {
            GGD_ImageData::Initialized(t) => Some(t),
            GGD_ImageData::Uninitialized { .. } => None,
        }
    }
}

/// The version gate of the driver's entry point: only a host speaking this
/// boundary version gets a ready driver.
pub fn driver_main_status(api_version: u64) -> (r: GGDriverStatus)
    ensures
        api_version == GGD_API_VERSION ==> r == GGDriverStatus::GGD_STATUS_DRIVER_READY,
        api_version != GGD_API_VERSION ==> r == GGDriverStatus::GGD_STATUS_VERSION_INVALID,
{
    if api_version == GGD_API_VERSION {
        GGDriverStatus::GGD_STATUS_DRIVER_READY
    } else {
        GGDriverStatus::GGD_STATUS_VERSION_INVALID
    }
}

/// Allocate a boundary image: a render-target usage allocates the target
/// texture right away (refused when the pixel format has no backend
/// equivalent); any other usage stays uninitialized until its pixel data
/// arrives from the loader.
#[allow(non_snake_case)]
pub fn ImageData_Alloc(
    ctx: &mut Context,
    usage: GGImageUsage,
    x: u32,
    y: u32,
    format: GGPixelFormat,
) -> (r: Option<GGD_ImageData>)
    requires
        old(ctx).next_handle_spec() < u64::MAX,
    ensures
        final(ctx).device_spec() == old(ctx).device_spec(),
        final(ctx).queue_spec() == old(ctx).queue_spec(),
        usage.contains_spec(IMG_USAGE_TARGET) ==> match format.to_pixel_format_spec() {
            Some(pf) => r matches Some(img) && img.tex_spec() matches Some(t) && {
                &&& t.image_spec().width == x
                &&& t.image_spec().height == y
                &&& t.image_spec().format == pf
                &&& t.image_spec().handle == old(ctx).next_handle_spec()
            },
            None => r is None,
        },
        !usage.contains_spec(IMG_USAGE_TARGET) ==> r == Some(
            GGD_ImageData::Uninitialized { usage, x, y, format },
        ) && *final(ctx) == *old(ctx),
{
    if usage.contains(IMG_USAGE_TARGET) {
        match format.to_pixel_format() {
            Some(pf) => {
                let t = TargetTexture::new(ctx, x, y, pf);
                Some(GGD_ImageData::Initialized(Texture::Target(t)))
            },
            None => None,
        }
    } else {
        Some(GGD_ImageData::Uninitialized { usage, x, y, format })
    }
}

/// Begin a pixel upload into an uninitialized boundary image: the image
/// becomes backed by the given placeholder texture at once, and the
/// loader installs the decoded pixels into the texture cache later.
/// Writing to an already-initialized image is a caller bug and is ruled
/// out here rather than aborting at run time.
#[allow(non_snake_case)]
pub fn ImageData_DrawPixelData(img: &mut GGD_ImageData, placeholder: Texture)
    requires
        (*old(img)) matches GGD_ImageData::Uninitialized { .. },
    ensures
        *final(img) == GGD_ImageData::Initialized(placeholder),
{
    *img = GGD_ImageData::Initialized(placeholder);
}

/// The 16-bit little-endian words a byte string holds, trailing partial
/// word ignored.
pub open spec fn decoded_u16s(b: Seq<u8>) -> Seq<u16> {
    Seq::new((b.len() / 2) as nat, |k: int| u16_le_at(b, 2 * k))
}

/// The 32-bit little-endian words a byte string holds, trailing partial
/// word ignored.
pub open spec fn decoded_u32s(b: Seq<u8>) -> Seq<u32> {
    Seq::new((b.len() / 4) as nat, |k: int| u32_le_at(b, 4 * k))
}

/// The vertex at byte offset `off`: ten 32-bit words.
pub open spec fn pntl_at(b: Seq<u8>, off: int) -> Pntl_32F {
    Pntl_32F {
        pos_x: u32_le_at(b, off),
        pos_y: u32_le_at(b, off + 4),
        pos_z: u32_le_at(b, off + 8),
        nor_x: u32_le_at(b, off + 12),
        nor_y: u32_le_at(b, off + 16),
        nor_z: u32_le_at(b, off + 20),
        texc_u: u32_le_at(b, off + 24),
        texc_v: u32_le_at(b, off + 28),
        lmap_u: u32_le_at(b, off + 32),
        lmap_v: u32_le_at(b, off + 36),
    }
}

/// The interleaved vertices a byte string holds, 40 bytes each, trailing
/// partial vertex ignored.
pub open spec fn decoded_pntls(b: Seq<u8>) -> Seq<Pntl_32F> {
    Seq::new((b.len() / 40) as nat, |k: int| pntl_at(b, 40 * k))
}

fn decode_u16s(b: &Vec<u8>) -> (r: Vec<u16>)
    ensures
        r@ == decoded_u16s(b@),
{
    let len = b.len();
    let n = len / 2;
    let mut r: Vec<u16> = Vec::new();
    for k in 0..n
        invariant
            r@.len() == k,
            forall|j: int| 0 <= j < k ==> r@[j] == u16_le_at(b@, 2 * j),
    {
        r.push(read_u16_le(b, 2 * k));
    }
    assert(r@ =~= decoded_u16s(b@));
    r
}

fn decode_u32s(b: &Vec<u8>) -> (r: Vec<u32>)
    ensures
        r@ == decoded_u32s(b@),
{
    let len = b.len();
    let n = len / 4;
    let mut r: Vec<u32> = Vec::new();
    for k in 0..n
        invariant
            r@.len() == k,
            forall|j: int| 0 <= j < k ==> r@[j] == u32_le_at(b@, 4 * j),
    {
        r.push(read_u32_le(b, 4 * k));
    }
    assert(r@ =~= decoded_u32s(b@));
    r
}

fn decode_pntls(b: &Vec<u8>) -> (r: Vec<Pntl_32F>)
    ensures
        r@ == decoded_pntls(b@),
{
    let len = b.len();
    let n = len / 40;
    let mut r: Vec<Pntl_32F> = Vec::new();
    for k in 0..n
        invariant
            r@.len() == k,
            forall|j: int| 0 <= j < k ==> r@[j] == pntl_at(b@, 40 * j),
    {
        let off = 40 * k;
        r.push(
            Pntl_32F {
                pos_x: read_u32_le(b, off),
                pos_y: read_u32_le(b, off + 4),
                pos_z: read_u32_le(b, off + 8),
                nor_x: read_u32_le(b, off + 12),
                nor_y: read_u32_le(b, off + 16),
                nor_z: read_u32_le(b, off + 20),
                texc_u: read_u32_le(b, off + 24),
                texc_v: read_u32_le(b, off + 28),
                lmap_u: read_u32_le(b, off + 32),
                lmap_v: read_u32_le(b, off + 36),
            },
        );
    }
    assert(r@ =~= decoded_pntls(b@));
    r
}

/// The primitive topology an index format selects.
pub open spec fn topology_of(f: GGIndexFormat) -> PrimitiveTopology {
    match f {
        GGIndexFormat::IFMT_SOUP_16U => PrimitiveTopology::TriangleList,
        GGIndexFormat::IFMT_SOUP_32U => PrimitiveTopology::TriangleList,
        GGIndexFormat::IFMT_STRIP_16U => PrimitiveTopology::TriangleStrip,
        GGIndexFormat::IFMT_STRIP_32U => PrimitiveTopology::TriangleStrip,
        GGIndexFormat::IFMT_UNDEFINED => PrimitiveTopology::TriangleList,
    }
}

/// Build mesh data from the boundary's raw vertex and index bytes: the
/// vertex bytes decode as interleaved vertices, the index bytes as 16-bit
/// or 32-bit words per the index format, and the topology follows the
/// index format. Undefined formats are refused.
#[allow(non_snake_case)]
pub fn MeshData_Alloc_Polygon(
    ctx: &mut Context,
    vertex_format: GGVertexFormat,
    vertex_bytes: &Vec<u8>,
    index_format: GGIndexFormat,
    index_bytes: &Vec<u8>,
) -> (r: Option<MeshData>)
    requires
        old(ctx).next_handle_spec() < u64::MAX,
    ensures
        final(ctx).device_spec() == old(ctx).device_spec(),
        final(ctx).queue_spec() == old(ctx).queue_spec(),
        r is Some <==> (vertex_format == GGVertexFormat::VFMT_PNTL_32F && index_format
            != GGIndexFormat::IFMT_UNDEFINED),
        r matches Some(md) ==> {
            &&& md.handle_spec() == old(ctx).next_handle_spec()
            &&& md.vertices_spec() == decoded_pntls(vertex_bytes@)
            &&& md.topology_spec() == topology_of(index_format)
            &&& ((index_format == GGIndexFormat::IFMT_SOUP_16U || index_format
                == GGIndexFormat::IFMT_STRIP_16U) ==> (md.indices_spec() matches IndexBuffer::U16(
                v,
            ) && v@ == decoded_u16s(index_bytes@)))
            &&& ((index_format == GGIndexFormat::IFMT_SOUP_32U || index_format
                == GGIndexFormat::IFMT_STRIP_32U) ==> (md.indices_spec() matches IndexBuffer::U32(
                v,
            ) && v@ == decoded_u32s(index_bytes@)))
        },
        r is None ==> *final(ctx) == *old(ctx),
{
    match vertex_format {
        GGVertexFormat::VFMT_PNTL_32F => {},
        _ => {
            return None;
        },
    }
    let vertices = decode_pntls(vertex_bytes);
    let topology = match index_format {
        GGIndexFormat::IFMT_SOUP_16U => PrimitiveTopology::TriangleList,
        GGIndexFormat::IFMT_SOUP_32U => PrimitiveTopology::TriangleList,
        GGIndexFormat::IFMT_STRIP_16U => PrimitiveTopology::TriangleStrip,
        GGIndexFormat::IFMT_STRIP_32U => PrimitiveTopology::TriangleStrip,
        GGIndexFormat::IFMT_UNDEFINED => {
            return None;
        },
    };
    match index_format {
        GGIndexFormat::IFMT_SOUP_16U | GGIndexFormat::IFMT_STRIP_16U => {
            let indices = decode_u16s(index_bytes);
            Some(MeshData::new_u16(ctx, vertices, indices, topology))
        },
        _ => {
            let indices = decode_u32s(index_bytes);
            Some(MeshData::new_u32(ctx, vertices, indices, topology))
        },
    }
}

/// The four little-endian bytes of a 32-bit word.
pub open spec fn u32_le_bytes(x: u32) -> Seq<u8> {
    seq![
        (x % 0x100) as u8,
        ((x / 0x100) % 0x100) as u8,
        ((x / 0x10000) % 0x100) as u8,
        ((x / 0x1000000) % 0x100) as u8,
    ]
}

/// A 32-bit index list encoded as little-endian bytes, in order.
pub open spec fn encode_u32s(ws: Seq<u32>) -> Seq<u8>
    decreases ws.len(),
{
    if ws.len() == 0 {
        Seq::empty()
    } else {
        encode_u32s(ws.drop_last()) + u32_le_bytes(ws.last())
    }
}

/// Encode a 32-bit index list as little-endian bytes, the inverse of the
/// index decoding above.
pub fn encode_indices_u32(ws: &Vec<u32>) -> (r: Vec<u8>)
    ensures
        r@ == encode_u32s(ws@),
{
    let n = ws.len();
    let mut r: Vec<u8> = Vec::new();
    for k in 0..n
        invariant
            r@ =~= encode_u32s(ws@.take(k as int)),
    {
        let x = ws[k];
        r.push((x % 0x100) as u8);
        r.push(((x / 0x100) % 0x100) as u8);
        r.push(((x / 0x10000) % 0x100) as u8);
        r.push(((x / 0x1000000) % 0x100) as u8);
        proof {
            let taken = ws@.take(k as int + 1);
            assert(taken.drop_last() =~= ws@.take(k as int));
            assert(taken.last() == ws@[k as int]);
            assert(r@ =~= encode_u32s(ws@.take(k as int)) + u32_le_bytes(ws@[k as int]));
        }
    }
    assert(ws@.take(n as int) =~= ws@);
    r
}

proof fn lemma_u32_le_bytes_round(x: u32)
    ensures
        u32_le_at(u32_le_bytes(x), 0) == x,
{
    let a = x as int;
    lemma_fundamental_div_mod(a, 0x100);
    lemma_fundamental_div_mod(a / 0x100, 0x100);
    lemma_fundamental_div_mod(a / 0x10000, 0x100);
    lemma_div_denominator(a, 0x100, 0x100);
    lemma_div_denominator(a, 0x10000, 0x100);
    assert(a / 0x1000000 < 0x100);
    lemma_small_mod((a / 0x1000000) as nat, 0x100);
}

proof fn lemma_encode_u32s_index(ws: Seq<u32>, k: int)
    requires
        0 <= k < ws.len(),
    ensures
        encode_u32s(ws).len() == 4 * ws.len(),
        forall|j: int| 0 <= j < 4 ==> encode_u32s(ws)[4 * k + j] == u32_le_bytes(ws[k])[j],
    decreases ws.len(),
{
    if ws.len() > 0 {
        if k < ws.len() - 1 {
            lemma_encode_u32s_index(ws.drop_last(), k);
            assert(ws.drop_last()[k] == ws[k]);
            assert forall|j: int| 0 <= j < 4 implies encode_u32s(ws)[4 * k + j] == u32_le_bytes(
                ws[k],
            )[j] by {
                assert(encode_u32s(ws)[4 * k + j] == encode_u32s(ws.drop_last())[4 * k + j]);
            }
        } else {
            if ws.len() > 1 {
                lemma_encode_u32s_index(ws.drop_last(), 0);
            } else {
                assert(encode_u32s(ws.drop_last()).len() == 0);
            }
        }
    }
}

/// Index buffer round trip: a 32-bit index list encoded to bytes and
/// decoded back (as building mesh data from a 32-bit index format does)
/// yields exactly the original indices, in order.
pub proof fn lemma_index_buffer_round_trip(ws: Seq<u32>)
    ensures
        decoded_u32s(encode_u32s(ws)) == ws,
{
    if ws.len() > 0 {
        lemma_encode_u32s_index(ws, 0);
    } else {
        assert(encode_u32s(ws).len() == 0);
    }
    assert forall|k: int| 0 <= k < ws.len() implies decoded_u32s(encode_u32s(ws))[k] == ws[k] by {
        lemma_encode_u32s_index(ws, k);
        lemma_u32_le_bytes_round(ws[k]);
        assert(u32_le_at(encode_u32s(ws), 4 * k) == u32_le_at(u32_le_bytes(ws[k]), 0)) by {
            assert(encode_u32s(ws)[4 * k] == u32_le_bytes(ws[k])[0]);
            assert(encode_u32s(ws)[4 * k + 1] == u32_le_bytes(ws[k])[1]);
            assert(encode_u32s(ws)[4 * k + 2] == u32_le_bytes(ws[k])[2]);
            assert(encode_u32s(ws)[4 * k + 3] == u32_le_bytes(ws[k])[3]);
        }
    }
    assert(decoded_u32s(encode_u32s(ws)) =~= ws);
}

} // verus!
