use vstd::prelude::*;
use crate::codecs::{read_u16_le, read_u32_le, u16_le_at, u32_le_at};
use crate::mesh_data::Pntl_32F;

verus! {

/// Why a byte string is not a well-formed nmdl model.
#[derive(Clone, Copy, Debug, PartialEq, Eq, Structural)]
pub enum ModelParseError {
    /// Shorter than the fixed header.
    TooShort,
    /// The magic is not `nmdl`.
    BadMagic,
    /// A vertex, index, material or texture-name region reaches past the
    /// end of the file.
    OutOfBounds,
    /// The material index ranges together exceed the addressable size.
    RangeOverflow,
}

/// One material as the file stores it: the slice of the index buffer it
/// draws, the names of its two texture files, and its shading parameters.
#[derive(Debug)]
pub struct MaterialInfo {
    pub range_start: usize,
    pub range_end: usize,
    pub tex1: Vec<u8>,
    pub tex2: Vec<u8>,
    pub light_penetration: u8,
    pub subsurface_scattering: u8,
    pub emissive_brightness: u16,
    pub base_color_r: u8,
    pub base_color_g: u8,
    pub base_color_b: u8,
}

/// A decoded nmdl model: interleaved vertices, the 32-bit index list, and
/// the material table.
#[derive(Debug)]
pub struct NiceModel {
    pub vertices: Vec<Pntl_32F>,
    pub indices: Vec<u32>,
    pub materials: Vec<MaterialInfo>,
}

/// The fixed header: four magic bytes, a skipped version word, then the
/// counts and offsets of every region.
pub open spec fn nmdl_magic_ok(b: Seq<u8>) -> bool {
    &&& b.len() >= 41
    &&& b[0] == 110
    &&& b[1] == 109
    &&& b[2] == 100
    &&& b[3] == 108
}

pub open spec fn nmdl_vertex_count(b: Seq<u8>) -> u32 {
    u32_le_at(b, 8)
}

pub open spec fn nmdl_positions_offset(b: Seq<u8>) -> u32 {
    u32_le_at(b, 12)
}

pub open spec fn nmdl_normals_offset(b: Seq<u8>) -> u32 {
    u32_le_at(b, 16)
}

pub open spec fn nmdl_texcoords_main_offset(b: Seq<u8>) -> u32 {
    u32_le_at(b, 20)
}

pub open spec fn nmdl_texcoords_lightmap_offset(b: Seq<u8>) -> u32 {
    u32_le_at(b, 24)
}

pub open spec fn nmdl_index_count(b: Seq<u8>) -> u32 {
    u32_le_at(b, 28)
}

pub open spec fn nmdl_indices_offset(b: Seq<u8>) -> u32 {
    u32_le_at(b, 32)
}

pub open spec fn nmdl_material_count(b: Seq<u8>) -> u8 {
    b[36]
}

pub open spec fn nmdl_materials_offset(b: Seq<u8>) -> u32 {
    u32_le_at(b, 37)
}

/// The vertex regions, the index region and the material records all lie
/// inside the file.
pub open spec fn nmdl_arrays_ok(b: Seq<u8>) -> bool {
    let vc = nmdl_vertex_count(b) as int;
    let ic = nmdl_index_count(b) as int;
    let mc = nmdl_material_count(b) as int;
    &&& nmdl_positions_offset(b) + 12 * vc <= b.len()
    &&& nmdl_normals_offset(b) + 12 * vc <= b.len()
    &&& nmdl_texcoords_main_offset(b) + 8 * vc <= b.len()
    &&& nmdl_texcoords_lightmap_offset(b) + 8 * vc <= b.len()
    &&& nmdl_indices_offset(b) + 4 * ic <= b.len()
    &&& nmdl_materials_offset(b) + 23 * mc <= b.len()
}

/// Offset of material record `k`: the records are 23 bytes each.
pub open spec fn mat_base(b: Seq<u8>, k: int) -> int {
    nmdl_materials_offset(b) + 23 * k
}

pub open spec fn mat_index_count(b: Seq<u8>, k: int) -> u32 {
    u32_le_at(b, mat_base(b, k))
}

pub open spec fn mat_tex1_size(b: Seq<u8>, k: int) -> u16 {
    u16_le_at(b, mat_base(b, k) + 4)
}

pub open spec fn mat_tex1_offset(b: Seq<u8>, k: int) -> u32 {
    u32_le_at(b, mat_base(b, k) + 6)
}

pub open spec fn mat_tex2_size(b: Seq<u8>, k: int) -> u16 {
    u16_le_at(b, mat_base(b, k) + 10)
}

pub open spec fn mat_tex2_offset(b: Seq<u8>, k: int) -> u32 {
    u32_le_at(b, mat_base(b, k) + 12)
}

/// Every texture name lies inside the file.
pub open spec fn nmdl_names_ok(b: Seq<u8>) -> bool {
    forall|k: int|
        0 <= k < nmdl_material_count(b) ==> #[trigger] mat_base(b, k) >= 0 && mat_tex1_offset(b, k)
            + mat_tex1_size(b, k) <= b.len() && mat_tex2_offset(b, k) + mat_tex2_size(b, k)
            <= b.len()
}

/// First index of material `k`'s range: the index counts of the materials
/// before it, summed.
pub open spec fn mat_range_start(b: Seq<u8>, k: int) -> int
    decreases k,
{
    if k <= 0 {
        0
    } else {
        mat_range_start(b, k - 1) + mat_index_count(b, k - 1)
    }
}

/// The material ranges stay addressable.
pub open spec fn nmdl_ranges_fit(b: Seq<u8>) -> bool {
    mat_range_start(b, nmdl_material_count(b) as int) <= usize::MAX
}

/// The name used when a material stores an empty texture name.
pub open spec fn default_name() -> Seq<u8> {
    seq![100u8, 101u8, 102u8, 97u8, 117u8, 108u8, 116u8, 46u8, 110u8, 116u8, 120u8]
}

pub open spec fn mat_tex1_name(b: Seq<u8>, k: int) -> Seq<u8> {
    if mat_tex1_size(b, k) == 0 {
        default_name()
    } else {
        b.subrange(mat_tex1_offset(b, k) as int, mat_tex1_offset(b, k) + mat_tex1_size(b, k))
    }
}

pub open spec fn mat_tex2_name(b: Seq<u8>, k: int) -> Seq<u8> {
    if mat_tex2_size(b, k) == 0 {
        default_name()
    } else {
        b.subrange(mat_tex2_offset(b, k) as int, mat_tex2_offset(b, k) + mat_tex2_size(b, k))
    }
}

/// Vertex `k`, assembled from the four per-attribute regions.
pub open spec fn nmdl_vertex_at(b: Seq<u8>, k: int) -> Pntl_32F {
    let p = nmdl_positions_offset(b) + 12 * k;
    let n = nmdl_normals_offset(b) + 12 * k;
    let t = nmdl_texcoords_main_offset(b) + 8 * k;
    let l = nmdl_texcoords_lightmap_offset(b) + 8 * k;
    Pntl_32F {
        pos_x: u32_le_at(b, p),
        pos_y: u32_le_at(b, p + 4),
        pos_z: u32_le_at(b, p + 8),
        nor_x: u32_le_at(b, n),
        nor_y: u32_le_at(b, n + 4),
        nor_z: u32_le_at(b, n + 8),
        texc_u: u32_le_at(b, t),
        texc_v: u32_le_at(b, t + 4),
        lmap_u: u32_le_at(b, l),
        lmap_v: u32_le_at(b, l + 4),
    }
}

pub open spec fn nmdl_index_at(b: Seq<u8>, k: int) -> u32 {
    u32_le_at(b, nmdl_indices_offset(b) + 4 * k)
}

/// A well-formed nmdl byte string.
pub open spec fn nmdl_wf(b: Seq<u8>) -> bool {
    &&& nmdl_magic_ok(b)
    &&& nmdl_arrays_ok(b)
    &&& nmdl_names_ok(b)
    &&& nmdl_ranges_fit(b)
}

impl MaterialInfo {
    /// What material record `k` of a well-formed file decodes to.
    pub open spec fn decodes(self, b: Seq<u8>, k: int) -> bool {
        &&& self.range_start == mat_range_start(b, k)
        &&& self.range_end == mat_range_start(b, k + 1)
        &&& self.tex1@ == mat_tex1_name(b, k)
        &&& self.tex2@ == mat_tex2_name(b, k)
        &&& self.light_penetration == b[mat_base(b, k) + 16]
        &&& self.subsurface_scattering == b[mat_base(b, k) + 17]
        &&& self.emissive_brightness == u16_le_at(b, mat_base(b, k) + 18)
        &&& self.base_color_r == b[mat_base(b, k) + 20]
        &&& self.base_color_g == b[mat_base(b, k) + 21]
        &&& self.base_color_b == b[mat_base(b, k) + 22]
    }
}

impl NiceModel {
    /// What a well-formed nmdl byte string decodes to.
    pub open spec fn decodes(self, b: Seq<u8>) -> bool {
        &&& nmdl_wf(b)
        &&& self.vertices@.len() == nmdl_vertex_count(b)
        &&& forall|k: int|
            0 <= k < nmdl_vertex_count(b) ==> self.vertices@[k] == nmdl_vertex_at(b, k)
        &&& self.indices@.len() == nmdl_index_count(b)
        &&& forall|k: int| 0 <= k < nmdl_index_count(b) ==> self.indices@[k] == nmdl_index_at(b, k)
        &&& self.materials@.len() == nmdl_material_count(b)
        &&& forall|k: int|
            0 <= k < nmdl_material_count(b) ==> (#[trigger] self.materials@[k]).decodes(b, k)
    }
}

proof fn lemma_mat_range_monotone(b: Seq<u8>, k1: int, k2: int)
    requires
        0 <= k1 <= k2,
    ensures
        mat_range_start(b, k1) <= mat_range_start(b, k2),
    decreases k2 - k1,
{
    if k1 < k2 {
        lemma_mat_range_monotone(b, k1, k2 - 1);
    }
}

/// Copy `len` bytes starting at `off` out of the file.
fn copy_range(data: &Vec<u8>, off: usize, len: usize) -> (r: Vec<u8>)
    requires
        off + len <= data@.len(),
    ensures
        r@ == data@.subrange(off as int, off + len),
{
    let total = data.len();
    assert(off + len <= total);
    let mut r: Vec<u8> = Vec::new();
    for i in 0..len
        invariant
            r@ =~= data@.subrange(off as int, off + i),
    {
        r.push(data[off + i]);
    }
    assert(r@ =~= data@.subrange(off as int, off + len));
    r
}

/// The name a material with an empty texture name falls back to.
fn default_name_vec() -> (r: Vec<u8>)
    ensures
        r@ == default_name(),
{
    let mut r: Vec<u8> = Vec::new();
    r.push(100);
    r.push(101);
    r.push(102);
    r.push(97);
    r.push(117);
    r.push(108);
    r.push(116);
    r.push(46);
    r.push(110);
    r.push(116);
    r.push(120);
    assert(r@ =~= default_name());
    r
}

/// Decode an nmdl model file: the magic `nmdl`, a skipped version word, a
/// header of counts and offsets, four per-attribute vertex regions, the
/// 32-bit index region, and the material table with its texture names.
/// Returns the exact reason on every malformed input.
pub fn from_nice_model(data: &Vec<u8>) -> (r: Result<NiceModel, ModelParseError>)
    ensures
        r is Ok <==> nmdl_wf(data@),
        r matches Ok(m) ==> m.decodes(data@),
        r == Err::<NiceModel, ModelParseError>(ModelParseError::TooShort) <==> data@.len() < 41,
        r == Err::<NiceModel, ModelParseError>(ModelParseError::BadMagic) <==> (data@.len() >= 41
            && !nmdl_magic_ok(data@)),
        r == Err::<NiceModel, ModelParseError>(ModelParseError::OutOfBounds) <==> (nmdl_magic_ok(
            data@,
        ) && !(nmdl_arrays_ok(data@) && nmdl_names_ok(data@))),
        r == Err::<NiceModel, ModelParseError>(ModelParseError::RangeOverflow) <==> (nmdl_magic_ok(
            data@,
        ) && nmdl_arrays_ok(data@) && nmdl_names_ok(data@) && !nmdl_ranges_fit(data@)),
{
    let len = data.len();
    if len < 41 {
        return Err(ModelParseError::TooShort);
    }
    if !(data[0] == 110 && data[1] == 109 && data[2] == 100 && data[3] == 108) {
        return Err(ModelParseError::BadMagic);
    }
    let vc = read_u32_le(data, 8);
    let pos_off = read_u32_le(data, 12);
    let nor_off = read_u32_le(data, 16);
    let tex_off = read_u32_le(data, 20);
    let lmap_off = read_u32_le(data, 24);
    let ic = read_u32_le(data, 28);
    let idx_off = read_u32_le(data, 32);
    let mc = data[36];
    let mats_off = read_u32_le(data, 37);

    let len64 = len as u64;
    if (pos_off as u64) + 12 * (vc as u64) > len64 || (nor_off as u64) + 12 * (vc as u64) > len64
        || (tex_off as u64) + 8 * (vc as u64) > len64 || (lmap_off as u64) + 8 * (vc as u64)
        > len64 || (idx_off as u64) + 4 * (ic as u64) > len64 || (mats_off as u64) + 23 * (
    mc as u64) > len64 {
        return Err(ModelParseError::OutOfBounds);
    }
    assert(nmdl_arrays_ok(data@));

    let mc_us = mc as usize;
    let mats_base = mats_off as usize;
    for k in 0..mc_us
        invariant
            nmdl_magic_ok(data@),
            nmdl_arrays_ok(data@),
            len == data@.len(),
            mc == nmdl_material_count(data@),
            mats_base == nmdl_materials_offset(data@),
            forall|j: int|
                0 <= j < k ==> #[trigger] mat_base(data@, j) >= 0 && mat_tex1_offset(data@, j)
                    + mat_tex1_size(data@, j) <= data@.len() && mat_tex2_offset(data@, j)
                    + mat_tex2_size(data@, j) <= data@.len(),
    {
        let base = mats_base + 23 * k;
        let t1_off = read_u32_le(data, base + 6);
        let t1_size = read_u16_le(data, base + 4);
        let t2_off = read_u32_le(data, base + 12);
        let t2_size = read_u16_le(data, base + 10);
        if (t1_off as u64) + (t1_size as u64) > len64 || (t2_off as u64) + (t2_size as u64)
            > len64 {
            proof {
                assert(mat_base(data@, k as int) >= 0);
                assert(t1_off == mat_tex1_offset(data@, k as int));
                assert(!nmdl_names_ok(data@));
            }
            return Err(ModelParseError::OutOfBounds);
        }
    }
    assert(nmdl_names_ok(data@));

    // Material ranges: a running sum of the per-material index counts.
    let mut materials: Vec<MaterialInfo> = Vec::new();
    let mut range_index: usize = 0;
    for k in 0..mc_us
        invariant
            nmdl_magic_ok(data@),
            nmdl_arrays_ok(data@),
            nmdl_names_ok(data@),
            len == data@.len(),
            mc == nmdl_material_count(data@),
            mats_base == nmdl_materials_offset(data@),
            range_index == mat_range_start(data@, k as int),
            materials@.len() == k,
            forall|j: int| 0 <= j < k ==> (#[trigger] materials@[j]).decodes(data@, j),
    {
        let base = mats_base + 23 * k;
        let icount = read_u32_le(data, base);
        let t1_size = read_u16_le(data, base + 4);
        let t1_off = read_u32_le(data, base + 6);
        let t2_size = read_u16_le(data, base + 10);
        let t2_off = read_u32_le(data, base + 12);
        let light_penetration = data[base + 16];
        let subsurface_scattering = data[base + 17];
        let emissive_brightness = read_u16_le(data, base + 18);
        let base_color_r = data[base + 20];
        let base_color_g = data[base + 21];
        let base_color_b = data[base + 22];

        if (icount as u64) > (usize::MAX as u64) - (range_index as u64) {
            proof {
                lemma_mat_range_monotone(
                    data@,
                    k as int + 1,
                    nmdl_material_count(data@) as int,
                );
            }
            return Err(ModelParseError::RangeOverflow);
        }
        let next_index = range_index + icount as usize;

        proof {
            assert(mat_base(data@, k as int) >= 0);
            assert(mat_tex1_offset(data@, k as int) + mat_tex1_size(data@, k as int)
                <= data@.len());
        }
        let tex1 = if t1_size == 0 {
            default_name_vec()
        } else {
            copy_range(data, t1_off as usize, t1_size as usize)
        };
        let tex2 = if t2_size == 0 {
            default_name_vec()
        } else {
            copy_range(data, t2_off as usize, t2_size as usize)
        };

        materials.push(
            MaterialInfo {
                range_start: range_index,
                range_end: next_index,
                tex1,
                tex2,
                light_penetration,
                subsurface_scattering,
                emissive_brightness,
                base_color_r,
                base_color_g,
                base_color_b,
            },
        );
        range_index = next_index;
    }
    assert(nmdl_ranges_fit(data@));

    // Vertices: one pass assembling all four attribute regions.
    let vc_us = vc as usize;
    let p0 = pos_off as usize;
    let n0 = nor_off as usize;
    let t0 = tex_off as usize;
    let l0 = lmap_off as usize;
    let mut vertices: Vec<Pntl_32F> = Vec::new();
    for i in 0..vc_us
        invariant
            nmdl_arrays_ok(data@),
            len == data@.len(),
            vc == nmdl_vertex_count(data@),
            p0 == nmdl_positions_offset(data@),
            n0 == nmdl_normals_offset(data@),
            t0 == nmdl_texcoords_main_offset(data@),
            l0 == nmdl_texcoords_lightmap_offset(data@),
            vc_us == vc,
            vertices@.len() == i,
            forall|j: int| 0 <= j < i ==> vertices@[j] == nmdl_vertex_at(data@, j),
    {
        let p = p0 + 12 * i;
        let n = n0 + 12 * i;
        let t = t0 + 8 * i;
        let l = l0 + 8 * i;
        let v = Pntl_32F {
            pos_x: read_u32_le(data, p),
            pos_y: read_u32_le(data, p + 4),
            pos_z: read_u32_le(data, p + 8),
            nor_x: read_u32_le(data, n),
            nor_y: read_u32_le(data, n + 4),
            nor_z: read_u32_le(data, n + 8),
            texc_u: read_u32_le(data, t),
            texc_v: read_u32_le(data, t + 4),
            lmap_u: read_u32_le(data, l),
            lmap_v: read_u32_le(data, l + 4),
        };
        vertices.push(v);
    }

    // Indices: 32-bit words in file order.
    let ic_us = ic as usize;
    let i0 = idx_off as usize;
    let mut indices: Vec<u32> = Vec::new();
    for i in 0..ic_us
        invariant
            nmdl_arrays_ok(data@),
            len == data@.len(),
            ic == nmdl_index_count(data@),
            i0 == nmdl_indices_offset(data@),
            ic_us == ic,
            indices@.len() == i,
            forall|j: int| 0 <= j < i ==> indices@[j] == nmdl_index_at(data@, j),
    {
        indices.push(read_u32_le(data, i0 + 4 * i));
    }

    Ok(NiceModel { vertices, indices, materials })
}

} // verus!
