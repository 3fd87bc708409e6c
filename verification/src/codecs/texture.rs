use vstd::prelude::*;
use crate::codecs::{read_u16_le, u16_le_at};
use crate::texture::PixelFormat;

verus! {

/// Why a byte string is not a well-formed ntx texture.
#[derive(Clone, Copy, Debug, PartialEq, Eq, Structural)]
pub enum TextureParseError {
    /// Shorter than the fixed header.
    TooShort,
    /// The magic is not `ntx`. The legacy four-byte `ntex` form is not
    /// supported and is rejected here too.
    BadMagic,
    /// The format code selects no known pixel encoding.
    BadFormat,
    /// Fewer pixel bytes than the header promises.
    TruncatedPixels,
}

/// A decoded ntx texture: header fields plus the raw pixel bytes.
#[derive(Debug)]
pub struct NtxTexture {
    pub format: PixelFormat,
    pub width: u16,
    pub height: u16,
    pub pixels: Vec<u8>,
}

/// The file starts with the three magic bytes `ntx`.
pub open spec fn ntx_magic_ok(b: Seq<u8>) -> bool {
    &&& b.len() >= 8
    &&& b[0] == 110
    &&& b[1] == 116
    &&& b[2] == 120
}

pub open spec fn ntx_format_code(b: Seq<u8>) -> u8 {
    b[3]
}

/// The pixel encoding each format code selects.
pub open spec fn ntx_format_of(code: u8) -> Option<PixelFormat> {
    if code == 0 {
        Some(PixelFormat::R8g8b8a8Srgb)
    } else if code == 1 {
        Some(PixelFormat::R8g8b8a8Unorm)
    } else if code == 2 || code == 3 {
        Some(PixelFormat::A2b10g10r10Unorm)
    } else if code == 4 {
        Some(PixelFormat::R16g16b16a16Sfloat)
    } else if code == 5 {
        Some(PixelFormat::R32g32b32a32Sfloat)
    } else {
        None
    }
}

pub open spec fn ntx_width(b: Seq<u8>) -> u16 {
    u16_le_at(b, 4)
}

pub open spec fn ntx_height(b: Seq<u8>) -> u16 {
    u16_le_at(b, 6)
}

/// Number of pixel bytes the header promises: bits per pixel times the
/// pixel count, rounded up to whole bytes.
pub open spec fn ntx_pixel_bytes(b: Seq<u8>) -> int {
    (ntx_width(b) * ntx_height(b) * ntx_format_of(ntx_format_code(b)).unwrap().bits_per_pixel_spec()
        + 7) / 8
}

/// A well-formed ntx byte string.
pub open spec fn ntx_wf(b: Seq<u8>) -> bool {
    &&& ntx_magic_ok(b)
    &&& ntx_format_of(ntx_format_code(b)) is Some
    &&& b.len() >= 8 + ntx_pixel_bytes(b)
}

impl NtxTexture {
    /// What a well-formed ntx byte string decodes to.
    pub open spec fn decodes(self, b: Seq<u8>) -> bool {
        &&& ntx_wf(b)
        &&& Some(self.format) == ntx_format_of(ntx_format_code(b))
        &&& self.width == ntx_width(b)
        &&& self.height == ntx_height(b)
        &&& self.pixels@ == b.subrange(8, 8 + ntx_pixel_bytes(b))
    }
}

/// Decode an ntx texture file: three magic bytes `ntx`, a format code, a
/// 16-bit width and height, then the raw pixel bytes. Returns the exact
/// reason on every malformed input.
pub fn from_nice_texture(data: &Vec<u8>) -> (r: Result<NtxTexture, TextureParseError>)
    ensures
        r is Ok <==> ntx_wf(data@),
        r matches Ok(t) ==> t.decodes(data@),
        r == Err::<NtxTexture, TextureParseError>(TextureParseError::TooShort) <==> data@.len()
            < 8,
        r == Err::<NtxTexture, TextureParseError>(TextureParseError::BadMagic) <==> (data@.len()
            >= 8 && !ntx_magic_ok(data@)),
        r == Err::<NtxTexture, TextureParseError>(TextureParseError::BadFormat) <==> (ntx_magic_ok(
            data@,
        ) && ntx_format_of(ntx_format_code(data@)) is None),
        r == Err::<NtxTexture, TextureParseError>(TextureParseError::TruncatedPixels) <==> (
        ntx_magic_ok(data@) && ntx_format_of(ntx_format_code(data@)) is Some && data@.len() < 8
            + ntx_pixel_bytes(data@)),
{
    if data.len() < 8 {
        return Err(TextureParseError::TooShort);
    }
    if !(data[0] == 110 && data[1] == 116 && data[2] == 120) {
        return Err(TextureParseError::BadMagic);
    }
    let code = data[3];
    let format = if code == 0 {
        PixelFormat::R8g8b8a8Srgb
    } else if code == 1 {
        PixelFormat::R8g8b8a8Unorm
    } else if code == 2 || code == 3 {
        PixelFormat::A2b10g10r10Unorm
    } else if code == 4 {
        PixelFormat::R16g16b16a16Sfloat
    } else if code == 5 {
        PixelFormat::R32g32b32a32Sfloat
    } else {
        return Err(TextureParseError::BadFormat);
    };
    let width = read_u16_le(data, 4);
    let height = read_u16_le(data, 6);
    let bpp = format.bits_per_pixel();
    proof {
        assert((width as u64) * (height as u64) <= 0xFFFF * 0xFFFF) by (nonlinear_arith)
            requires
                width <= 0xFFFF,
                height <= 0xFFFF,
        ;
        assert((width as u64) * (height as u64) * (bpp as u64) <= 0xFFFF * 0xFFFF * 128)
            by (nonlinear_arith)
            requires
                width <= 0xFFFF,
                height <= 0xFFFF,
                bpp <= 128,
        ;
    }
    let nbytes = ((width as u64) * (height as u64) * bpp + 7) / 8;
    assert(nbytes == ntx_pixel_bytes(data@));
    if (data.len() as u64) < 8 + nbytes {
        return Err(TextureParseError::TruncatedPixels);
    }
    let n = nbytes as usize;
    let mut pixels: Vec<u8> = Vec::new();
    for i in 0..n
        invariant
            n == ntx_pixel_bytes(data@),
            data@.len() >= 8 + n,
            pixels@ =~= data@.subrange(8, 8 + i as int),
    {
        pixels.push(data[8 + i]);
    }
    assert(pixels@ =~= data@.subrange(8, 8 + ntx_pixel_bytes(data@)));
    Ok(NtxTexture { format, width, height, pixels })
}

} // verus!
