use vstd::prelude::*;
use crate::texture::PixelFormat;

verus! {

/// The window platforms the driver boundary can name. The integer codes
/// are fixed by the boundary's contract and mapped here by value: an
/// out-of-range code is an error, never undefined behavior.
#[allow(non_camel_case_types)]
#[derive(Clone, Copy, Debug, PartialEq, Eq, Structural)]
pub enum GGPlatform {
    UNDEFINED,
    WIN32,
    X11,
    WAYLAND,
    OSX,
}

impl GGPlatform {
    pub open spec fn from_u64_spec(val: u64) -> Option<GGPlatform> {
        if val == 0 {
            Some(GGPlatform::UNDEFINED)
        } else if val == 1 {
            Some(GGPlatform::WIN32)
        } else if val == 2 {
            Some(GGPlatform::X11)
        } else if val == 3 {
            Some(GGPlatform::WAYLAND)
        } else if val == 4 {
            Some(GGPlatform::OSX)
        } else {
            None
        }
    }

    /// Decode a platform code, rejecting unknown codes.
    pub fn from_u64(val: u64) -> (r: Option<GGPlatform>)
        ensures
            r == Self::from_u64_spec(val),
    {
        if val == 0 {
            Some(GGPlatform::UNDEFINED)
        } else if val == 1 {
            Some(GGPlatform::WIN32)
        } else if val == 2 {
            Some(GGPlatform::X11)
        } else if val == 3 {
            Some(GGPlatform::WAYLAND)
        } else if val == 4 {
            Some(GGPlatform::OSX)
        } else {
            None
        }
    }

    pub fn to_u64(self) -> (r: u64)
        ensures
            Self::from_u64_spec(r) == Some(self),
    {
        match self {
            GGPlatform::UNDEFINED => 0,
            GGPlatform::WIN32 => 1,
            GGPlatform::X11 => 2,
            GGPlatform::WAYLAND => 3,
            GGPlatform::OSX => 4,
        }
    }
}

/// The vertex layouts the driver boundary can name.
#[allow(non_camel_case_types)]
#[derive(Clone, Copy, Debug, PartialEq, Eq, Structural)]
pub enum GGVertexFormat {
    VFMT_UNDEFINED,
    VFMT_PNTL_32F,
    VFMT_PNTLB3_32F,
    VFMT_PNTLB7_32F,
}

/// The index layouts the driver boundary can name: triangle soup or strip,
/// with 16-bit or 32-bit indices.
#[allow(non_camel_case_types)]
#[derive(Clone, Copy, Debug, PartialEq, Eq, Structural)]
pub enum GGIndexFormat {
    IFMT_UNDEFINED,
    IFMT_SOUP_16U,
    IFMT_SOUP_32U,
    IFMT_STRIP_16U,
    IFMT_STRIP_32U,
}

/// The distance-field layouts the driver boundary can name.
#[allow(non_camel_case_types)]
#[derive(Clone, Copy, Debug, PartialEq, Eq, Structural)]
pub enum GGDistanceFormat {
    DFMT_UNDEFINED,
    DFMT_EXACT_DISTANCE_8,
    DFMT_EXACT_DISTANCE_32F,
    DFMT_BOUND_DISTANCE_8,
    DFMT_BOUND_DISTANCE_32F,
}

/// The pixel formats the driver boundary can name; only a few of them map
/// to formats the engine's backend accepts.
#[allow(non_camel_case_types)]
#[derive(Clone, Copy, Debug, PartialEq, Eq, Structural)]
pub enum GGPixelFormat {
    PFMT_UNDEFINED,
    PFMT_RGBA8,
    PFMT_RGBA8_SRGB,
    PFMT_RGBE8_SRGB,
    PFMT_A2_BGR10,
    PFMT_A2_BGR10_QRGB,
    PFMT_RGB9_E5_QRGB,
    PFMT_RGBA16F,
    PFMT_RG16F,
    PFMT_R16F,
    PFMT_RGBA32F,
    PFMT_RG32F,
    PFMT_R32F,
    PFMT_BC1,
    PFMT_BC1_SRGB,
    PFMT_BC2,
    PFMT_BC2_SRGB,
    PFMT_BC3,
    PFMT_BC3_SRGB,
    PFMT_BC4,
    PFMT_BC4_SIGNED,
    PFMT_BC5,
    PFMT_BC5_SIGNED,
    PFMT_BC6H,
    PFMT_BC6H_SIGNED,
    PFMT_BC7,
    PFMT_BC7_SRGB,
    PFMT_INVALID,
}

impl GGPixelFormat {
    pub open spec fn to_pixel_format_spec(self) -> Option<PixelFormat> {
        match self {
            GGPixelFormat::PFMT_RGBA8 => Some(PixelFormat::R8g8b8a8Unorm),
            GGPixelFormat::PFMT_RGBA8_SRGB => Some(PixelFormat::R8g8b8a8Srgb),
            GGPixelFormat::PFMT_RGBA32F => Some(PixelFormat::R32g32b32a32Sfloat),
            GGPixelFormat::PFMT_RGBA16F => Some(PixelFormat::R16g16b16a16Sfloat),
            _ => None,
        }
    }

    /// The backend format a boundary pixel format selects; the formats the
    /// backend does not support select none.
    pub fn to_pixel_format(self) -> (r: Option<PixelFormat>)
        ensures
            r == self.to_pixel_format_spec(),
    {
        match self {
            GGPixelFormat::PFMT_RGBA8 => Some(PixelFormat::R8g8b8a8Unorm),
            GGPixelFormat::PFMT_RGBA8_SRGB => Some(PixelFormat::R8g8b8a8Srgb),
            GGPixelFormat::PFMT_RGBA32F => Some(PixelFormat::R32g32b32a32Sfloat),
            GGPixelFormat::PFMT_RGBA16F => Some(PixelFormat::R16g16b16a16Sfloat),
            _ => None,
        }
    }
}

/// What the driver's entry point reports back to its host.
#[allow(non_camel_case_types)]
#[derive(Clone, Copy, Debug, PartialEq, Eq, Structural)]
pub enum GGDriverStatus {
    GGD_STATUS_DRIVER_INVALID,
    GGD_STATUS_DRIVER_READY,
    GGD_STATUS_DRIVER_ERROR,
    GGD_STATUS_VERSION_INVALID,
    GGD_STATUS_SIGNATURE_INVALID,
}

/// The buffer states of the boundary's streamed buffer protocol.
#[allow(non_camel_case_types)]
#[derive(Clone, Copy, Debug, PartialEq, Eq, Structural)]
pub enum GGD_BufferStatus {
    GGD_BUFFER_NOP,
    GGD_BUFFER_READ,
    GGD_BUFFER_WRITE,
    GGD_BUFFER_CLOSED,
}

/// The text anchor points the boundary can name.
#[allow(non_camel_case_types)]
#[derive(Clone, Copy, Debug, PartialEq, Eq, Structural)]
pub enum GGTextOrigin {
    TEXT_BASELINE,
    TEXT_TOP_LEFT,
    TEXT_TOP,
    TEXT_TOP_RIGHT,
    TEXT_LEFT,
    TEXT_CENTER,
    TEXT_RIGHT,
    TEXT_BOTTOM_LEFT,
    TEXT_BOTTOM,
    TEXT_BOTTOM_RIGHT,
}

pub const IMG_USAGE_STATIC: u32 = 0;

pub const IMG_USAGE_TARGET: u32 = 1;

pub const IMG_USAGE_OVERLAY: u32 = 2;

pub const IMG_USAGE_GLYPH: u32 = 4;

pub const IMG_USAGE_SKYBOX: u32 = 8;

pub const IMG_USAGE_EMISSIVE: u32 = 16;

/// Image usage flags of the driver boundary, a set of the `IMG_USAGE`
/// bits.
#[derive(Clone, Copy, Debug, PartialEq, Eq, Structural)]
pub struct GGImageUsage {
    pub bits: u32,
}

impl GGImageUsage {
    pub open spec fn contains_spec(self, flags: u32) -> bool {
        self.bits & flags == flags
    }

    pub fn from_bits(bits: u32) -> (r: Self)
        ensures
            r.bits == bits,
    {
        GGImageUsage { bits }
    }

    /// Whether every one of the given flag bits is set.
    pub fn contains(self, flags: u32) -> (r: bool)
        ensures
            r <==> self.contains_spec(flags),
    {
        self.bits & flags == flags
    }
}

} // verus!
