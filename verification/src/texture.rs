use vstd::prelude::*;

verus! {

/// The GPU texture formats the engine can ask its backend for. Every format
/// carries a fixed number of bits per pixel.
#[derive(Clone, Copy, Debug, PartialEq, Eq, Structural)]
pub enum PixelFormat {
    R8g8b8a8Srgb,
    R8g8b8a8Unorm,
    A2b10g10r10Unorm,
    R16g16b16a16Sfloat,
    R32g32b32a32Sfloat,
    B8g8r8a8Srgb,
    D32Sfloat,
}

impl PixelFormat {
    /// Bits taken by one pixel of this format.
    pub open spec fn bits_per_pixel_spec(self) -> u64 {
        match self {
            PixelFormat::R8g8b8a8Srgb => 32,
            PixelFormat::R8g8b8a8Unorm => 32,
            PixelFormat::A2b10g10r10Unorm => 32,
            PixelFormat::R16g16b16a16Sfloat => 64,
            PixelFormat::R32g32b32a32Sfloat => 128,
            PixelFormat::B8g8r8a8Srgb => 32,
            PixelFormat::D32Sfloat => 32,
        }
    }

    pub fn bits_per_pixel(self) -> (b: u64)
        ensures
            b == self.bits_per_pixel_spec(),
            32 <= b <= 128,
    {
        match self {
            PixelFormat::R8g8b8a8Srgb => 32,
            PixelFormat::R8g8b8a8Unorm => 32,
            PixelFormat::A2b10g10r10Unorm => 32,
            PixelFormat::R16g16b16a16Sfloat => 64,
            PixelFormat::R32g32b32a32Sfloat => 128,
            PixelFormat::B8g8r8a8Srgb => 32,
            PixelFormat::D32Sfloat => 32,
        }
    }
}

/// One GPU image as the engine sees it: an identity handle plus the
/// properties the engine's bookkeeping reads. The handle identifies the
/// image; two images with equal handles are the same GPU object.
#[derive(Clone, Copy, Debug, PartialEq, Eq, Structural)]
pub struct Image {
    pub handle: u64,
    pub width: u32,
    pub height: u32,
    pub format: PixelFormat,
}

/// One dimension of the next mip level: halved, but never below one.
pub open spec fn half_extent(x: u32) -> u32 {
    if x / 2 >= 1 {
        (x / 2) as u32
    } else {
        1
    }
}

/// One blit of the mipmap generation chain: level `n` is produced by
/// blitting level `n - 1` down to half its extent.
#[derive(Clone, Copy, Debug, PartialEq, Eq, Structural)]
pub struct MipmapBlit {
    pub src_width: u32,
    pub src_height: u32,
    pub dst_width: u32,
    pub dst_height: u32,
}

/// The blit chain that fills an image's mip levels after its upload: the
/// first blit reads the full extent, every blit halves both dimensions
/// (never below one), each blit reads what the previous one wrote, and
/// the chain ends exactly at one by one.
#[verifier::rlimit(60)]
pub fn mipmap_blit_plan(width: u32, height: u32) -> (plan: Vec<MipmapBlit>)
    requires
        width >= 1,
        height >= 1,
    ensures
        (plan@.len() == 0 <==> (width == 1 && height == 1)),
        plan@.len() > 0 ==> plan@[0].src_width == width && plan@[0].src_height == height,
        forall|i: int|
            0 <= i < plan@.len() ==> {
                let b = #[trigger] plan@[i];
                b.dst_width == half_extent(b.src_width) && b.dst_height == half_extent(
                    b.src_height,
                )
            },
        forall|i: int|
            0 < i < plan@.len() ==> #[trigger] plan@[i].src_width == plan@[i - 1].dst_width
                && plan@[i].src_height == plan@[i - 1].dst_height,
        plan@.len() > 0 ==> plan@.last().dst_width == 1 && plan@.last().dst_height == 1,
{
    let mut plan: Vec<MipmapBlit> = Vec::new();
    let mut w = width;
    let mut h = height;
    while w > 1 || h > 1
        invariant
            w >= 1,
            h >= 1,
            plan@.len() == 0 ==> w == width && h == height,
            plan@.len() > 0 ==> plan@[0].src_width == width && plan@[0].src_height == height,
            plan@.len() > 0 ==> plan@.last().dst_width == w && plan@.last().dst_height == h,
            plan@.len() > 0 ==> (width > 1 || height > 1),
            forall|i: int|
                0 <= i < plan@.len() ==> {
                    let b = #[trigger] plan@[i];
                    b.dst_width == half_extent(b.src_width) && b.dst_height == half_extent(
                        b.src_height,
                    )
                },
            forall|i: int|
                0 < i < plan@.len() ==> #[trigger] plan@[i].src_width == plan@[i - 1].dst_width
                    && plan@[i].src_height == plan@[i - 1].dst_height,
        decreases w + h,
    {
        let dst_width = if w / 2 >= 1 {
            w / 2
        } else {
            1
        };
        let dst_height = if h / 2 >= 1 {
            h / 2
        } else {
            1
        };
        plan.push(MipmapBlit { src_width: w, src_height: h, dst_width, dst_height });
        w = dst_width;
        h = dst_height;
    }
    plan
}

/// A GPU-resident texture, uploaded once with mipmaps generated at
/// construction; its content never changes afterwards.
#[derive(Clone, Copy, Debug, PartialEq, Eq, Structural)]
pub struct ImmutableTexture {
    image: Image,
}

impl ImmutableTexture {
    pub closed spec fn image_spec(self) -> Image {
        self.image
    }

    /// Wrap a freshly uploaded image. The upload itself (copy plus mipmap
    /// blit chain) is the backend's work; the engine records the resulting
    /// image.
    pub fn from_image(image: Image) -> (t: Self)
        ensures
            t.image_spec() == image,
    {
        ImmutableTexture { image }
    }

    pub fn image(&self) -> (i: Image)
        ensures
            i == self.image_spec(),
    {
        self.image
    }
}

/// A render-target texture: written by the GPU every frame it is used as an
/// output attachment.
#[derive(Clone, Copy, Debug, PartialEq, Eq, Structural)]
pub struct TargetTexture {
    image: Image,
}

impl TargetTexture {
    pub closed spec fn image_spec(self) -> Image {
        self.image
    }

    /// Allocate a fresh attachment image of the given extent and format.
    pub fn new(ctx: &mut crate::Context, width: u32, height: u32, format: PixelFormat) -> (t: Self)
        requires
            old(ctx).next_handle_spec() < u64::MAX,
        ensures
            t.image_spec().handle == old(ctx).next_handle_spec(),
            t.image_spec().width == width,
            t.image_spec().height == height,
            t.image_spec().format == format,
            final(ctx).next_handle_spec() == old(ctx).next_handle_spec() + 1,
            final(ctx).device_spec() == old(ctx).device_spec(),
            final(ctx).queue_spec() == old(ctx).queue_spec(),
    {
        let handle = ctx.alloc_handle();
        TargetTexture { image: Image { handle, width, height, format } }
    }

    pub fn image(&self) -> (i: Image)
        ensures
            i == self.image_spec(),
    {
        self.image
    }
}

/// The closed set of texture variants a mesh layer or skybox can bind.
#[derive(Clone, Copy, Debug, PartialEq, Eq, Structural)]
pub enum Texture {
    Immutable(ImmutableTexture),
    Target(TargetTexture),
}

impl Texture {
    /// The GPU image this texture currently presents.
    pub open spec fn image_spec(self) -> Image {
        match self {
            Texture::Immutable(t) => t.image_spec(),
            Texture::Target(t) => t.image_spec(),
        }
    }

    pub fn image(&self) -> (i: Image)
        ensures
            i == self.image_spec(),
    {
        match self {
            Texture::Immutable(t) => t.image(),
            Texture::Target(t) => t.image(),
        }
    }
}

} // verus!
