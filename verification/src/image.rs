//! The native image and its creation parameters.
//!
//! The flow creates exactly one unbound 2D image — one mip level, one array
//! layer, one sample, exclusive sharing, undefined initial layout — then
//! binds a single memory block to it. Binding is a one-time, irreversible
//! operation: a bound image is never rebound, and an image must be bound
//! before it can be used.

use vstd::prelude::*;
use crate::memory::MemoryRequirements;

verus! {

/// A texture format. The portable and the native layer must agree on it
/// bit for bit, so one type serves both; [`native_format_code`] gives the
/// native driver's numeric code of each variant.
#[derive(Clone, Copy, Debug, PartialEq, Eq, Structural)]
pub enum TextureFormat {
    /// Four 8-bit channels, linear.
    Rgba8Unorm,
    /// Four 8-bit channels, sRGB-encoded.
    Rgba8UnormSrgb,
}

/// How many bytes one pixel of the format occupies.
pub open spec fn spec_bytes_per_pixel(format: TextureFormat) -> u32 {
    match format {
        TextureFormat::Rgba8Unorm => 4,
        TextureFormat::Rgba8UnormSrgb => 4,
    }
}

/// How many bytes one pixel of the format occupies.
pub fn bytes_per_pixel(format: TextureFormat) -> (r: u32)
    ensures
        r == spec_bytes_per_pixel(format),
{
    match format {
        TextureFormat::Rgba8Unorm => 4,
        TextureFormat::Rgba8UnormSrgb => 4,
    }
}

/// The native driver's numeric format code of each variant.
pub open spec fn spec_native_format_code(format: TextureFormat) -> u32 {
    match format {
        TextureFormat::Rgba8Unorm => 37,
        TextureFormat::Rgba8UnormSrgb => 43,
    }
}

/// The native driver's numeric format code of each variant, for the shell
/// to hand to the driver when it creates the image.
pub fn native_format_code(format: TextureFormat) -> (r: u32)
    ensures
        r == spec_native_format_code(format),
{
    match format {
        TextureFormat::Rgba8Unorm => 37,
        TextureFormat::Rgba8UnormSrgb => 43,
    }
}

/// The logical dimensionality of a texture.
#[derive(Clone, Copy, Debug, PartialEq, Eq, Structural)]
pub enum TextureDimension {
    D1,
    D2,
    D3,
}

/// The physical layout policy of image data in memory.
#[derive(Clone, Copy, Debug, PartialEq, Eq, Structural)]
pub enum ImageTiling {
    Optimal,
    Linear,
}

/// The initial layout an image is created in.
#[derive(Clone, Copy, Debug, PartialEq, Eq, Structural)]
pub enum ImageLayout {
    Undefined,
    Preinitialized,
}

/// Whether concurrent queue-family access to the image is allowed.
#[derive(Clone, Copy, Debug, PartialEq, Eq, Structural)]
pub enum SharingMode {
    Exclusive,
    Concurrent,
}

/// The operations the native image is created for.
#[derive(Clone, Copy, Debug, PartialEq, Eq, Structural)]
pub struct ImageUsage {
    pub color_attachment: bool,
    pub sampled: bool,
    pub transfer_src: bool,
    pub transfer_dst: bool,
}

/// An extent in texels: width, height, and depth or array-layer count.
#[derive(Clone, Copy, Debug, PartialEq, Eq, Structural)]
pub struct Extent3d {
    pub width: u32,
    pub height: u32,
    pub depth_or_array_layers: u32,
}

/// Everything the native driver needs to create the image, as plain values.
#[derive(Clone, Copy, Debug, PartialEq, Eq, Structural)]
pub struct ImageCreateInfo {
    pub image_type: TextureDimension,
    pub extent: Extent3d,
    pub mip_levels: u32,
    pub array_layers: u32,
    pub format: TextureFormat,
    pub tiling: ImageTiling,
    pub initial_layout: ImageLayout,
    pub usage: ImageUsage,
    pub sharing_mode: SharingMode,
    pub samples: u32,
}

/// Configure the one image this flow creates: a 2D image of the given size,
/// format, tiling and usage, with exactly one mip level, one array layer and
/// one sample, exclusive sharing, and undefined initial layout.
pub fn image_create_info(
    width: u32,
    height: u32,
    format: TextureFormat,
    tiling: ImageTiling,
    usage: ImageUsage,
) -> (r: ImageCreateInfo)
    requires
        width >= 1,
        height >= 1,
    ensures
        r == (ImageCreateInfo {
            image_type: TextureDimension::D2,
            extent: Extent3d { width, height, depth_or_array_layers: 1 },
            mip_levels: 1,
            array_layers: 1,
            format,
            tiling,
            initial_layout: ImageLayout::Undefined,
            usage,
            sharing_mode: SharingMode::Exclusive,
            samples: 1,
        }),
{
    ImageCreateInfo {
        image_type: TextureDimension::D2,
        extent: Extent3d { width, height, depth_or_array_layers: 1 },
        mip_levels: 1,
        array_layers: 1,
        format,
        tiling,
        initial_layout: ImageLayout::Undefined,
        usage,
        sharing_mode: SharingMode::Exclusive,
        samples: 1,
    }
}

/// The raw pixel bytes of a tightly packed image of the given size and
/// format.
pub open spec fn image_byte_size(width: u32, height: u32, format: TextureFormat) -> int {
    width * height * spec_bytes_per_pixel(format)
}

/// Whether driver-reported requirements are large enough for the image they
/// were queried for: at least width × height × bytes-per-pixel. The shell
/// holds what the driver returned against this before allocating.
pub fn requirements_cover_image(
    requirements: &MemoryRequirements,
    width: u32,
    height: u32,
    format: TextureFormat,
) -> (r: bool)
    ensures
        r == (requirements.size >= image_byte_size(width, height, format)),
{
    let bpp = bytes_per_pixel(format);
    proof {
        assert(bpp <= 4);
        assert((width as int) * (height as int) <= 0xffffffff * 0xffffffff
            && (width as int) * (height as int) * (bpp as int) <= 0xffffffff * 0xffffffff * 4)
            by (nonlinear_arith)
            requires
                width <= 0xffffffffu32,
                height <= 0xffffffffu32,
                bpp <= 4u32,
        ;
    }
    let needed: u128 = (width as u128) * (height as u128) * (bpp as u128);
    (requirements.size as u128) >= needed
}

/// Failure of a binding attempt.
#[derive(Clone, Copy, Debug, PartialEq, Eq, Structural)]
pub enum BindError {
    /// The image already has memory bound to it; binding is one-time.
    AlreadyBound,
}

/// A driver-level image object, tracked from creation (unbound) to the
/// single binding of its backing memory. Handles are the driver's opaque
/// 64-bit values.
#[derive(Clone, Copy, Debug, PartialEq, Eq, Structural)]
pub struct NativeImage {
    pub handle: u64,
    pub memory: Option<u64>,
}

impl NativeImage {
    /// A freshly created image: no memory bound yet.
    pub fn new_unbound(handle: u64) -> (r: NativeImage)
        ensures
            r.handle == handle,
            r.memory is None,
    {
        NativeImage { handle, memory: None }
    }

    /// Whether backing memory has been bound to the image.
    pub open spec fn is_bound(&self) -> bool {
        self.memory is Some
    }

    /// Record the binding of a memory block to this image, at offset zero
    /// as the flow demands. Binding is one-time and irreversible: on an
    /// already-bound image the attempt fails and the existing binding is
    /// left untouched — the block is never reassigned.
    pub fn try_bind(&mut self, memory: u64, offset: u64) -> (r: Result<(), BindError>)
        requires
            offset == 0,
        ensures
            final(self).handle == old(self).handle,
            old(self).memory is None ==> r is Ok && final(self).memory == Some(memory),
            old(self).memory is Some ==> r == Err::<(), BindError>(BindError::AlreadyBound)
                && final(self).memory == old(self).memory,
    {
        match self.memory {
            Option::None => {
                self.memory = Some(memory);
                Ok(())
            },
            Option::Some(_) => Err(BindError::AlreadyBound),
        }
    }
}

} // verus!
