//! The import adapter: wrapping a natively created image in the portable
//! abstraction's resource descriptors so its tracking and validation treat
//! it as a first-class resource.
//!
//! Adoption takes two descriptors — one for the abstraction's native layer,
//! one portable — and both must mirror the native image's actual
//! configuration bit for bit; the abstraction never verifies this against
//! the native object, so the consistency obligation sits here, where it is
//! checked.

use vstd::prelude::*;
use crate::image::{Extent3d, ImageCreateInfo, NativeImage, TextureDimension, TextureFormat};

verus! {

/// Native-layer usage states the adopted image must be able to enter:
/// render-target writes, both transfer directions, and general resource
/// sampling.
#[derive(Clone, Copy, Debug, PartialEq, Eq, Structural)]
pub struct NativeTextureUse {
    pub copy_src: bool,
    pub copy_dst: bool,
    pub resource: bool,
    pub color_target: bool,
}

/// Native-layer memory hints of the adopted image. The flow passes none.
#[derive(Clone, Copy, Debug, PartialEq, Eq, Structural)]
pub struct NativeMemoryFlags {
    pub transient: bool,
    pub prefer_coherent: bool,
}

/// Portable-layer usages the adopted resource is declared for.
#[derive(Clone, Copy, Debug, PartialEq, Eq, Structural)]
pub struct TextureUsage {
    pub copy_src: bool,
    pub copy_dst: bool,
    pub texture_binding: bool,
    pub render_attachment: bool,
}

/// The abstraction's native-layer description of the adopted image.
#[derive(Debug)]
pub struct NativeTextureDescriptor {
    pub dimension: TextureDimension,
    pub format: TextureFormat,
    pub mip_level_count: u32,
    pub sample_count: u32,
    pub size: Extent3d,
    pub usage: NativeTextureUse,
    pub memory_flags: NativeMemoryFlags,
    pub view_formats: Vec<TextureFormat>,
}

/// The portable resource descriptor: the abstraction layer's declaration of
/// the resource's logical shape.
#[derive(Debug)]
pub struct TextureDescriptor {
    pub size: Extent3d,
    pub mip_level_count: u32,
    pub sample_count: u32,
    pub dimension: TextureDimension,
    pub format: TextureFormat,
    pub usage: TextureUsage,
    pub view_formats: Vec<TextureFormat>,
}

/// The native-layer descriptor mirrors the image as the driver actually
/// created it: same extent, format, dimension and mip/sample counts.
pub open spec fn mirrors_image(hal: NativeTextureDescriptor, info: ImageCreateInfo) -> bool {
    &&& hal.size == info.extent
    &&& hal.format == info.format
    &&& hal.dimension == info.image_type
    &&& hal.mip_level_count == info.mip_levels
    &&& hal.sample_count == info.samples
}

/// The two descriptors handed to the adoption entry point agree bit for
/// bit on everything they both state.
pub open spec fn descriptors_consistent(
    hal: NativeTextureDescriptor,
    descriptor: TextureDescriptor,
) -> bool {
    &&& hal.size == descriptor.size
    &&& hal.format == descriptor.format
    &&& hal.dimension == descriptor.dimension
    &&& hal.mip_level_count == descriptor.mip_level_count
    &&& hal.sample_count == descriptor.sample_count
    &&& hal.view_formats@ == descriptor.view_formats@
}

/// The resource after adoption: it owns the binding between the native
/// image and the portable descriptor for the rest of its lifetime, and the
/// abstraction tracks it as if it had created it.
pub struct AdoptedResource {
    pub image: NativeImage,
    pub descriptor: TextureDescriptor,
}

/// What adoption constructs from a bound image and its portable descriptor.
pub open spec fn spec_adopt(image: NativeImage, descriptor: TextureDescriptor) -> AdoptedResource {
    AdoptedResource { image, descriptor }
}

/// Adopt a foreign image: hand the native handle and its two descriptors to
/// the abstraction's resource tracking. The image must already be bound —
/// an unbound image must not be used — and the descriptors must agree,
/// since the abstraction will not check them against the native object.
pub fn adopt(
    image: NativeImage,
    hal_descriptor: &NativeTextureDescriptor,
    descriptor: TextureDescriptor,
) -> (r: AdoptedResource)
    requires
        image.is_bound(),
        descriptors_consistent(*hal_descriptor, descriptor),
    ensures
        r == spec_adopt(image, descriptor),
{
    AdoptedResource { image, descriptor }
}

impl AdoptedResource {
    /// The width the resource reports through the normal query interface.
    pub fn width(&self) -> (r: u32)
        ensures
            r == self.descriptor.size.width,
    {
        self.descriptor.size.width
    }

    /// The height the resource reports through the normal query interface.
    pub fn height(&self) -> (r: u32)
        ensures
            r == self.descriptor.size.height,
    {
        self.descriptor.size.height
    }

    /// The depth or array-layer count the resource reports.
    pub fn depth_or_array_layers(&self) -> (r: u32)
        ensures
            r == self.descriptor.size.depth_or_array_layers,
    {
        self.descriptor.size.depth_or_array_layers
    }

    /// The format the resource reports.
    pub fn format(&self) -> (r: TextureFormat)
        ensures
            r == self.descriptor.format,
    {
        self.descriptor.format
    }

    /// The dimensionality the resource reports.
    pub fn dimension(&self) -> (r: TextureDimension)
        ensures
            r == self.descriptor.dimension,
    {
        self.descriptor.dimension
    }

    /// The mip level count the resource reports.
    pub fn mip_level_count(&self) -> (r: u32)
        ensures
            r == self.descriptor.mip_level_count,
    {
        self.descriptor.mip_level_count
    }

    /// The sample count the resource reports.
    pub fn sample_count(&self) -> (r: u32)
        ensures
            r == self.descriptor.sample_count,
    {
        self.descriptor.sample_count
    }

    /// The portable usages the resource was declared for.
    pub fn usage(&self) -> (r: TextureUsage)
        ensures
            r == self.descriptor.usage,
    {
        self.descriptor.usage
    }

    /// The native handle the resource owns.
    pub fn native_handle(&self) -> (r: u64)
        ensures
            r == self.image.handle,
    {
        self.image.handle
    }
}

/// Round trip: the resource that adoption produces reports, through the
/// query interface, exactly the extent, format, dimension and mip/sample
/// counts of the descriptor handed in — the adapter adds and changes
/// nothing, so what the builder configured is what the abstraction sees.
pub proof fn lemma_import_round_trip(image: NativeImage, descriptor: TextureDescriptor)
    ensures
        ({
            let r = spec_adopt(image, descriptor);
            &&& r.descriptor.size == descriptor.size
            &&& r.descriptor.format == descriptor.format
            &&& r.descriptor.dimension == descriptor.dimension
            &&& r.descriptor.mip_level_count == descriptor.mip_level_count
            &&& r.descriptor.sample_count == descriptor.sample_count
            &&& r.descriptor.usage == descriptor.usage
            &&& r.image == image
        }),
{
}

} // verus!
