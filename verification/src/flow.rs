//! The one-shot texture flow: the fixed configuration under which the
//! manual texture is created and imported, and the backend check that
//! guards the native escape hatch.
//!
//! The shell drives the flow in the stated order — create the image from
//! [`TextureBuildRequest::create_info`], query its requirements, plan the
//! allocation, allocate and bind, then adopt under the two descriptors —
//! and every decision along the way is taken here, on plain values.

use vstd::prelude::*;
use crate::adopt::{
    NativeMemoryFlags, NativeTextureDescriptor, NativeTextureUse, TextureDescriptor, TextureUsage,
    descriptors_consistent, mirrors_image, spec_adopt,
};
use crate::image::{
    Extent3d, ImageCreateInfo, ImageLayout, ImageTiling, ImageUsage, NativeImage, SharingMode,
    TextureDimension, TextureFormat, image_create_info,
};
use crate::memory::DEVICE_LOCAL;

verus! {

/// The native backend families the escape hatch can encounter. The flow is
/// written against exactly one of them; every other family is a mismatch.
#[derive(Clone, Copy, Debug, PartialEq, Eq, Structural)]
pub enum NativeBackend {
    Vulkan,
    Other,
}

/// Outcome of the escape hatch: the flow may only proceed against the
/// backend family it was written for.
#[derive(Clone, Copy, Debug, PartialEq, Eq, Structural)]
pub enum BackendError {
    /// The active backend is not the native family this flow targets.
    BackendMismatch,
}

/// Gate the native escape hatch: yield the opaque native device handle only
/// when the active backend is the targeted family, and a mismatch error —
/// an unrecoverable configuration failure — otherwise.
pub fn access_native_device(active: NativeBackend, device_handle: u64) -> (r: Result<
    u64,
    BackendError,
>)
    ensures
        active is Vulkan ==> r == Ok::<u64, BackendError>(device_handle),
        !(active is Vulkan) ==> r == Err::<u64, BackendError>(BackendError::BackendMismatch),
{
    match active {
        NativeBackend::Vulkan => Ok(device_handle),
        NativeBackend::Other => Err(BackendError::BackendMismatch),
    }
}

/// The diagnostic line's name of the active backend.
pub fn backend_name(active: NativeBackend) -> (r: &'static str)
    ensures
        active is Vulkan ==> r@ == "vulkan"@,
        !(active is Vulkan) ==> r@ == "not_vulkan"@,
{
    match active {
        NativeBackend::Vulkan => "vulkan",
        NativeBackend::Other => "not_vulkan",
    }
}

/// The image configuration of the manual texture flow: a 2D image of the
/// given size in the flow's fixed format, optimally tiled, usable as a
/// colour attachment, for sampling, and as a transfer destination, with one
/// mip level, one array layer and one sample.
pub open spec fn is_manual_create_info(info: ImageCreateInfo, width: u32, height: u32) -> bool {
    info == (ImageCreateInfo {
        image_type: TextureDimension::D2,
        extent: Extent3d { width, height, depth_or_array_layers: 1 },
        mip_levels: 1,
        array_layers: 1,
        format: TextureFormat::Rgba8UnormSrgb,
        tiling: ImageTiling::Optimal,
        initial_layout: ImageLayout::Undefined,
        usage: ImageUsage {
            color_attachment: true,
            sampled: true,
            transfer_src: false,
            transfer_dst: true,
        },
        sharing_mode: SharingMode::Exclusive,
        samples: 1,
    })
}

/// The native-layer descriptor of the manual texture flow: it mirrors the
/// created image exactly, asks for no memory hints and no extra view
/// formats, and declares the native usage states the resource will pass
/// through — render-target writes, both transfer directions, and sampling.
pub open spec fn is_manual_native_descriptor(
    hal: NativeTextureDescriptor,
    width: u32,
    height: u32,
) -> bool {
    &&& hal.dimension == TextureDimension::D2
    &&& hal.format == TextureFormat::Rgba8UnormSrgb
    &&& hal.mip_level_count == 1
    &&& hal.sample_count == 1
    &&& hal.size == (Extent3d { width, height, depth_or_array_layers: 1 })
    &&& hal.usage == (NativeTextureUse {
        copy_src: true,
        copy_dst: true,
        resource: true,
        color_target: true,
    })
    &&& hal.memory_flags == (NativeMemoryFlags { transient: false, prefer_coherent: false })
    &&& hal.view_formats@ == Seq::<TextureFormat>::empty()
}

/// The portable descriptor of the manual texture flow: same shape as the
/// native image, declared for texture binding and both copy directions, and
/// with no extra view formats.
pub open spec fn is_manual_portable_descriptor(
    descriptor: TextureDescriptor,
    width: u32,
    height: u32,
) -> bool {
    &&& descriptor.size == (Extent3d { width, height, depth_or_array_layers: 1 })
    &&& descriptor.mip_level_count == 1
    &&& descriptor.sample_count == 1
    &&& descriptor.dimension == TextureDimension::D2
    &&& descriptor.format == TextureFormat::Rgba8UnormSrgb
    &&& descriptor.usage == (TextureUsage {
        copy_src: true,
        copy_dst: true,
        texture_binding: true,
        render_attachment: false,
    })
    &&& descriptor.view_formats@ == Seq::<TextureFormat>::empty()
}

/// Everything the shell needs to run the flow for one texture: how to
/// create the image, which memory properties the allocation must have, and
/// the two descriptors under which the result is adopted.
pub struct TextureBuildRequest {
    pub create_info: ImageCreateInfo,
    pub required_properties: u32,
    pub native_descriptor: NativeTextureDescriptor,
    pub portable_descriptor: TextureDescriptor,
}

/// Fix the manual texture flow's configuration for a width and height: the
/// image is created per [`is_manual_create_info`], backed by device-local
/// memory, and adopted under descriptors that mirror it bit for bit.
pub fn manual_texture_request(width: u32, height: u32) -> (r: TextureBuildRequest)
    requires
        width >= 1,
        height >= 1,
    ensures
        is_manual_create_info(r.create_info, width, height),
        r.required_properties == DEVICE_LOCAL,
        is_manual_native_descriptor(r.native_descriptor, width, height),
        is_manual_portable_descriptor(r.portable_descriptor, width, height),
        mirrors_image(r.native_descriptor, r.create_info),
        descriptors_consistent(r.native_descriptor, r.portable_descriptor),
{
    let format = TextureFormat::Rgba8UnormSrgb;
    let size = Extent3d { width, height, depth_or_array_layers: 1 };
    let create_info = image_create_info(
        width,
        height,
        format,
        ImageTiling::Optimal,
        ImageUsage { color_attachment: true, sampled: true, transfer_src: false, transfer_dst: true },
    );
    let native_descriptor = NativeTextureDescriptor {
        dimension: TextureDimension::D2,
        format,
        mip_level_count: 1,
        sample_count: 1,
        size,
        usage: NativeTextureUse { copy_src: true, copy_dst: true, resource: true, color_target: true },
        memory_flags: NativeMemoryFlags { transient: false, prefer_coherent: false },
        view_formats: Vec::new(),
    };
    let portable_descriptor = TextureDescriptor {
        size,
        mip_level_count: 1,
        sample_count: 1,
        dimension: TextureDimension::D2,
        format,
        usage: TextureUsage {
            copy_src: true,
            copy_dst: true,
            texture_binding: true,
            render_attachment: false,
        },
        view_formats: Vec::new(),
    };
    proof {
        assert(native_descriptor.view_formats@ =~= Seq::<TextureFormat>::empty());
        assert(portable_descriptor.view_formats@ =~= Seq::<TextureFormat>::empty());
    }
    TextureBuildRequest {
        create_info,
        required_properties: DEVICE_LOCAL,
        native_descriptor,
        portable_descriptor,
    }
}

/// Round trip across the whole flow: a resource adopted under the manual
/// texture request's portable descriptor reports, through the query
/// interface, exactly the extent, format and mip/sample counts that went
/// into the builder.
pub proof fn lemma_manual_flow_round_trip(
    image: NativeImage,
    request: TextureBuildRequest,
    width: u32,
    height: u32,
)
    requires
        is_manual_portable_descriptor(request.portable_descriptor, width, height),
    ensures
        ({
            let r = spec_adopt(image, request.portable_descriptor);
            &&& r.descriptor.size.width == width
            &&& r.descriptor.size.height == height
            &&& r.descriptor.size.depth_or_array_layers == 1
            &&& r.descriptor.format == TextureFormat::Rgba8UnormSrgb
            &&& r.descriptor.mip_level_count == 1
            &&& r.descriptor.sample_count == 1
            &&& r.descriptor.dimension == TextureDimension::D2
        }),
{
}

} // verus!
