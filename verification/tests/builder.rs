use manual_texture::image::{
    bytes_per_pixel, image_create_info, native_format_code, requirements_cover_image, BindError,
    Extent3d, ImageLayout, ImageTiling, ImageUsage, NativeImage, SharingMode, TextureDimension,
    TextureFormat,
};
use manual_texture::memory::MemoryRequirements;

#[test]
fn create_info_fixes_the_single_image_shape() {
    let usage = ImageUsage {
        color_attachment: true,
        sampled: true,
        transfer_src: false,
        transfer_dst: true,
    };
    let info = image_create_info(
        640,
        480,
        TextureFormat::Rgba8UnormSrgb,
        ImageTiling::Optimal,
        usage,
    );
    assert_eq!(info.image_type, TextureDimension::D2);
    assert_eq!(
        info.extent,
        Extent3d {
            width: 640,
            height: 480,
            depth_or_array_layers: 1
        }
    );
    assert_eq!(info.mip_levels, 1);
    assert_eq!(info.array_layers, 1);
    assert_eq!(info.format, TextureFormat::Rgba8UnormSrgb);
    assert_eq!(info.tiling, ImageTiling::Optimal);
    assert_eq!(info.initial_layout, ImageLayout::Undefined);
    assert_eq!(info.usage, usage);
    assert_eq!(info.sharing_mode, SharingMode::Exclusive);
    assert_eq!(info.samples, 1);
}

#[test]
fn bytes_per_pixel_is_four_for_rgba8() {
    assert_eq!(bytes_per_pixel(TextureFormat::Rgba8Unorm), 4);
    assert_eq!(bytes_per_pixel(TextureFormat::Rgba8UnormSrgb), 4);
}

#[test]
fn native_format_codes_match_the_driver() {
    assert_eq!(native_format_code(TextureFormat::Rgba8Unorm), 37);
    assert_eq!(native_format_code(TextureFormat::Rgba8UnormSrgb), 43);
}

#[test]
fn requirements_for_256_square_rgba_start_at_262144() {
    let enough = MemoryRequirements {
        size: 262144,
        alignment: 256,
        memory_type_bits: 0b1,
    };
    let short = MemoryRequirements {
        size: 262143,
        alignment: 256,
        memory_type_bits: 0b1,
    };
    assert!(requirements_cover_image(
        &enough,
        256,
        256,
        TextureFormat::Rgba8UnormSrgb
    ));
    assert!(!requirements_cover_image(
        &short,
        256,
        256,
        TextureFormat::Rgba8UnormSrgb
    ));
}

#[test]
fn requirements_check_handles_large_extents() {
    let r = MemoryRequirements {
        size: u64::MAX,
        alignment: 256,
        memory_type_bits: 0b1,
    };
    assert!(!requirements_cover_image(
        &r,
        u32::MAX,
        u32::MAX,
        TextureFormat::Rgba8Unorm
    ));
}

#[test]
fn new_image_is_unbound() {
    let image = NativeImage::new_unbound(11);
    assert_eq!(image.handle, 11);
    assert_eq!(image.memory, None);
}

#[test]
fn binding_is_one_time_and_keeps_the_first_block() {
    let mut image = NativeImage::new_unbound(11);
    assert!(image.try_bind(42, 0).is_ok());
    assert_eq!(image.memory, Some(42));
    assert!(matches!(image.try_bind(43, 0), Err(BindError::AlreadyBound)));
    assert_eq!(image.memory, Some(42));
    assert_eq!(image.handle, 11);
}
