use cutlass::error::DecoderError;
use cutlass::hw_textures::{
    build_iosurface_texture, extract_nv12_textures, MetalPixelFormat, MetalStorageMode,
    MetalTextureDescriptor, MetalTextureUsage, PixelBuffer,
};
use cutlass::media::TextureFormat;
use cutlass::texture::{TextureDescriptor, TextureDimension, TextureUsages};

fn buffer(width: usize, height: usize) -> PixelBuffer {
    PixelBuffer {
        width,
        height,
        plane_count: 2,
        pixel_format: 0x34323076,
        has_iosurface: true,
    }
}

fn sampled(label: &'static str, width: u32, height: u32, format: TextureFormat) -> TextureDescriptor {
    TextureDescriptor {
        label,
        width,
        height,
        depth_or_array_layers: 1,
        mip_level_count: 1,
        sample_count: 1,
        dimension: TextureDimension::D2,
        format,
        usage: TextureUsages { render_attachment: false, texture_binding: true, copy_src: true },
    }
}

#[test]
fn planes_of_a_frame() {
    let layout = extract_nv12_textures(Some(buffer(1920, 1080)), true).unwrap();
    assert_eq!((layout.width, layout.height), (1920, 1080));
    assert_eq!(layout.pixel_format, 0x34323076);
    assert_eq!((layout.y.plane, layout.cbcr.plane), (0, 1));
    assert_eq!(
        layout.y.imported,
        sampled("decoder.iosurface.y", 1920, 1080, TextureFormat::R8Unorm)
    );
    assert_eq!(
        layout.cbcr.imported,
        sampled("decoder.iosurface.cbcr", 960, 540, TextureFormat::Rg8Unorm)
    );
    assert_eq!(
        layout.cbcr.metal,
        MetalTextureDescriptor {
            pixel_format: MetalPixelFormat::Rg8Unorm,
            width: 960,
            height: 540,
            depth: 1,
            mipmap_level_count: 1,
            array_length: 1,
            usage: MetalTextureUsage::ShaderRead,
            storage_mode: MetalStorageMode::Shared,
        }
    );
    assert_eq!(layout.y.metal.pixel_format, MetalPixelFormat::R8Unorm);
    let frame = layout.clone().assemble(true, true).unwrap();
    assert_eq!(frame.y_texture, layout.y.imported);
    assert_eq!(frame.cbcr_texture, layout.cbcr.imported);
    assert_eq!((frame.width, frame.height, frame.pixel_format), (1920, 1080, 0x34323076));
}

#[test]
fn odd_and_tiny_frames() {
    let layout = extract_nv12_textures(Some(buffer(7, 1)), true).unwrap();
    assert_eq!((layout.y.imported.width, layout.y.imported.height), (7, 1));
    assert_eq!((layout.cbcr.imported.width, layout.cbcr.imported.height), (3, 1));
    let layout = extract_nv12_textures(Some(buffer(0, 0)), true).unwrap();
    assert_eq!((layout.width, layout.height), (0, 0));
    assert_eq!((layout.y.imported.width, layout.y.imported.height), (1, 1));
}

#[test]
fn refused_buffers() {
    let mut planar = buffer(8, 8);
    planar.plane_count = 1;
    planar.has_iosurface = false;
    assert_eq!(
        extract_nv12_textures(None, false),
        Err(DecoderError::HwFrameMissingPixelBuffer)
    );
    assert_eq!(
        extract_nv12_textures(Some(planar), false),
        Err(DecoderError::HwFrameUnsupportedPixelFormat {
            pixel_format: 0x34323076,
            plane_count: 1,
        })
    );
    let mut bare = buffer(8, 8);
    bare.has_iosurface = false;
    assert_eq!(
        extract_nv12_textures(Some(bare), false),
        Err(DecoderError::HwFrameMissingIoSurface)
    );
    assert_eq!(
        extract_nv12_textures(Some(buffer(8, 8)), false),
        Err(DecoderError::NotMetalDevice)
    );
}

#[test]
fn textures_that_metal_refuses() {
    let layout = extract_nv12_textures(Some(buffer(8, 8)), true).unwrap();
    assert_eq!(
        layout.clone().assemble(false, false),
        Err(DecoderError::MtlTextureFromIosurfaceFailed { plane: 0 })
    );
    assert_eq!(
        layout.assemble(true, false),
        Err(DecoderError::MtlTextureFromIosurfaceFailed { plane: 1 })
    );
}

#[test]
fn one_plane() {
    let texture = build_iosurface_texture(
        1,
        MetalPixelFormat::Rg8Unorm,
        TextureFormat::Rg8Unorm,
        0,
        5,
        "plane",
    );
    assert_eq!(texture.plane, 1);
    assert_eq!(texture.imported, sampled("plane", 1, 5, TextureFormat::Rg8Unorm));
    assert_eq!((texture.metal.width, texture.metal.height), (1, 5));
}
