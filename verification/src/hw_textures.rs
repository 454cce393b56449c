//! From a VideoToolbox pixel buffer (NV12, backed by a surface) to the pair of
//! textures that alias its Y and CbCr planes.
//!
//! The pixel buffer, the surface and the textures live outside the library.
//! What is decided here is which buffers are accepted and what the textures of
//! the two planes look like, to Metal and to the GPU library that imports them.

use crate::error::DecoderError;
use crate::media::TextureFormat;
use crate::text::{
    alternate, is_alternate, push_decimal, push_hex_code, write_text, written,
};
use crate::texture::{at_least_one, clamp_side, TextureDescriptor, TextureDimension, TextureUsages};
use vstd::prelude::*;
use vstd::string::*;

verus! {

/// What a pixel buffer says of itself.
#[derive(Debug, Clone, Copy, PartialEq, Eq, Structural)]
pub struct PixelBuffer {
    pub width: usize,
    pub height: usize,
    pub plane_count: usize,
    /// The four-character code of the pixel format.
    pub pixel_format: u32,
    /// Whether a surface backs the buffer.
    pub has_iosurface: bool,
}

/// A pixel format of Metal.
#[derive(Debug, Clone, Copy, PartialEq, Eq, Structural)]
pub enum MetalPixelFormat {
    R8Unorm,
    Rg8Unorm,
}

/// What the shaders may do with a Metal texture.
#[derive(Debug, Clone, Copy, PartialEq, Eq, Structural)]
pub enum MetalTextureUsage {
    ShaderRead,
}

/// Where the memory of a Metal texture lies.
#[derive(Debug, Clone, Copy, PartialEq, Eq, Structural)]
pub enum MetalStorageMode {
    Shared,
}

/// All that Metal is told when a texture is made from a plane of a surface.
#[derive(Debug, Clone, Copy, PartialEq, Eq, Structural)]
pub struct MetalTextureDescriptor {
    pub pixel_format: MetalPixelFormat,
    pub width: usize,
    pub height: usize,
    pub depth: usize,
    pub mipmap_level_count: usize,
    pub array_length: usize,
    pub usage: MetalTextureUsage,
    pub storage_mode: MetalStorageMode,
}

/// The texture of one plane of a surface: as Metal makes it, and as it is then
/// imported.
#[derive(Debug, Clone, PartialEq, Eq)]
pub struct IosurfaceTexture {
    pub plane: usize,
    pub metal: MetalTextureDescriptor,
    pub imported: TextureDescriptor,
}

/// The textures to be made from an NV12 pixel buffer.
#[derive(Debug, Clone, PartialEq, Eq)]
pub struct Nv12Layout {
    pub y: IosurfaceTexture,
    pub cbcr: IosurfaceTexture,
    pub width: u32,
    pub height: u32,
    pub pixel_format: u32,
}

/// Two textures that alias an NV12 surface in place.
///
/// * `y_texture` is `R8Unorm`, full resolution.
/// * `cbcr_texture` is `Rg8Unorm`, half resolution.
#[derive(Clone, PartialEq, Eq)]
pub struct HwFrameTextures {
    pub y_texture: TextureDescriptor,
    pub cbcr_texture: TextureDescriptor,
    pub width: u32,
    pub height: u32,
    pub pixel_format: u32,
}

/// The texture of one plane of a surface.
pub open spec fn iosurface_texture(
    plane: usize,
    metal_format: MetalPixelFormat,
    format: TextureFormat,
    width: u32,
    height: u32,
    label: &'static str,
) -> IosurfaceTexture {
    IosurfaceTexture {
        plane,
        metal: MetalTextureDescriptor {
            pixel_format: metal_format,
            width: at_least_one(width) as usize,
            height: at_least_one(height) as usize,
            depth: 1,
            mipmap_level_count: 1,
            array_length: 1,
            usage: MetalTextureUsage::ShaderRead,
            storage_mode: MetalStorageMode::Shared,
        },
        imported: TextureDescriptor {
            label,
            width: at_least_one(width),
            height: at_least_one(height),
            depth_or_array_layers: 1,
            mip_level_count: 1,
            sample_count: 1,
            dimension: TextureDimension::D2,
            format,
            usage: TextureUsages {
                render_attachment: false,
                texture_binding: true,
                copy_src: true,
            },
        },
    }
}

/// Describe the texture of one plane of a surface. A side that would be empty
/// is one pixel long.
pub fn build_iosurface_texture(
    plane: usize,
    metal_format: MetalPixelFormat,
    format: TextureFormat,
    width: u32,
    height: u32,
    label: &'static str,
) -> (r: IosurfaceTexture)
    ensures
        r == iosurface_texture(plane, metal_format, format, width, height, label),
{
    let width: u32 = clamp_side(width);
    let height: u32 = clamp_side(height);
    IosurfaceTexture {
        plane,
        metal: MetalTextureDescriptor {
            pixel_format: metal_format,
            width: width as usize,
            height: height as usize,
            depth: 1,
            mipmap_level_count: 1,
            array_length: 1,
            usage: MetalTextureUsage::ShaderRead,
            storage_mode: MetalStorageMode::Shared,
        },
        imported: TextureDescriptor {
            label,
            width,
            height,
            depth_or_array_layers: 1,
            mip_level_count: 1,
            sample_count: 1,
            dimension: TextureDimension::D2,
            format,
            usage: TextureUsages {
                render_attachment: false,
                texture_binding: true,
                copy_src: true,
            },
        },
    }
}

/// The textures of an NV12 buffer of `width` x `height` pixels: the Y plane in
/// full, the CbCr plane at half its width and height.
pub open spec fn nv12_layout(width: u32, height: u32, pixel_format: u32) -> Nv12Layout {
    Nv12Layout {
        y: iosurface_texture(
            0,
            MetalPixelFormat::R8Unorm,
            TextureFormat::R8Unorm,
            width,
            height,
            "decoder.iosurface.y",
        ),
        cbcr: iosurface_texture(
            1,
            MetalPixelFormat::Rg8Unorm,
            TextureFormat::Rg8Unorm,
            width / 2,
            height / 2,
            "decoder.iosurface.cbcr",
        ),
        width,
        height,
        pixel_format,
    }
}

/// Which textures are made of a frame's pixel buffer, or why none can be.
pub open spec fn nv12_textures(buffer: Option<PixelBuffer>, metal_device: bool) -> Result<
    Nv12Layout,
    DecoderError,
> {
    match buffer {
        None => Err(DecoderError::HwFrameMissingPixelBuffer),
        Some(buffer) => if buffer.plane_count < 2 {
            Err(
                DecoderError::HwFrameUnsupportedPixelFormat {
                    pixel_format: buffer.pixel_format,
                    plane_count: buffer.plane_count,
                },
            )
        } else if !buffer.has_iosurface {
            Err(DecoderError::HwFrameMissingIoSurface)
        } else if !metal_device {
            Err(DecoderError::NotMetalDevice)
        } else {
            Ok(nv12_layout(buffer.width as u32, buffer.height as u32, buffer.pixel_format))
        },
    }
}

/// Plan the pair of textures of a hardware frame.
///
/// `buffer` is the frame's pixel buffer, where it carries one, and
/// `metal_device` says whether the GPU device runs on Metal.
pub fn extract_nv12_textures(buffer: Option<PixelBuffer>, metal_device: bool) -> (r: Result<
    Nv12Layout,
    DecoderError,
>)
    ensures
        r == nv12_textures(buffer, metal_device),
{
    let buffer = match buffer {
        None => {
            return Err(DecoderError::HwFrameMissingPixelBuffer);
        },
        Some(buffer) => buffer,
    };
    let width: u32 = #[verifier::truncate]
    (buffer.width as u32);
    let height: u32 = #[verifier::truncate]
    (buffer.height as u32);
    let plane_count: usize = buffer.plane_count;
    let pixel_format: u32 = buffer.pixel_format;
    if plane_count < 2 {
        return Err(DecoderError::HwFrameUnsupportedPixelFormat { pixel_format, plane_count });
    }
    if !buffer.has_iosurface {
        return Err(DecoderError::HwFrameMissingIoSurface);
    }
    if !metal_device {
        return Err(DecoderError::NotMetalDevice);
    }
    let y = build_iosurface_texture(
        0,
        MetalPixelFormat::R8Unorm,
        TextureFormat::R8Unorm,
        width,
        height,
        "decoder.iosurface.y",
    );
    let cbcr = build_iosurface_texture(
        1,
        MetalPixelFormat::Rg8Unorm,
        TextureFormat::Rg8Unorm,
        width / 2,
        height / 2,
        "decoder.iosurface.cbcr",
    );
    Ok(Nv12Layout { y, cbcr, width, height, pixel_format })
}

impl Nv12Layout {
    /// The frame that the textures of a layout make up, where Metal made both.
    pub open spec fn textures(self, y_made: bool, cbcr_made: bool) -> Result<
        HwFrameTextures,
        DecoderError,
    > {
        if !y_made {
            Err(DecoderError::MtlTextureFromIosurfaceFailed { plane: self.y.plane })
        } else if !cbcr_made {
            Err(DecoderError::MtlTextureFromIosurfaceFailed { plane: self.cbcr.plane })
        } else {
            Ok(
                HwFrameTextures {
                    y_texture: self.y.imported,
                    cbcr_texture: self.cbcr.imported,
                    width: self.width,
                    height: self.height,
                    pixel_format: self.pixel_format,
                },
            )
        }
    }

    /// Assemble the frame once Metal was asked for the textures. The flags say
    /// which of the two it made; the second is not asked for where the first
    /// could not be made.
    pub fn assemble(self, y_made: bool, cbcr_made: bool) -> (r: Result<
        HwFrameTextures,
        DecoderError,
    >)
        ensures
            r == self.textures(y_made, cbcr_made),
    {
        if !y_made {
            return Err(DecoderError::MtlTextureFromIosurfaceFailed { plane: self.y.plane });
        }
        if !cbcr_made {
            return Err(DecoderError::MtlTextureFromIosurfaceFailed { plane: self.cbcr.plane });
        }
        Ok(
            HwFrameTextures {
                y_texture: self.y.imported,
                cbcr_texture: self.cbcr.imported,
                width: self.width,
                height: self.height,
                pixel_format: self.pixel_format,
            },
        )
    }
}

impl HwFrameTextures {
    /// The debug text of a frame: its size and its pixel format.
    pub open spec fn spec_debug_text(self) -> Seq<char> {
        "HwFrameTextures { width: "@ + crate::text::decimal(self.width as nat) + ", height: "@
            + crate::text::decimal(self.height as nat) + ", pixel_format: "@ + crate::text::hex_code(
            self.pixel_format,
        ) + " }"@
    }

    /// The same over several lines.
    pub open spec fn spec_debug_lines(self) -> Seq<char> {
        "HwFrameTextures {\n    width: "@ + crate::text::decimal(self.width as nat)
            + ",\n    height: "@ + crate::text::decimal(self.height as nat)
            + ",\n    pixel_format: "@ + crate::text::hex_code(self.pixel_format) + ",\n}"@
    }

    /// Describe the frame for a log.
    pub fn debug_text(&self) -> (r: String)
        ensures
            r@ == self.spec_debug_text(),
    {
        let mut out = String::new();
        out.append("HwFrameTextures { width: ");
        push_decimal(&mut out, self.width as u64);
        out.append(", height: ");
        push_decimal(&mut out, self.height as u64);
        out.append(", pixel_format: ");
        push_hex_code(&mut out, self.pixel_format);
        out.append(" }");
        assert(out@ =~= self.spec_debug_text());
        out
    }

    /// Describe the frame for a log, over several lines.
    pub fn debug_lines(&self) -> (r: String)
        ensures
            r@ == self.spec_debug_lines(),
    {
        let mut out = String::new();
        out.append("HwFrameTextures {\n    width: ");
        push_decimal(&mut out, self.width as u64);
        out.append(",\n    height: ");
        push_decimal(&mut out, self.height as u64);
        out.append(",\n    pixel_format: ");
        push_hex_code(&mut out, self.pixel_format);
        out.append(",\n}");
        assert(out@ =~= self.spec_debug_lines());
        out
    }
}

impl core::fmt::Debug for HwFrameTextures {
    /// Write the size and the pixel format of the frame, and neither texture.
    fn fmt(&self, f: &mut core::fmt::Formatter<'_>) -> (r: core::fmt::Result)
        ensures
            r is Ok ==> written(*final(f)) == written(*old(f)) + (if alternate(*old(f)) {
                self.spec_debug_lines()
            } else {
                self.spec_debug_text()
            }),
    {
        let text = if is_alternate(f) {
            self.debug_lines()
        } else {
            self.debug_text()
        };
        write_text(f, text.as_str())
    }
}

/// Both textures of every accepted buffer are flat, non-empty images that a
/// shader can sample, each described alike to Metal and to the importer. The Y
/// texture is `R8Unorm` in the size of the frame, the CbCr texture `Rg8Unorm`
/// in half that size, and no side of either is shorter than one pixel.
pub proof fn law_nv12_planes(buffer: PixelBuffer)
    requires
        nv12_textures(Some(buffer), true) is Ok,
    ensures
        ({
            let layout = nv12_textures(Some(buffer), true)->Ok_0;
            &&& buffer.width <= u32::MAX ==> layout.width == buffer.width
            &&& buffer.height <= u32::MAX ==> layout.height == buffer.height
            &&& layout.pixel_format == buffer.pixel_format
            &&& layout.y.plane == 0 && layout.cbcr.plane == 1
            &&& layout.y.imported.format == TextureFormat::R8Unorm
            &&& layout.y.metal.pixel_format == MetalPixelFormat::R8Unorm
            &&& layout.cbcr.imported.format == TextureFormat::Rg8Unorm
            &&& layout.cbcr.metal.pixel_format == MetalPixelFormat::Rg8Unorm
            &&& layout.width >= 1 ==> layout.y.imported.width == layout.width
            &&& layout.height >= 1 ==> layout.y.imported.height == layout.height
            &&& layout.width >= 2 ==> layout.cbcr.imported.width == layout.width / 2
            &&& layout.height >= 2 ==> layout.cbcr.imported.height == layout.height / 2
            &&& sampled_alike(layout.y)
            &&& sampled_alike(layout.cbcr)
        }),
{
}

/// Whether a plane's texture is a flat, non-empty image that a shader can
/// sample, and Metal and the importer are told the same of it.
pub open spec fn sampled_alike(texture: IosurfaceTexture) -> bool {
    &&& texture.imported.flat()
    &&& texture.imported.usage.texture_binding
    &&& texture.imported.width >= 1 && texture.imported.height >= 1
    &&& texture.metal.width == texture.imported.width
    &&& texture.metal.height == texture.imported.height
    &&& texture.metal.depth == texture.imported.depth_or_array_layers
    &&& texture.metal.mipmap_level_count == texture.imported.mip_level_count
}

/// A side that is one pixel long where it would be empty.
pub open spec fn is_side(side: int, wanted: int) -> bool {
    if wanted == 0 {
        side == 1
    } else {
        side == wanted
    }
}

/// The texture of a plane has the plane, the formats, the label and the size
/// that were asked for, no side of it empty, and is one flat image that can
/// be sampled and copied but not drawn to.
pub proof fn law_plane_texture(
    plane: usize,
    metal_format: MetalPixelFormat,
    format: TextureFormat,
    width: u32,
    height: u32,
    label: &'static str,
)
    ensures
        ({
            let t = iosurface_texture(plane, metal_format, format, width, height, label);
            &&& t.plane == plane
            &&& t.metal.pixel_format == metal_format
            &&& is_side(t.metal.width as int, width as int)
            &&& is_side(t.metal.height as int, height as int)
            &&& t.metal.depth == 1 && t.metal.mipmap_level_count == 1 && t.metal.array_length == 1
            &&& t.metal.usage is ShaderRead && t.metal.storage_mode is Shared
            &&& t.imported.label == label
            &&& t.imported.format == format
            &&& is_side(t.imported.width as int, width as int)
            &&& is_side(t.imported.height as int, height as int)
            &&& t.imported.depth_or_array_layers == 1
            &&& t.imported.mip_level_count == 1 && t.imported.sample_count == 1
            &&& t.imported.dimension is D2
            &&& !t.imported.usage.render_attachment
            &&& t.imported.usage.texture_binding && t.imported.usage.copy_src
        }),
{
}

/// Which buffers are taken, and what the others are answered: in this order, a
/// frame must carry a buffer, of two planes or more, backed by a surface, and
/// the device must run on Metal. Nothing else of the buffer counts.
pub proof fn law_accepted_buffers(buffer: Option<PixelBuffer>, metal_device: bool)
    ensures
        nv12_textures(buffer, metal_device) is Ok <==> (metal_device && (buffer matches Some(b)
            && b.plane_count >= 2 && b.has_iosurface)),
        nv12_textures(buffer, metal_device) matches Err(err) ==> {
            &&& buffer is None ==> err is HwFrameMissingPixelBuffer
            &&& buffer matches Some(b) ==> {
                &&& b.plane_count < 2 ==> err == (DecoderError::HwFrameUnsupportedPixelFormat {
                    pixel_format: b.pixel_format,
                    plane_count: b.plane_count,
                })
                &&& b.plane_count >= 2 && !b.has_iosurface ==> err is HwFrameMissingIoSurface
                &&& b.plane_count >= 2 && b.has_iosurface ==> err is NotMetalDevice
            }
        },
{
}

/// The textures of an accepted buffer, of whatever size: luma in full from the
/// first plane, chroma at half the width and height, rounded down, from the
/// second. The frame has the size of the buffer in the low 32 bits.
pub proof fn law_textures_of_a_buffer(buffer: PixelBuffer)
    requires
        nv12_textures(Some(buffer), true) is Ok,
    ensures
        ({
            let layout = nv12_textures(Some(buffer), true)->Ok_0;
            &&& layout.width == buffer.width as int % 0x1_0000_0000
            &&& layout.height == buffer.height as int % 0x1_0000_0000
            &&& layout.pixel_format == buffer.pixel_format
            &&& layout.y == iosurface_texture(
                0,
                MetalPixelFormat::R8Unorm,
                TextureFormat::R8Unorm,
                layout.width,
                layout.height,
                "decoder.iosurface.y",
            )
            &&& layout.cbcr == iosurface_texture(
                1,
                MetalPixelFormat::Rg8Unorm,
                TextureFormat::Rg8Unorm,
                layout.width / 2,
                layout.height / 2,
                "decoder.iosurface.cbcr",
            )
            &&& is_side(layout.y.imported.width as int, layout.width as int)
            &&& is_side(layout.y.imported.height as int, layout.height as int)
            &&& is_side(layout.cbcr.imported.width as int, layout.width as int / 2)
            &&& is_side(layout.cbcr.imported.height as int, layout.height as int / 2)
        }),
{
    lemma_low_bits(buffer.width);
    lemma_low_bits(buffer.height);
}

proof fn lemma_low_bits(n: usize)
    ensures
        (n as u32) == n as int % 0x1_0000_0000,
{
    let wide: u64 = n as u64;
    assert(n as u32 == wide as u32) by (bit_vector)
        requires
            wide == n as u64,
    ;
    assert(wide as u32 == wide % 0x1_0000_0000u64) by (bit_vector);
}

/// A frame is made up of exactly its two imported textures and its size, where
/// Metal made both; otherwise the first plane that it could not make is named.
pub proof fn law_frames_need_both_planes(layout: Nv12Layout, y_made: bool, cbcr_made: bool)
    ensures
        layout.textures(y_made, cbcr_made) is Ok <==> y_made && cbcr_made,
        layout.textures(y_made, cbcr_made) matches Ok(frame) ==> {
            &&& frame.y_texture == layout.y.imported
            &&& frame.cbcr_texture == layout.cbcr.imported
            &&& frame.width == layout.width && frame.height == layout.height
            &&& frame.pixel_format == layout.pixel_format
        },
        layout.textures(y_made, cbcr_made) matches Err(err) ==> err == (
        DecoderError::MtlTextureFromIosurfaceFailed {
            plane: if y_made {
                layout.cbcr.plane
            } else {
                layout.y.plane
            },
        }),
{
}

/// The debug texts of a frame tell its width, height and pixel format, and
/// nothing of its textures.
pub proof fn law_debug_texts(frame: HwFrameTextures, other: HwFrameTextures)
    ensures
        frame.spec_debug_text() == "HwFrameTextures { width: "@ + crate::text::decimal(
            frame.width as nat,
        ) + ", height: "@ + crate::text::decimal(frame.height as nat) + ", pixel_format: "@
            + crate::text::hex_code(frame.pixel_format) + " }"@,
        frame.spec_debug_lines() == "HwFrameTextures {\n    width: "@ + crate::text::decimal(
            frame.width as nat,
        ) + ",\n    height: "@ + crate::text::decimal(frame.height as nat)
            + ",\n    pixel_format: "@ + crate::text::hex_code(frame.pixel_format) + ",\n}"@,
        frame.width == other.width && frame.height == other.height && frame.pixel_format
            == other.pixel_format ==> frame.spec_debug_text() == other.spec_debug_text()
            && frame.spec_debug_lines() == other.spec_debug_lines(),
{
}

} // verus!
