//! Composition of NV12 frames into an RGBA texture.
//!
//! The GPU lives outside the library. [`VideoCompositor`] holds what it is told:
//! the layout of the bindings, the pipeline, the sampler and the render target,
//! and for each frame the commands of one full-screen pass.

use crate::decoder::target_supported;
use crate::hw_textures::{nv12_textures, PixelBuffer};
use crate::media::TextureFormat;
use crate::texture::{at_least_one, clamp_side, TextureDescriptor, TextureDimension, TextureUsages};
use vstd::prelude::*;

verus! {

/// Texture format used for the shared render target.
///
/// Of a texture that is shown as an image only `Rgba8Unorm` and
/// `Rgba8UnormSrgb` are accepted; this is the linear one.
pub const TEXTURE_FORMAT: TextureFormat = TextureFormat::Rgba8Unorm;

/// The textures of the planes of an NV12 frame.
///
/// `y` must be `R8Unorm` and `cbcr` must be `Rg8Unorm`.
#[derive(Debug)]
pub struct Nv12Planes<'a> {
    pub y: &'a TextureDescriptor,
    pub cbcr: &'a TextureDescriptor,
}

/// A colour. Each channel is the bit pattern of an IEEE 754 double.
#[derive(Debug, Clone, Copy, PartialEq, Eq, Structural)]
pub struct Color {
    pub r: u64,
    pub g: u64,
    pub b: u64,
    pub a: u64,
}

/// The bit pattern of `0.0`.
pub const ZERO_BITS: u64 = 0;

/// The bit pattern of `1.0`.
pub const ONE_BITS: u64 = 0x3ff0_0000_0000_0000;

/// What a shader binding holds.
#[derive(Debug, Clone, Copy, PartialEq, Eq, Structural)]
pub enum BindingType {
    /// A flat, single-sampled texture of floats that can be filtered.
    FilterableTexture,
    /// A sampler that filters.
    FilteringSampler,
}

/// A stage of the pipeline that sees a binding.
#[derive(Debug, Clone, Copy, PartialEq, Eq, Structural)]
pub enum ShaderStage {
    Fragment,
}

/// A binding of the shader.
#[derive(Debug, Clone, Copy, PartialEq, Eq, Structural)]
pub struct LayoutEntry {
    pub binding: u32,
    pub visibility: ShaderStage,
    pub ty: BindingType,
}

/// What is bound while a frame is drawn.
#[derive(Debug, Clone, Copy)]
pub enum BoundResource<'a> {
    /// A view of a whole texture.
    TextureView { label: &'static str, texture: &'a TextureDescriptor },
    /// The compositor's sampler.
    Sampler,
}

/// A resource at a binding of the shader.
#[derive(Debug, Clone, Copy)]
pub struct BindGroupEntry<'a> {
    pub binding: u32,
    pub resource: BoundResource<'a>,
}

/// How a drawn pixel is combined with the one in the target.
#[derive(Debug, Clone, Copy, PartialEq, Eq, Structural)]
pub enum BlendState {
    Replace,
}

/// Which channels of the target are written.
#[derive(Debug, Clone, Copy, PartialEq, Eq, Structural)]
pub enum ColorWrites {
    All,
}

/// What the vertices of a draw form.
#[derive(Debug, Clone, Copy, PartialEq, Eq, Structural)]
pub enum PrimitiveTopology {
    TriangleList,
}

/// The format of the indices of a strip.
#[derive(Debug, Clone, Copy, PartialEq, Eq, Structural)]
pub enum IndexFormat {
    Uint16,
    Uint32,
}

/// The order of the vertices of a triangle that is seen from the front.
#[derive(Debug, Clone, Copy, PartialEq, Eq, Structural)]
pub enum FrontFace {
    Ccw,
}

/// A side of a triangle.
#[derive(Debug, Clone, Copy, PartialEq, Eq, Structural)]
pub enum Face {
    Front,
    Back,
}

/// What of a triangle is drawn.
#[derive(Debug, Clone, Copy, PartialEq, Eq, Structural)]
pub enum PolygonMode {
    Fill,
}

/// How triangles are put together and turned into pixels.
#[derive(Debug, Clone, Copy, PartialEq, Eq, Structural)]
pub struct PrimitiveState {
    pub topology: PrimitiveTopology,
    pub strip_index_format: Option<IndexFormat>,
    pub front_face: FrontFace,
    /// The side that is not drawn, where there is one.
    pub cull_mode: Option<Face>,
    pub unclipped_depth: bool,
    pub polygon_mode: PolygonMode,
    pub conservative: bool,
}

/// A mask of samples that leaves none out.
pub const ALL_SAMPLES: u64 = 0xffff_ffff_ffff_ffff;

/// How the samples of a pixel are drawn.
#[derive(Debug, Clone, Copy, PartialEq, Eq, Structural)]
pub struct MultisampleState {
    /// The samples of a pixel.
    pub count: u32,
    /// The samples that are written.
    pub mask: u64,
    pub alpha_to_coverage_enabled: bool,
}

/// The pipeline of the pass that draws a frame.
#[derive(Debug, Clone, PartialEq, Eq)]
pub struct PipelineDescriptor {
    pub label: &'static str,
    pub shader_label: &'static str,
    pub bind_group_layout_label: &'static str,
    pub layout_label: &'static str,
    /// The bytes of data that are handed to the shader without a buffer.
    pub immediate_size: u32,
    pub vertex_entry: &'static str,
    /// The buffers that vertices are read from.
    pub vertex_buffers: usize,
    pub fragment_entry: &'static str,
    pub target_format: TextureFormat,
    pub blend: BlendState,
    pub write_mask: ColorWrites,
    pub primitive: PrimitiveState,
    /// The format of the depth and stencil buffer, where there is one.
    pub depth_stencil: Option<TextureFormat>,
    pub multisample: MultisampleState,
    /// The views that are drawn at once, where there is more than one.
    pub multiview_mask: Option<u32>,
}

/// How texture coordinates outside of a texture are handled.
#[derive(Debug, Clone, Copy, PartialEq, Eq, Structural)]
pub enum AddressMode {
    ClampToEdge,
}

/// How a sampler picks between pixels.
#[derive(Debug, Clone, Copy, PartialEq, Eq, Structural)]
pub enum FilterMode {
    Nearest,
    Linear,
}

/// The sampler through which the planes are read.
#[derive(Debug, Clone, Copy, PartialEq, Eq)]
pub struct SamplerDescriptor {
    pub label: &'static str,
    pub address_mode_u: AddressMode,
    pub address_mode_v: AddressMode,
    pub address_mode_w: AddressMode,
    pub mag_filter: FilterMode,
    pub min_filter: FilterMode,
    pub mipmap_filter: FilterMode,
    /// The bit pattern of the lowest level of detail, an IEEE 754 single.
    pub lod_min_clamp: u32,
    /// The bit pattern of the highest level of detail, an IEEE 754 single.
    pub lod_max_clamp: u32,
    pub anisotropy_clamp: u16,
}

/// The bit pattern of `0.0` as a single.
pub const SINGLE_ZERO_BITS: u32 = 0;

/// The bit pattern of `32.0` as a single.
pub const SINGLE_32_BITS: u32 = 0x4200_0000;

/// The draw call of a pass.
#[derive(Debug, Clone, Copy, PartialEq, Eq, Structural)]
pub struct DrawRange {
    pub first_vertex: u32,
    pub end_vertex: u32,
    pub first_instance: u32,
    pub end_instance: u32,
}

/// What a pass draws to.
#[derive(Debug, Clone, PartialEq, Eq)]
pub enum PassTarget {
    /// A texture that is made for the pass and returned, so that no texture
    /// that was returned before is drawn to.
    Fresh(TextureDescriptor),
}

/// What becomes of the pixels that a pass has drawn.
#[derive(Debug, Clone, Copy, PartialEq, Eq, Structural)]
pub enum StoreOp {
    Store,
}

/// The commands that draw a frame: one pass, in one submission.
#[derive(Debug, Clone)]
pub struct RenderPlan<'a> {
    pub target: PassTarget,
    pub bind_group_label: &'static str,
    /// The index at which the bind group is set.
    pub bind_group_index: u32,
    pub bind_group: [BindGroupEntry<'a>; 3],
    pub encoder_label: &'static str,
    pub pass_label: &'static str,
    /// The colour that the target is cleared to before the draw.
    pub clear_color: Color,
    pub store: StoreOp,
    /// The texture that the samples of the target are resolved to, where there
    /// is one.
    pub resolve_target: Option<&'a TextureDescriptor>,
    /// The depth and stencil buffer, where there is one.
    pub depth_stencil: Option<&'a TextureDescriptor>,
    pub draw: DrawRange,
}

/// The render target of the given size.
pub open spec fn target_descriptor(width: u32, height: u32) -> TextureDescriptor {
    TextureDescriptor {
        label: "compositor.target",
        width,
        height,
        depth_or_array_layers: 1,
        mip_level_count: 1,
        sample_count: 1,
        dimension: TextureDimension::D2,
        format: TEXTURE_FORMAT,
        usage: TextureUsages { render_attachment: true, texture_binding: true, copy_src: true },
    }
}

/// The target of a pass that draws a frame of the given size. An empty side is
/// one pixel long.
pub open spec fn pass_target(width: u32, height: u32) -> PassTarget {
    PassTarget::Fresh(target_descriptor(at_least_one(width), at_least_one(height)))
}

/// Describe a render target.
pub fn create_target(width: u32, height: u32) -> (r: TextureDescriptor)
    ensures
        r == target_descriptor(width, height),
{
    TextureDescriptor {
        label: "compositor.target",
        width,
        height,
        depth_or_array_layers: 1,
        mip_level_count: 1,
        sample_count: 1,
        dimension: TextureDimension::D2,
        format: TEXTURE_FORMAT,
        usage: TextureUsages { render_attachment: true, texture_binding: true, copy_src: true },
    }
}

/// Renders an NV12 video frame into an RGBA texture.
///
/// One texture, one sampler, one full-screen triangle, one fragment shader.
#[derive(Debug)]
pub struct VideoCompositor {
    layout: [LayoutEntry; 3],
    pipeline: PipelineDescriptor,
    sampler: SamplerDescriptor,
    target: TextureDescriptor,
    clear_color: Color,
}

/// The state of a compositor.
pub struct CompositorModel {
    pub layout: Seq<LayoutEntry>,
    pub pipeline: PipelineDescriptor,
    pub sampler: SamplerDescriptor,
    pub target: TextureDescriptor,
    pub clear_color: Color,
}

impl View for VideoCompositor {
    type V = CompositorModel;

    closed spec fn view(&self) -> CompositorModel {
        CompositorModel {
            layout: self.layout@,
            pipeline: self.pipeline,
            sampler: self.sampler,
            target: self.target,
            clear_color: self.clear_color,
        }
    }
}

/// A texture that the fragment shader reads.
pub open spec fn texture_entry(binding: u32) -> LayoutEntry {
    LayoutEntry {
        binding,
        visibility: ShaderStage::Fragment,
        ty: BindingType::FilterableTexture,
    }
}

/// A sampler that the fragment shader reads through.
pub open spec fn sampler_entry(binding: u32) -> LayoutEntry {
    LayoutEntry {
        binding,
        visibility: ShaderStage::Fragment,
        ty: BindingType::FilteringSampler,
    }
}

/// The bindings of the fragment shader: the two planes and the sampler.
pub open spec fn video_layout() -> Seq<LayoutEntry> {
    seq![
        texture_entry(0),
        texture_entry(1),
        sampler_entry(2),
    ]
}

/// What is bound to them while a frame is drawn.
pub open spec fn video_bindings<'a>(planes: Nv12Planes<'a>) -> Seq<BindGroupEntry<'a>> {
    seq![
        BindGroupEntry {
            binding: 0,
            resource: BoundResource::TextureView {
                label: "compositor.video.y.view",
                texture: planes.y,
            },
        },
        BindGroupEntry {
            binding: 1,
            resource: BoundResource::TextureView {
                label: "compositor.video.cbcr.view",
                texture: planes.cbcr,
            },
        },
        BindGroupEntry { binding: 2, resource: BoundResource::Sampler },
    ]
}

/// Opaque black.
pub open spec fn opaque_black() -> Color {
    Color { r: ZERO_BITS, g: ZERO_BITS, b: ZERO_BITS, a: ONE_BITS }
}

/// One triangle, drawn once.
pub open spec fn full_screen_triangle() -> DrawRange {
    DrawRange { first_vertex: 0, end_vertex: 3, first_instance: 0, end_instance: 1 }
}

/// Filled triangles, seen from both sides.
pub open spec fn triangle_list() -> PrimitiveState {
    PrimitiveState {
        topology: PrimitiveTopology::TriangleList,
        strip_index_format: None,
        front_face: FrontFace::Ccw,
        cull_mode: None,
        unclipped_depth: false,
        polygon_mode: PolygonMode::Fill,
        conservative: false,
    }
}

/// One sample for each pixel.
pub open spec fn single_sample() -> MultisampleState {
    MultisampleState { count: 1, mask: ALL_SAMPLES, alpha_to_coverage_enabled: false }
}

/// A compositor that has not drawn yet.
pub open spec fn new_compositor() -> CompositorModel {
    CompositorModel {
        layout: video_layout(),
        pipeline: PipelineDescriptor {
            label: "compositor.video.pipeline",
            shader_label: "compositor.video.shader",
            bind_group_layout_label: "compositor.video.bgl",
            layout_label: "compositor.video.pipeline_layout",
            immediate_size: 0,
            vertex_entry: "vs_main",
            vertex_buffers: 0,
            fragment_entry: "fs_main",
            target_format: TEXTURE_FORMAT,
            blend: BlendState::Replace,
            write_mask: ColorWrites::All,
            primitive: triangle_list(),
            depth_stencil: None,
            multisample: single_sample(),
            multiview_mask: None,
        },
        sampler: SamplerDescriptor {
            label: "compositor.video.sampler",
            address_mode_u: AddressMode::ClampToEdge,
            address_mode_v: AddressMode::ClampToEdge,
            address_mode_w: AddressMode::ClampToEdge,
            mag_filter: FilterMode::Linear,
            min_filter: FilterMode::Linear,
            mipmap_filter: FilterMode::Nearest,
            lod_min_clamp: SINGLE_ZERO_BITS,
            lod_max_clamp: SINGLE_32_BITS,
            anisotropy_clamp: 1,
        },
        target: target_descriptor(1, 1),
        clear_color: opaque_black(),
    }
}

impl CompositorModel {
    /// What holds of a compositor at all times: layout, pipeline and sampler
    /// are those that it was made with, and the target is a flat, non-empty
    /// image in the format that the pipeline writes, which can be drawn to,
    /// sampled and copied.
    pub open spec fn valid(self) -> bool {
        &&& self.layout == new_compositor().layout
        &&& self.pipeline == new_compositor().pipeline
        &&& self.sampler == new_compositor().sampler
        &&& self.target.flat()
        &&& self.target.width >= 1 && self.target.height >= 1
        &&& self.target.format == self.pipeline.target_format
        &&& self.target.usage.render_attachment
        &&& self.target.usage.texture_binding
        &&& self.target.usage.copy_src
    }

    /// The compositor after a frame was drawn at the given size.
    pub open spec fn rendered(self, width: u32, height: u32) -> CompositorModel {
        CompositorModel {
            target: target_descriptor(at_least_one(width), at_least_one(height)),
            ..self
        }
    }

    /// The compositor after the colour was set.
    pub open spec fn with_clear_color(self, color: Color) -> CompositorModel {
        CompositorModel { clear_color: color, ..self }
    }
}

impl<'a> Nv12Planes<'a> {
    /// Whether the planes have the formats of NV12, and can be sampled.
    pub open spec fn nv12(self) -> bool {
        &&& self.y.format == TextureFormat::R8Unorm
        &&& self.cbcr.format == TextureFormat::Rg8Unorm
        &&& self.y.usage.texture_binding
        &&& self.cbcr.usage.texture_binding
    }
}

/// Whether a resource is of the type that a binding is declared with.
pub open spec fn resource_fits(entry: LayoutEntry, bound: BindGroupEntry) -> bool {
    &&& entry.binding == bound.binding
    &&& match bound.resource {
        BoundResource::TextureView { .. } => entry.ty == BindingType::FilterableTexture,
        BoundResource::Sampler => entry.ty == BindingType::FilteringSampler,
    }
}

/// A call that changes a compositor.
pub enum CompositorCall<'a> {
    Render { planes: Nv12Planes<'a>, width: u32, height: u32 },
    SetClearColor(Color),
}

/// The compositor as it is after any number of calls.
pub open spec fn after_calls(calls: Seq<CompositorCall>) -> CompositorModel
    decreases calls.len(),
{
    if calls.len() == 0 {
        new_compositor()
    } else {
        let before = after_calls(calls.drop_last());
        match calls.last() {
            CompositorCall::Render { width, height, .. } => before.rendered(width, height),
            CompositorCall::SetClearColor(color) => before.with_clear_color(color),
        }
    }
}

/// The colour that was set last, opaque black where none was.
pub open spec fn last_color(calls: Seq<CompositorCall>) -> Color
    decreases calls.len(),
{
    if calls.len() == 0 {
        opaque_black()
    } else {
        match calls.last() {
            CompositorCall::Render { .. } => last_color(calls.drop_last()),
            CompositorCall::SetClearColor(color) => color,
        }
    }
}

/// The textures that hold pictures once a frame was drawn to a target, where
/// `textures` did before. Each is told as its description and the frame that
/// was drawn to it last.
pub open spec fn drawn_to<'a>(
    textures: Seq<(TextureDescriptor, Nv12Planes<'a>)>,
    target: PassTarget,
    planes: Nv12Planes<'a>,
) -> Seq<(TextureDescriptor, Nv12Planes<'a>)> {
    match target {
        PassTarget::Fresh(descriptor) => textures.push((descriptor, planes)),
    }
}

/// The textures that a number of calls returned, in order, and what each holds
/// after the last of the calls.
pub open spec fn pictures<'a>(calls: Seq<CompositorCall<'a>>) -> Seq<
    (TextureDescriptor, Nv12Planes<'a>),
>
    decreases calls.len(),
{
    if calls.len() == 0 {
        Seq::empty()
    } else {
        let before = pictures(calls.drop_last());
        match calls.last() {
            CompositorCall::Render { planes, width, height } => drawn_to(
                before,
                pass_target(width, height),
                planes,
            ),
            CompositorCall::SetClearColor(_) => before,
        }
    }
}

/// Each frame is drawn with exactly the resources that the pipeline's layout
/// declares: every declared binding is bound once, in order, to a resource of
/// its type.
pub proof fn law_bindings_match_layout(planes: Nv12Planes, i: int)
    requires
        0 <= i < video_layout().len() || 0 <= i < video_bindings(planes).len(),
    ensures
        video_layout().len() == video_bindings(planes).len(),
        resource_fits(video_layout()[i], video_bindings(planes)[i]),
        video_layout()[i].binding == i,
{
}

/// Whatever frames were drawn and colours set, in any order, the compositor is
/// valid: the pipeline is the one that it was made with, and the target is of
/// the one format that the pipeline writes. Frames are cleared to the colour
/// that was set last.
pub proof fn law_calls_keep_pipeline(calls: Seq<CompositorCall>)
    ensures
        after_calls(calls).valid(),
        after_calls(calls).target.format == TEXTURE_FORMAT,
        after_calls(calls).clear_color == last_color(calls),
    decreases calls.len(),
{
    if calls.len() > 0 {
        law_calls_keep_pipeline(calls.drop_last());
    }
}

/// A frame is drawn to a target of the requested size, with empty sides made
/// one pixel long, and does not change the colour.
pub proof fn law_target_follows_size(m: CompositorModel, width: u32, height: u32)
    ensures
        m.rendered(width, height).target.width == at_least_one(width),
        m.rendered(width, height).target.height == at_least_one(height),
        m.rendered(width, height).clear_color == m.clear_color,
{
}

/// A frame is drawn to a texture of its own, of the requested size, which is
/// none of those that were returned before.
pub proof fn law_frame_has_own_texture<'a>(
    calls: Seq<CompositorCall<'a>>,
    planes: Nv12Planes<'a>,
    width: u32,
    height: u32,
)
    ensures
        pictures(calls.push(CompositorCall::Render { planes, width, height })) == pictures(
            calls,
        ).push((target_descriptor(at_least_one(width), at_least_one(height)), planes)),
{
    let after = calls.push(CompositorCall::Render { planes, width, height });
    assert(after.drop_last() =~= calls);
}

/// A texture that was returned holds the frame that was drawn to it, whatever
/// is drawn later and of whatever size.
pub proof fn law_pictures_stay<'a>(
    calls: Seq<CompositorCall<'a>>,
    later: Seq<CompositorCall<'a>>,
    i: int,
)
    requires
        0 <= i < pictures(calls).len(),
    ensures
        i < pictures(calls + later).len(),
        pictures(calls + later)[i] == pictures(calls)[i],
    decreases later.len(),
{
    if later.len() == 0 {
        assert(calls + later =~= calls);
    } else {
        law_pictures_stay(calls, later.drop_last(), i);
        assert((calls + later).drop_last() =~= calls + later.drop_last());
    }
}

/// Every pass fits the pipeline: the target can be drawn to, and has the format
/// and the samples that the pipeline writes; and the vertices of the draw, which
/// are read from no buffer, form exactly one triangle.
pub proof fn law_pass_fits_pipeline(width: u32, height: u32)
    ensures
        ({
            let pipeline = new_compositor().pipeline;
            let draw = full_screen_triangle();
            &&& pass_target(width, height) matches PassTarget::Fresh(target)
            &&& target.usage.render_attachment
            &&& target.format == pipeline.target_format
            &&& target.sample_count == pipeline.multisample.count
            &&& pipeline.depth_stencil is None
            &&& pipeline.vertex_buffers == 0
            &&& pipeline.primitive.topology == PrimitiveTopology::TriangleList
            &&& draw.end_vertex - draw.first_vertex == 3
            &&& draw.end_instance - draw.first_instance == 1
        }),
{
}

/// Frames can be uploaded by the decoder to a texture of the format that the
/// compositor draws to.
pub proof fn law_formats_agree()
    ensures
        TEXTURE_FORMAT == crate::decoder::TEXTURE_FORMAT,
        target_supported(TEXTURE_FORMAT),
{
}

/// The textures of every hardware frame are planes that the compositor is made
/// for.
pub proof fn law_hardware_frames_are_nv12(buffer: PixelBuffer)
    requires
        nv12_textures(Some(buffer), true) is Ok,
    ensures
        ({
            let frame = nv12_textures(Some(buffer), true)->Ok_0.textures(true, true)->Ok_0;
            (Nv12Planes { y: &frame.y_texture, cbcr: &frame.cbcr_texture }).nv12()
        }),
{
}

impl VideoCompositor {
    /// Describe the pipeline. Until a frame is drawn the target is described as
    /// one of one pixel.
    pub fn new() -> (r: VideoCompositor)
        ensures
            r@ == new_compositor(),
            r@.valid(),
    {
        let layout = [
            LayoutEntry {
                binding: 0,
                visibility: ShaderStage::Fragment,
                ty: BindingType::FilterableTexture,
            },
            LayoutEntry {
                binding: 1,
                visibility: ShaderStage::Fragment,
                ty: BindingType::FilterableTexture,
            },
            LayoutEntry {
                binding: 2,
                visibility: ShaderStage::Fragment,
                ty: BindingType::FilteringSampler,
            },
        ];
        assert(layout@ =~= video_layout());
        VideoCompositor {
            layout,
            pipeline: PipelineDescriptor {
                label: "compositor.video.pipeline",
                shader_label: "compositor.video.shader",
                bind_group_layout_label: "compositor.video.bgl",
                layout_label: "compositor.video.pipeline_layout",
                immediate_size: 0,
                vertex_entry: "vs_main",
                vertex_buffers: 0,
                fragment_entry: "fs_main",
                target_format: TEXTURE_FORMAT,
                blend: BlendState::Replace,
                write_mask: ColorWrites::All,
                primitive: PrimitiveState {
                    topology: PrimitiveTopology::TriangleList,
                    strip_index_format: None,
                    front_face: FrontFace::Ccw,
                    cull_mode: None,
                    unclipped_depth: false,
                    polygon_mode: PolygonMode::Fill,
                    conservative: false,
                },
                depth_stencil: None,
                multisample: MultisampleState {
                    count: 1,
                    mask: ALL_SAMPLES,
                    alpha_to_coverage_enabled: false,
                },
                multiview_mask: None,
            },
            sampler: SamplerDescriptor {
                label: "compositor.video.sampler",
                address_mode_u: AddressMode::ClampToEdge,
                address_mode_v: AddressMode::ClampToEdge,
                address_mode_w: AddressMode::ClampToEdge,
                mag_filter: FilterMode::Linear,
                min_filter: FilterMode::Linear,
                mipmap_filter: FilterMode::Nearest,
                lod_min_clamp: SINGLE_ZERO_BITS,
                lod_max_clamp: SINGLE_32_BITS,
                anisotropy_clamp: 1,
            },
            target: create_target(1, 1),
            clear_color: Color { r: ZERO_BITS, g: ZERO_BITS, b: ZERO_BITS, a: ONE_BITS },
        }
    }

    /// Color used to clear the render target when no frame is present.
    pub fn set_clear_color(&mut self, color: Color)
        ensures
            final(self)@ == old(self)@.with_clear_color(color),
            old(self)@.valid() ==> final(self)@.valid(),
    {
        self.clear_color = color;
    }

    /// Render `planes` into a fresh texture of `width` x `height` pixels. An
    /// empty side is one pixel long.
    pub fn render<'a>(&mut self, planes: Nv12Planes<'a>, width: u32, height: u32) -> (r: RenderPlan<
        'a,
    >)
        ensures
            final(self)@ == old(self)@.rendered(width, height),
            old(self)@.valid() ==> final(self)@.valid(),
            r.target == pass_target(width, height),
            r.bind_group_label == "compositor.video.bind_group",
            r.bind_group_index == 0,
            r.bind_group@ == video_bindings(planes),
            r.encoder_label == "compositor.video.encoder",
            r.pass_label == "compositor.video.pass",
            r.clear_color == old(self)@.clear_color,
            r.store == StoreOp::Store,
            r.resolve_target is None,
            r.depth_stencil is None,
            r.draw == full_screen_triangle(),
    {
        let width: u32 = clamp_side(width);
        let height: u32 = clamp_side(height);
        self.target = create_target(width, height);
        let bind_group = [
            BindGroupEntry {
                binding: 0,
                resource: BoundResource::TextureView {
                    label: "compositor.video.y.view",
                    texture: planes.y,
                },
            },
            BindGroupEntry {
                binding: 1,
                resource: BoundResource::TextureView {
                    label: "compositor.video.cbcr.view",
                    texture: planes.cbcr,
                },
            },
            BindGroupEntry { binding: 2, resource: BoundResource::Sampler },
        ];
        assert(bind_group@ =~= video_bindings(planes));
        RenderPlan {
            target: PassTarget::Fresh(create_target(width, height)),
            bind_group_label: "compositor.video.bind_group",
            bind_group_index: 0,
            bind_group,
            encoder_label: "compositor.video.encoder",
            pass_label: "compositor.video.pass",
            clear_color: self.clear_color,
            store: StoreOp::Store,
            resolve_target: None,
            depth_stencil: None,
            draw: DrawRange { first_vertex: 0, end_vertex: 3, first_instance: 0, end_instance: 1 },
        }
    }

    /// The bindings of the fragment shader.
    pub fn layout(&self) -> (r: &[LayoutEntry; 3])
        ensures
            r@ == self@.layout,
    {
        &self.layout
    }

    /// The pipeline of the pass.
    pub fn pipeline(&self) -> (r: &PipelineDescriptor)
        ensures
            *r == self@.pipeline,
    {
        &self.pipeline
    }

    /// The sampler of the pass.
    pub fn sampler(&self) -> (r: SamplerDescriptor)
        ensures
            r == self@.sampler,
    {
        self.sampler
    }

    /// The description of the render target that was asked for last, one pixel
    /// before the first.
    pub fn target(&self) -> (r: &TextureDescriptor)
        ensures
            *r == self@.target,
    {
        &self.target
    }
}

/// Whatever the planes are, and however large, luma is bound first and chroma
/// second: the resource at binding 0 is a view of the Y texture, that at
/// binding 1 a view of the CbCr texture, that at binding 2 the sampler, and
/// there is no other.
pub proof fn law_luma_then_chroma(planes: Nv12Planes)
    ensures
        video_bindings(planes).len() == 3,
        video_bindings(planes)[0] == (BindGroupEntry {
            binding: 0,
            resource: BoundResource::TextureView {
                label: "compositor.video.y.view",
                texture: planes.y,
            },
        }),
        video_bindings(planes)[1] == (BindGroupEntry {
            binding: 1,
            resource: BoundResource::TextureView {
                label: "compositor.video.cbcr.view",
                texture: planes.cbcr,
            },
        }),
        video_bindings(planes)[2] == (BindGroupEntry {
            binding: 2,
            resource: BoundResource::Sampler,
        }),
{
}

/// The one-channel texture of an NV12 frame is always at binding 0 and the
/// two-channel one at binding 1.
pub proof fn law_nv12_channels(planes: Nv12Planes)
    requires
        planes.y.format is R8Unorm,
        planes.cbcr.format is Rg8Unorm,
    ensures
        video_bindings(planes)[0].resource matches BoundResource::TextureView { texture, .. }
            && texture.format is R8Unorm,
        video_bindings(planes)[1].resource matches BoundResource::TextureView { texture, .. }
            && texture.format is Rg8Unorm,
{
}

/// Frames that share a plane share what is bound for it, and swapping the
/// planes of a frame swaps what is bound.
pub proof fn law_each_plane_has_its_binding(a: Nv12Planes, b: Nv12Planes)
    ensures
        a.y == b.y ==> video_bindings(a)[0] == video_bindings(b)[0],
        a.cbcr == b.cbcr ==> video_bindings(a)[1] == video_bindings(b)[1],
        a.y == b.cbcr && a.cbcr == b.y ==> {
            &&& video_bindings(a)[0].resource matches BoundResource::TextureView { texture: t, .. }
            &&& video_bindings(b)[1].resource matches BoundResource::TextureView { texture: u, .. }
            &&& t == u
        },
{
}

/// Every target is one flat image in `Rgba8Unorm`, of exactly the given size,
/// that can be drawn to, sampled and copied.
pub proof fn law_targets_are_flat_rgba(width: u32, height: u32)
    ensures
        ({
            let target = target_descriptor(width, height);
            &&& target.label == "compositor.target"
            &&& target.width == width && target.height == height
            &&& target.depth_or_array_layers == 1
            &&& target.mip_level_count == 1
            &&& target.sample_count == 1
            &&& target.dimension is D2
            &&& target.format is Rgba8Unorm
            &&& target.usage.render_attachment
            &&& target.usage.texture_binding
            &&& target.usage.copy_src
        }),
{
}

/// A frame of any size is drawn to a fresh target of that size, an empty side
/// made one pixel long, and the compositor changes in nothing but the target.
pub proof fn law_render_changes_the_target_only(m: CompositorModel, width: u32, height: u32)
    ensures
        ({
            let after = m.rendered(width, height);
            &&& after == (CompositorModel { target: after.target, ..m })
            &&& pass_target(width, height) == PassTarget::Fresh(after.target)
            &&& width > 0 ==> after.target.width == width
            &&& width == 0 ==> after.target.width == 1
            &&& height > 0 ==> after.target.height == height
            &&& height == 0 ==> after.target.height == 1
            &&& after.target == target_descriptor(after.target.width, after.target.height)
        }),
{
}

/// The target of a frame does not depend on the frames before it, and setting
/// the colour twice is setting it once. Drawing and setting the colour can be
/// exchanged.
pub proof fn law_calls_are_independent(
    m: CompositorModel,
    width: u32,
    height: u32,
    other_width: u32,
    other_height: u32,
    color: Color,
    other: Color,
)
    ensures
        m.rendered(other_width, other_height).rendered(width, height) == m.rendered(width, height),
        m.with_clear_color(other).with_clear_color(color) == m.with_clear_color(color),
        m.with_clear_color(color).clear_color == color,
        m.with_clear_color(color) == (CompositorModel { clear_color: color, ..m }),
        m.with_clear_color(color).rendered(width, height) == m.rendered(
            width,
            height,
        ).with_clear_color(color),
{
}

/// The pass draws the three vertices of one triangle, once.
pub proof fn law_one_triangle()
    ensures
        full_screen_triangle().first_vertex == 0,
        full_screen_triangle().end_vertex == 3,
        full_screen_triangle().first_instance == 0,
        full_screen_triangle().end_instance == 1,
{
}

/// The bindings that the shader declares: two textures and a sampler, all for
/// the fragment stage.
pub proof fn law_declared_bindings()
    ensures
        video_layout().len() == 3,
        forall|i: int|
            0 <= i < 3 ==> (#[trigger] video_layout()[i]).binding == i && video_layout()[i].visibility
                is Fragment && (video_layout()[i].ty is FilteringSampler <==> i == 2),
        new_compositor().layout == video_layout(),
{
}

/// A new compositor clears to opaque black, writes every channel of `Rgba8Unorm`
/// targets in place of what they held, and samples the planes linearly up to
/// their edges.
pub proof fn law_new_compositor()
    ensures
        ({
            let m = new_compositor();
            &&& m.clear_color == (Color { r: 0, g: 0, b: 0, a: 0x3ff0_0000_0000_0000 })
            &&& m.target == target_descriptor(1, 1)
            &&& m.pipeline.target_format is Rgba8Unorm
            &&& m.pipeline.blend is Replace && m.pipeline.write_mask is All
            &&& m.pipeline.vertex_entry == "vs_main" && m.pipeline.fragment_entry == "fs_main"
            &&& m.pipeline.vertex_buffers == 0 && m.pipeline.immediate_size == 0
            &&& m.pipeline.depth_stencil is None && m.pipeline.multiview_mask is None
            &&& m.pipeline.primitive.topology is TriangleList
            &&& m.pipeline.primitive.cull_mode is None
            &&& m.pipeline.primitive.strip_index_format is None
            &&& m.pipeline.primitive.polygon_mode is Fill
            &&& !m.pipeline.primitive.unclipped_depth && !m.pipeline.primitive.conservative
            &&& m.pipeline.multisample.count == 1
            &&& m.pipeline.multisample.mask == 0xffff_ffff_ffff_ffff
            &&& !m.pipeline.multisample.alpha_to_coverage_enabled
            &&& m.sampler.mag_filter is Linear && m.sampler.min_filter is Linear
            &&& m.sampler.mipmap_filter is Nearest
            &&& m.sampler.address_mode_u is ClampToEdge
            &&& m.sampler.address_mode_v is ClampToEdge
            &&& m.sampler.address_mode_w is ClampToEdge
        }),
{
}

} // verus!
