use cutlass::compositor::{
    create_target, AddressMode, BindingType, BlendState, BoundResource, Color, DrawRange,
    ColorWrites, FilterMode, FrontFace, LayoutEntry, MultisampleState, Nv12Planes, PassTarget,
    PolygonMode, PrimitiveState, PrimitiveTopology, SamplerDescriptor, ShaderStage, StoreOp,
    VideoCompositor, TEXTURE_FORMAT,
};
use cutlass::decoder::validate_target;
use cutlass::hw_textures::{extract_nv12_textures, HwFrameTextures, PixelBuffer};
use cutlass::media::TextureFormat;
use cutlass::texture::{TextureDescriptor, TextureDimension, TextureUsages};

fn frame() -> HwFrameTextures {
    extract_nv12_textures(
        Some(PixelBuffer {
            width: 8,
            height: 4,
            plane_count: 2,
            pixel_format: 0x34323076,
            has_iosurface: true,
        }),
        true,
    )
    .unwrap()
    .assemble(true, true)
    .unwrap()
}

fn planes(frame: &HwFrameTextures) -> Nv12Planes<'_> {
    Nv12Planes { y: &frame.y_texture, cbcr: &frame.cbcr_texture }
}

fn size(texture: &TextureDescriptor) -> (u32, u32) {
    (texture.width, texture.height)
}

#[test]
fn target_texture() {
    assert_eq!(
        create_target(3, 5),
        TextureDescriptor {
            label: "compositor.target",
            width: 3,
            height: 5,
            depth_or_array_layers: 1,
            mip_level_count: 1,
            sample_count: 1,
            dimension: TextureDimension::D2,
            format: TextureFormat::Rgba8Unorm,
            usage: TextureUsages { render_attachment: true, texture_binding: true, copy_src: true },
        }
    );
}

#[test]
fn new_pipeline() {
    let compositor = VideoCompositor::new();
    assert_eq!(
        compositor.layout(),
        &[
            LayoutEntry {
                binding: 0,
                visibility: ShaderStage::Fragment,
                ty: BindingType::FilterableTexture,
            },
            LayoutEntry {
                binding: 1,
                visibility: ShaderStage::Fragment,
                ty: BindingType::FilterableTexture,
            },
            LayoutEntry {
                binding: 2,
                visibility: ShaderStage::Fragment,
                ty: BindingType::FilteringSampler,
            },
        ]
    );
    let pipeline = compositor.pipeline();
    assert_eq!(pipeline.label, "compositor.video.pipeline");
    assert_eq!(pipeline.shader_label, "compositor.video.shader");
    assert_eq!(pipeline.bind_group_layout_label, "compositor.video.bgl");
    assert_eq!(pipeline.layout_label, "compositor.video.pipeline_layout");
    assert_eq!(pipeline.write_mask, ColorWrites::All);
    assert_eq!(pipeline.vertex_entry, "vs_main");
    assert_eq!(pipeline.fragment_entry, "fs_main");
    assert_eq!(pipeline.target_format, TextureFormat::Rgba8Unorm);
    assert_eq!(pipeline.blend, BlendState::Replace);
    assert_eq!(pipeline.immediate_size, 0);
    assert_eq!(pipeline.vertex_buffers, 0);
    assert_eq!(
        pipeline.primitive,
        PrimitiveState {
            topology: PrimitiveTopology::TriangleList,
            strip_index_format: None,
            front_face: FrontFace::Ccw,
            cull_mode: None,
            unclipped_depth: false,
            polygon_mode: PolygonMode::Fill,
            conservative: false,
        }
    );
    assert_eq!(pipeline.depth_stencil, None);
    assert_eq!(
        pipeline.multisample,
        MultisampleState { count: 1, mask: !0, alpha_to_coverage_enabled: false }
    );
    assert_eq!(pipeline.multiview_mask, None);
    assert_eq!(
        compositor.sampler(),
        SamplerDescriptor {
            label: "compositor.video.sampler",
            address_mode_u: AddressMode::ClampToEdge,
            address_mode_v: AddressMode::ClampToEdge,
            address_mode_w: AddressMode::ClampToEdge,
            mag_filter: FilterMode::Linear,
            min_filter: FilterMode::Linear,
            mipmap_filter: FilterMode::Nearest,
            lod_min_clamp: 0.0f32.to_bits(),
            lod_max_clamp: 32.0f32.to_bits(),
            anisotropy_clamp: 1,
        }
    );
    assert_eq!(compositor.target(), &create_target(1, 1));
}

#[test]
fn target_follows_the_frame() {
    let frame = frame();
    let mut compositor = VideoCompositor::new();
    for (width, height) in [(8, 4), (8, 5), (7, 5)] {
        let plan = compositor.render(planes(&frame), width, height);
        assert_eq!(plan.target, PassTarget::Fresh(create_target(width, height)));
        assert_eq!(compositor.target(), &create_target(width, height));
        assert_eq!(size(compositor.target()), (width, height));
    }
}

#[test]
fn each_frame_has_a_fresh_target() {
    let frame = frame();
    let mut compositor = VideoCompositor::new();
    for _ in 0..3 {
        let plan = compositor.render(planes(&frame), 8, 4);
        assert_eq!(plan.target, PassTarget::Fresh(create_target(8, 4)));
    }
}

#[test]
fn empty_target_is_one_pixel() {
    let frame = frame();
    let mut compositor = VideoCompositor::new();
    let plan = compositor.render(planes(&frame), 0, 0);
    assert_eq!(plan.target, PassTarget::Fresh(create_target(1, 1)));
    let plan = compositor.render(planes(&frame), 0, 3);
    assert_eq!(plan.target, PassTarget::Fresh(create_target(1, 3)));
    assert_eq!(size(compositor.target()), (1, 3));
}

#[test]
fn pass_binds_the_planes() {
    let frame = frame();
    let mut compositor = VideoCompositor::new();
    let plan = compositor.render(planes(&frame), 8, 4);
    for (entry, bound) in compositor.layout().iter().zip(plan.bind_group.iter()) {
        assert_eq!(entry.binding, bound.binding);
    }
    match (plan.bind_group[0].resource, plan.bind_group[1].resource, plan.bind_group[2].resource) {
        (
            BoundResource::TextureView { label: y_label, texture: y },
            BoundResource::TextureView { label: cbcr_label, texture: cbcr },
            BoundResource::Sampler,
        ) => {
            assert_eq!(y_label, "compositor.video.y.view");
            assert_eq!(cbcr_label, "compositor.video.cbcr.view");
            assert_eq!(y.format, TextureFormat::R8Unorm);
            assert_eq!(cbcr.format, TextureFormat::Rg8Unorm);
            assert_eq!(y, &frame.y_texture);
            assert_eq!(cbcr, &frame.cbcr_texture);
        }
        other => panic!("unexpected bindings {:?}", other),
    }
    assert_eq!(plan.bind_group_label, "compositor.video.bind_group");
    assert_eq!(plan.bind_group_index, 0);
    assert_eq!(plan.store, StoreOp::Store);
    assert_eq!(plan.resolve_target, None);
    assert_eq!(plan.depth_stencil, None);
    assert_eq!(create_target(8, 4).sample_count, compositor.pipeline().multisample.count);
    assert_eq!(plan.encoder_label, "compositor.video.encoder");
    assert_eq!(plan.pass_label, "compositor.video.pass");
    assert_eq!(
        plan.draw,
        DrawRange { first_vertex: 0, end_vertex: 3, first_instance: 0, end_instance: 1 }
    );
}

#[test]
fn clear_color_is_kept() {
    let frame = frame();
    let mut compositor = VideoCompositor::new();
    let black = Color {
        r: 0.0f64.to_bits(),
        g: 0.0f64.to_bits(),
        b: 0.0f64.to_bits(),
        a: 1.0f64.to_bits(),
    };
    assert_eq!(compositor.render(planes(&frame), 8, 4).clear_color, black);
    let red = Color { r: 1.0f64.to_bits(), ..black };
    compositor.set_clear_color(red);
    assert_eq!(size(compositor.target()), (8, 4));
    assert_eq!(compositor.render(planes(&frame), 2, 2).clear_color, red);
    let blue = Color { b: 1.0f64.to_bits(), ..black };
    compositor.set_clear_color(red);
    compositor.set_clear_color(blue);
    assert_eq!(compositor.render(planes(&frame), 2, 2).clear_color, blue);
    assert_eq!(compositor.render(planes(&frame), 3, 2).clear_color, blue);
    assert_eq!(compositor.pipeline().target_format, compositor.target().format);
}

#[test]
fn decoder_and_compositor_agree_on_the_format() {
    assert_eq!(TEXTURE_FORMAT, cutlass::decoder::TEXTURE_FORMAT);
    assert_eq!(validate_target(TEXTURE_FORMAT), Ok(()));
}
