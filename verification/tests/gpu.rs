//! The plans of the library are accepted by the GPU library, which validates
//! them on a device that does nothing.

use cutlass::compositor::{
    BindingType, BlendState, BoundResource, ColorWrites, Face, FrontFace, IndexFormat,
    MultisampleState, Nv12Planes, PassTarget, PolygonMode, PrimitiveState, PrimitiveTopology,
    StoreOp, VideoCompositor,
};
use cutlass::hw_textures::{extract_nv12_textures, PixelBuffer};
use cutlass::media::TextureFormat;
use cutlass::texture::TextureDescriptor;
use cutlass::upload::{upload_rgba, TextureAspect, UploadSource};

fn format(format: &TextureFormat) -> wgpu::TextureFormat {
    match format {
        TextureFormat::Rgba8Unorm => wgpu::TextureFormat::Rgba8Unorm,
        TextureFormat::Rgba8UnormSrgb => wgpu::TextureFormat::Rgba8UnormSrgb,
        TextureFormat::R8Unorm => wgpu::TextureFormat::R8Unorm,
        TextureFormat::Rg8Unorm => wgpu::TextureFormat::Rg8Unorm,
        TextureFormat::Other { name } => panic!("no texture is made in format {}", name),
    }
}

fn create(
    device: &wgpu::Device,
    texture: &TextureDescriptor,
    more: wgpu::TextureUsages,
) -> wgpu::Texture {
    let mut usage = more;
    usage.set(wgpu::TextureUsages::RENDER_ATTACHMENT, texture.usage.render_attachment);
    usage.set(wgpu::TextureUsages::TEXTURE_BINDING, texture.usage.texture_binding);
    usage.set(wgpu::TextureUsages::COPY_SRC, texture.usage.copy_src);
    device.create_texture(&wgpu::TextureDescriptor {
        label: Some(texture.label),
        size: wgpu::Extent3d {
            width: texture.width,
            height: texture.height,
            depth_or_array_layers: texture.depth_or_array_layers,
        },
        mip_level_count: texture.mip_level_count,
        sample_count: texture.sample_count,
        dimension: wgpu::TextureDimension::D2,
        format: format(&texture.format),
        usage,
        view_formats: &[],
    })
}

fn primitive(state: PrimitiveState) -> wgpu::PrimitiveState {
    wgpu::PrimitiveState {
        topology: match state.topology {
            PrimitiveTopology::TriangleList => wgpu::PrimitiveTopology::TriangleList,
        },
        strip_index_format: state.strip_index_format.map(|format| match format {
            IndexFormat::Uint16 => wgpu::IndexFormat::Uint16,
            IndexFormat::Uint32 => wgpu::IndexFormat::Uint32,
        }),
        front_face: match state.front_face {
            FrontFace::Ccw => wgpu::FrontFace::Ccw,
        },
        cull_mode: state.cull_mode.map(|face| match face {
            Face::Front => wgpu::Face::Front,
            Face::Back => wgpu::Face::Back,
        }),
        unclipped_depth: state.unclipped_depth,
        polygon_mode: match state.polygon_mode {
            PolygonMode::Fill => wgpu::PolygonMode::Fill,
        },
        conservative: state.conservative,
    }
}

fn multisample(state: MultisampleState) -> wgpu::MultisampleState {
    wgpu::MultisampleState {
        count: state.count,
        mask: state.mask,
        alpha_to_coverage_enabled: state.alpha_to_coverage_enabled,
    }
}

/// A shader with the entry points and bindings of the pipeline.
const SHADER: &str = "
@group(0) @binding(0) var y_plane: texture_2d<f32>;
@group(0) @binding(1) var cbcr_plane: texture_2d<f32>;
@group(0) @binding(2) var plane_sampler: sampler;

@vertex
fn vs_main(@builtin(vertex_index) index: u32) -> @builtin(position) vec4<f32> {
    return vec4<f32>(f32(index), 0.0, 0.0, 1.0);
}

@fragment
fn fs_main() -> @location(0) vec4<f32> {
    let uv = vec2<f32>(0.5);
    let y = textureSample(y_plane, plane_sampler, uv).r;
    let c = textureSample(cbcr_plane, plane_sampler, uv).rg;
    return vec4<f32>(y, c, 1.0);
}
";

#[test]
fn pipeline_states_are_the_defaults() {
    let compositor = VideoCompositor::new();
    assert_eq!(primitive(compositor.pipeline().primitive), wgpu::PrimitiveState::default());
    assert_eq!(multisample(compositor.pipeline().multisample), wgpu::MultisampleState::default());
    let sampler = wgpu::SamplerDescriptor::default();
    assert_eq!(f32::from_bits(compositor.sampler().lod_min_clamp), sampler.lod_min_clamp);
    assert_eq!(f32::from_bits(compositor.sampler().lod_max_clamp), sampler.lod_max_clamp);
    assert_eq!(compositor.sampler().anisotropy_clamp, sampler.anisotropy_clamp);
}

#[test]
fn planes_are_bound_and_drawn() {
    let (device, queue) = wgpu::Device::noop(&wgpu::DeviceDescriptor::default());
    let layout = extract_nv12_textures(
        Some(PixelBuffer {
            width: 64,
            height: 36,
            plane_count: 2,
            pixel_format: 0x34323076,
            has_iosurface: true,
        }),
        true,
    )
    .unwrap();
    let frame = layout.assemble(true, true).unwrap();
    let y = create(&device, &frame.y_texture, wgpu::TextureUsages::empty());
    let cbcr = create(&device, &frame.cbcr_texture, wgpu::TextureUsages::empty());
    assert_eq!((y.size().width, y.size().height), (64, 36));
    assert_eq!((cbcr.size().width, cbcr.size().height), (32, 18));

    let mut compositor = VideoCompositor::new();
    let plan = compositor.render(
        Nv12Planes { y: &frame.y_texture, cbcr: &frame.cbcr_texture },
        frame.width,
        frame.height,
    );
    let PassTarget::Fresh(described) = &plan.target;
    let target = create(&device, described, wgpu::TextureUsages::empty());
    assert_eq!((target.size().width, target.size().height), (64, 36));
    assert_eq!(target.format(), wgpu::TextureFormat::Rgba8Unorm);

    let entries: Vec<wgpu::BindGroupLayoutEntry> = compositor
        .layout()
        .iter()
        .map(|entry| wgpu::BindGroupLayoutEntry {
            binding: entry.binding,
            visibility: wgpu::ShaderStages::FRAGMENT,
            ty: match entry.ty {
                BindingType::FilterableTexture => wgpu::BindingType::Texture {
                    sample_type: wgpu::TextureSampleType::Float { filterable: true },
                    view_dimension: wgpu::TextureViewDimension::D2,
                    multisampled: false,
                },
                BindingType::FilteringSampler => {
                    wgpu::BindingType::Sampler(wgpu::SamplerBindingType::Filtering)
                }
            },
            count: None,
        })
        .collect();
    let bind_group_layout = device.create_bind_group_layout(&wgpu::BindGroupLayoutDescriptor {
        label: None,
        entries: &entries,
    });
    let pipeline_layout = device.create_pipeline_layout(&wgpu::PipelineLayoutDescriptor {
        label: None,
        bind_group_layouts: &[&bind_group_layout],
        immediate_size: compositor.pipeline().immediate_size,
    });
    let shader = device.create_shader_module(wgpu::ShaderModuleDescriptor {
        label: None,
        source: wgpu::ShaderSource::Wgsl(SHADER.into()),
    });
    assert_eq!(compositor.pipeline().vertex_buffers, 0);
    assert_eq!(compositor.pipeline().depth_stencil, None);
    assert_eq!(compositor.pipeline().multiview_mask, None);
    let pipeline = device.create_render_pipeline(&wgpu::RenderPipelineDescriptor {
        label: None,
        layout: Some(&pipeline_layout),
        vertex: wgpu::VertexState {
            module: &shader,
            entry_point: Some(compositor.pipeline().vertex_entry),
            buffers: &[],
            compilation_options: wgpu::PipelineCompilationOptions::default(),
        },
        fragment: Some(wgpu::FragmentState {
            module: &shader,
            entry_point: Some(compositor.pipeline().fragment_entry),
            compilation_options: wgpu::PipelineCompilationOptions::default(),
            targets: &[Some(wgpu::ColorTargetState {
                format: format(&compositor.pipeline().target_format),
                blend: Some(match compositor.pipeline().blend {
                    BlendState::Replace => wgpu::BlendState::REPLACE,
                }),
                write_mask: match compositor.pipeline().write_mask {
                    ColorWrites::All => wgpu::ColorWrites::ALL,
                },
            })],
        }),
        primitive: primitive(compositor.pipeline().primitive),
        depth_stencil: None,
        multisample: multisample(compositor.pipeline().multisample),
        multiview_mask: None,
        cache: None,
    });
    let y_view = y.create_view(&wgpu::TextureViewDescriptor::default());
    let cbcr_view = cbcr.create_view(&wgpu::TextureViewDescriptor::default());
    let sampler = device.create_sampler(&wgpu::SamplerDescriptor::default());
    let bound: Vec<wgpu::BindGroupEntry<'_>> = plan
        .bind_group
        .iter()
        .map(|entry| wgpu::BindGroupEntry {
            binding: entry.binding,
            resource: match entry.resource {
                BoundResource::TextureView { texture, .. } => {
                    wgpu::BindingResource::TextureView(match texture.format {
                        TextureFormat::R8Unorm => &y_view,
                        _ => &cbcr_view,
                    })
                }
                BoundResource::Sampler => wgpu::BindingResource::Sampler(&sampler),
            },
        })
        .collect();
    // A binding that does not match the layout is refused with a panic.
    let bind_group = device.create_bind_group(&wgpu::BindGroupDescriptor {
        label: None,
        layout: &bind_group_layout,
        entries: &bound,
    });

    // So are a target that cannot be drawn to and a pipeline that does not fit
    // the pass.
    let target_view = target.create_view(&wgpu::TextureViewDescriptor::default());
    let mut encoder = device.create_command_encoder(&wgpu::CommandEncoderDescriptor::default());
    let mut pass = encoder.begin_render_pass(&wgpu::RenderPassDescriptor {
        label: None,
        color_attachments: &[Some(wgpu::RenderPassColorAttachment {
            view: &target_view,
            depth_slice: None,
            resolve_target: None,
            ops: wgpu::Operations {
                load: wgpu::LoadOp::Clear(wgpu::Color {
                    r: f64::from_bits(plan.clear_color.r),
                    g: f64::from_bits(plan.clear_color.g),
                    b: f64::from_bits(plan.clear_color.b),
                    a: f64::from_bits(plan.clear_color.a),
                }),
                store: match plan.store {
                    StoreOp::Store => wgpu::StoreOp::Store,
                },
            },
        })],
        depth_stencil_attachment: None,
        timestamp_writes: None,
        occlusion_query_set: None,
        multiview_mask: None,
    });
    pass.set_pipeline(&pipeline);
    pass.set_bind_group(plan.bind_group_index, &bind_group, &[]);
    pass.draw(
        plan.draw.first_vertex..plan.draw.end_vertex,
        plan.draw.first_instance..plan.draw.end_instance,
    );
    drop(pass);
    queue.submit(std::iter::once(encoder.finish()));
}

#[test]
fn packed_frames_are_written() {
    let (device, queue) = wgpu::Device::noop(&wgpu::DeviceDescriptor::default());
    let target = cutlass::compositor::create_target(3, 2);
    let texture = create(&device, &target, wgpu::TextureUsages::COPY_DST);
    let plane = [5u8; 2 * 64];
    let mut scratch = Vec::new();
    let upload = upload_rgba(&plane, 64, 3, 2, &mut scratch);
    assert_eq!(upload.source, UploadSource::Scratch);
    // Data that does not fill the region is refused with a panic.
    queue.write_texture(
        wgpu::TexelCopyTextureInfo {
            texture: &texture,
            mip_level: upload.mip_level,
            origin: wgpu::Origin3d {
                x: upload.origin.x,
                y: upload.origin.y,
                z: upload.origin.z,
            },
            aspect: match upload.aspect {
                TextureAspect::All => wgpu::TextureAspect::All,
            },
        },
        &scratch,
        wgpu::TexelCopyBufferLayout {
            offset: upload.layout.offset,
            bytes_per_row: Some(upload.layout.bytes_per_row),
            rows_per_image: Some(upload.layout.rows_per_image),
        },
        wgpu::Extent3d {
            width: upload.layout.width,
            height: upload.layout.height,
            depth_or_array_layers: upload.layout.depth_or_array_layers,
        },
    );
    queue.submit([]);
}

#[test]
fn frames_of_one_size_get_two_textures() {
    let (device, _queue) = wgpu::Device::noop(&wgpu::DeviceDescriptor::default());
    let layout = extract_nv12_textures(
        Some(PixelBuffer {
            width: 64,
            height: 36,
            plane_count: 2,
            pixel_format: 0x34323076,
            has_iosurface: true,
        }),
        true,
    )
    .unwrap();
    let frame = layout.assemble(true, true).unwrap();
    let mut compositor = VideoCompositor::new();
    let mut targets = Vec::new();
    for _ in 0..2 {
        let planes = Nv12Planes { y: &frame.y_texture, cbcr: &frame.cbcr_texture };
        let PassTarget::Fresh(described) = compositor.render(planes, 64, 36).target;
        targets.push(create(&device, &described, wgpu::TextureUsages::empty()));
    }
    assert_ne!(targets[0], targets[1]);
    assert_eq!(targets[0].size(), targets[1].size());
}
