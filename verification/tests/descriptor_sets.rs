//! Descriptor-set planning and framebuffer pass replay.

use isopod::buffer::{GpuBuffer, MemoryKind};
use isopod::draw::DrawCmd;
use isopod::frame::{plan_descriptor_sets, DescWrite};
use isopod::geom::{UVec2, UVec3};
use isopod::gpu_texture::CanvasID;
use isopod::image::{
    GpuImage, ImageFormat, ImageLayout, ACCESS_SHADER_READ,
};
use isopod::material::{MaterialAttributeRefID, MaterialAttributeRefIDInner};
use isopod::replay::{replay_draw_commands, GpuFramebuffer, ImageRef, NativeCmd};
use isopod::util::SparseVec;
use isopod::attribute::TextureFormatID;

#[test]
fn one_set_per_material_bind_in_log_order() {
    let mut uniforms: SparseVec<GpuBuffer> = SparseVec::new();
    uniforms.insert(2, GpuBuffer::new(48, 0, MemoryKind::PreferDevice));
    let log = vec![
        DrawCmd::SetShader { id: 0 },
        DrawCmd::SetMaterial {
            attributes: vec![
                MaterialAttributeRefID { inner: MaterialAttributeRefIDInner::Texture2D { id: 7 } },
                MaterialAttributeRefID { inner: MaterialAttributeRefIDInner::Sampler { id: 1 } },
                MaterialAttributeRefID { inner: MaterialAttributeRefIDInner::Uniform { id: 2 } },
            ],
            slot: 0,
        },
        DrawCmd::SetMaterial {
            attributes: vec![MaterialAttributeRefID {
                inner: MaterialAttributeRefIDInner::ImmediateUniform { start: 128, len: 16 },
            }],
            slot: 1,
        },
    ];
    let sets = plan_descriptor_sets(&log, &uniforms);
    assert_eq!(sets.len(), 2);
    assert_eq!(sets[0].len(), 3);
    assert!(matches!(
        sets[0][0],
        DescWrite::SampledImage { image: ImageRef::Texture(7) }
    ));
    assert!(matches!(sets[0][1], DescWrite::Sampler { id: 1 }));
    match sets[0][2] {
        DescWrite::UniformBuffer { id, info } => {
            assert_eq!(id, 2);
            assert_eq!(info.offset, 0);
            assert_eq!(info.range, 48);
        },
        _ => panic!("expected the whole uniform buffer"),
    }
    match sets[1][0] {
        DescWrite::FrameUniform { info } => {
            assert_eq!(info.offset, 128);
            assert_eq!(info.range, 16);
        },
        _ => panic!("expected a frame uniform range"),
    }
}

fn steady_framebuffer(size: u32) -> GpuFramebuffer {
    let extent = UVec3::new(size, size, 1);
    let mut color = GpuImage::new(extent, ImageFormat::Format(TextureFormatID::SrgbU8Vec4));
    color.change_layout_mem_barrier(ImageLayout::ShaderReadOnly, ACCESS_SHADER_READ);
    let depth = GpuImage::new(extent, ImageFormat::DepthStencil);
    GpuFramebuffer {
        color,
        depth,
        extent: UVec2::new(size, size),
        color_format_index: TextureFormatID::SrgbU8Vec4.to_index(),
    }
}

#[test]
fn framebuffer_pass_brackets_its_color_image_transitions() {
    let mut framebuffers: SparseVec<GpuFramebuffer> = SparseVec::new();
    framebuffers.insert(0, steady_framebuffer(32));
    let log = vec![
        DrawCmd::SetCanvas { id: CanvasID::Framebuffer(0), clear_color: None },
        DrawCmd::SetShader { id: 0 },
        DrawCmd::SetCanvas { id: CanvasID::Screen, clear_color: None },
        DrawCmd::SetShader { id: 0 },
    ];
    let meshes = SparseVec::new();
    let instances = SparseVec::new();
    let out = replay_draw_commands(
        &log,
        &mut framebuffers,
        &meshes,
        &instances,
        Some(0),
        UVec2::new(64, 64),
    );
    // to attachment, begin, viewport, scissor, bind, end, back to
    // shader-read, then the screen pass
    let barriers: Vec<_> = out
        .iter()
        .filter_map(|c| match c {
            NativeCmd::PipelineBarrier { image, barrier } => Some((*image, *barrier)),
            _ => None,
        })
        .collect();
    assert_eq!(barriers.len(), 2);
    assert_eq!(barriers[0].0, ImageRef::FramebufferColor(0));
    assert_eq!(barriers[0].1.old_layout, ImageLayout::ShaderReadOnly);
    assert_eq!(barriers[0].1.new_layout, ImageLayout::ColorAttachment);
    assert_eq!(barriers[1].1.old_layout, ImageLayout::ColorAttachment);
    assert_eq!(barriers[1].1.new_layout, ImageLayout::ShaderReadOnly);
    // the barrier is recorded immediately before the pass opens
    let begin_at = out
        .iter()
        .position(|c| {
            matches!(
                c,
                NativeCmd::BeginRendering { canvas: CanvasID::Framebuffer(0), .. }
            )
        })
        .unwrap();
    assert!(matches!(out[begin_at - 1], NativeCmd::PipelineBarrier { .. }));
    // the shader bind picks the framebuffer's format variant, then the
    // screen's
    let variants: Vec<_> = out
        .iter()
        .filter_map(|c| match c {
            NativeCmd::BindPipeline { variant, .. } => Some(*variant),
            _ => None,
        })
        .collect();
    assert_eq!(
        variants,
        vec![
            TextureFormatID::SrgbU8Vec4.to_index(),
            isopod::attribute::N_TEXTURE_FORMATS
        ]
    );
    // the framebuffer's color image ends back in its steady state
    let fb = framebuffers.get(0).unwrap();
    assert_eq!(fb.color.layout, ImageLayout::ShaderReadOnly);
    assert_eq!(fb.color.access_mask, ACCESS_SHADER_READ);
}

#[test]
fn repeated_canvas_is_not_reopened() {
    let mut framebuffers: SparseVec<GpuFramebuffer> = SparseVec::new();
    framebuffers.insert(0, steady_framebuffer(16));
    let log = vec![
        DrawCmd::SetCanvas { id: CanvasID::Framebuffer(0), clear_color: None },
        DrawCmd::SetCanvas { id: CanvasID::Framebuffer(0), clear_color: None },
    ];
    let meshes = SparseVec::new();
    let instances = SparseVec::new();
    let out = replay_draw_commands(
        &log,
        &mut framebuffers,
        &meshes,
        &instances,
        None,
        UVec2::new(16, 16),
    );
    assert_eq!(
        out.iter().filter(|c| matches!(c, NativeCmd::BeginRendering { .. })).count(),
        1
    );
    assert_eq!(out.iter().filter(|c| matches!(c, NativeCmd::EndRendering)).count(), 1);
}
