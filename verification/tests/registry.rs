//! Resource registry behavior: id uniqueness while handles live, slot
//! reuse after sweeps, and free updates enqueued by the frame sweep.

use isopod::geom::UVec2;
use isopod::gfx::GfxCtx;
use isopod::mesh::InstanceBytes;
use isopod::resource::ResourceUpdate;
use isopod::shader::{ShaderDefinition, ShaderFullDefinition};
use isopod::attribute::StructLayout;
use isopod::gpu_texture::SamplerDefinition;

fn simple_def() -> ShaderFullDefinition {
    ShaderFullDefinition::from_partial(
        StructLayout::unit(),
        StructLayout::unit(),
        Vec::new(),
        StructLayout::unit(),
        ShaderDefinition::default(),
    )
}

#[test]
fn registered_ids_are_unique_while_alive() {
    let mut c = GfxCtx::new();
    let s1 = c.register_shader(simple_def());
    let s2 = c.register_shader(simple_def());
    let s3 = c.register_shader(simple_def());
    assert_ne!(s1.id, s2.id);
    assert_ne!(s1.id, s3.id);
    assert_ne!(s2.id, s3.id);

    let i1 = c.register_instances(InstanceBytes::from_parts(1, vec![0u8; 4]));
    let i2 = c.register_instances(InstanceBytes::from_parts(1, vec![0u8; 4]));
    match (&i1.inner, &i2.inner) {
        (
            isopod::mesh::GPUInstancesInner::Resource { id: a, .. },
            isopod::mesh::GPUInstancesInner::Resource { id: b, .. },
        ) => assert_ne!(a, b),
        _ => panic!("expected persistent resources"),
    }
}

#[test]
fn sweep_frees_dropped_handles_and_reuses_slots() {
    let mut c = GfxCtx::new();
    let s1 = c.register_sampler(SamplerDefinition::default());
    let s2 = c.register_sampler(SamplerDefinition::default());
    let first_id = s1.id;
    assert_ne!(s1.id, s2.id);

    // drop the first handle; the next frame sweep frees its slot
    drop(s1);
    c.start_update(UVec2::new(100, 100), true);
    let frees: Vec<usize> = c
        .frame_data
        .resource_update_queue
        .get_mut()
        .iter()
        .filter_map(|u| match u {
            ResourceUpdate::Free { id, .. } => Some(*id),
            _ => None,
        })
        .collect();
    assert_eq!(frees, vec![first_id]);

    // the freed slot is recycled by the next registration
    let s3 = c.register_sampler(SamplerDefinition::default());
    assert_eq!(s3.id, first_id);
    assert_ne!(s3.id, s2.id);
}

#[test]
fn sweep_keeps_live_handles() {
    let mut c = GfxCtx::new();
    let s1 = c.register_sampler(SamplerDefinition::default());
    c.start_update(UVec2::new(8, 8), true);
    let n_frees = c
        .frame_data
        .resource_update_queue
        .get_mut()
        .iter()
        .filter(|u| matches!(u, ResourceUpdate::Free { .. }))
        .count();
    assert_eq!(n_frees, 0);
    drop(s1);
}

#[test]
fn sweep_frees_carry_their_own_category() {
    let mut c = GfxCtx::new();
    let fb = c.register_framebuffer(
        UVec2::new(16, 16),
        isopod::attribute::TextureFormatID::SrgbU8Vec4,
    );
    let smp = c.register_sampler(SamplerDefinition::default());
    let smp_id = smp.id;
    drop(fb);
    drop(smp);
    c.start_update(UVec2::new(32, 32), true);
    let frees: Vec<(usize, isopod::resource::ResourceFreeType)> = c
        .frame_data
        .resource_update_queue
        .get_mut()
        .iter()
        .filter_map(|u| match u {
            ResourceUpdate::Free { id, ty } => Some((*id, *ty)),
            _ => None,
        })
        .collect();
    // one free per dropped resource, each under its own category
    assert_eq!(frees.len(), 2);
    assert!(frees.contains(&(0, isopod::resource::ResourceFreeType::Framebuffer)));
    assert!(frees.contains(&(smp_id, isopod::resource::ResourceFreeType::Sampler)));
}
