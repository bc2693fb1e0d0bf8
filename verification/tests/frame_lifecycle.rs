//! Frame orchestration: deferred destruction gated on parity, staging
//! packing, and scratch-buffer growth through the destroy queue.

use isopod::frame::{BackendState, Destroyable, PlanOp};
use isopod::mesh::{InstanceBytes, MeshBytes};
use isopod::resource::{ResourceFreeType, ResourceUpdate};

#[test]
fn freed_resource_waits_for_its_parity_fence() {
    let mut b = BackendState::new();
    let parity_a = b.even_frame;

    // frame 1 (parity A): realize a mesh
    let drained = b.begin_frame();
    assert!(drained.is_empty());
    b.drain_updates(vec![ResourceUpdate::CreateMesh {
        id: 0,
        data: MeshBytes::from_parts(vec![1, 2, 3, 4], 1, None),
    }])
    .ok()
    .expect("no shaders to compile");
    b.end_frame();

    // frame 2 (parity B): the mesh is freed mid-frame; it parks in parity
    // B's destroy queue
    let parity_b = b.even_frame;
    assert_ne!(parity_a, parity_b);
    b.begin_frame();
    b.drain_updates(vec![ResourceUpdate::Free { id: 0, ty: ResourceFreeType::Mesh }])
        .ok()
        .expect("no shaders to compile");
    assert_eq!(b.destroy_queue_len(parity_b), 1);
    b.end_frame();

    // frame 3 (parity A): parity B's fence has not been waited on, so the
    // queue must still hold the mesh
    b.begin_frame();
    assert_eq!(b.destroy_queue_len(parity_b), 1);
    b.end_frame();

    // frame 4 (parity B): after parity B's fence wait the queue drains
    let drained = b.begin_frame();
    assert_eq!(drained.len(), 1);
    assert!(matches!(drained[0], Destroyable::Mesh(_)));
    assert_eq!(b.destroy_queue_len(parity_b), 0);
}

#[test]
fn staging_plan_is_packed_and_aligned() {
    let mut b = BackendState::new();
    b.begin_frame();
    let plan = b
        .drain_updates(vec![
            ResourceUpdate::CreateInstances {
                id: 0,
                data: InstanceBytes::from_parts(1, vec![0u8; 10]),
            },
            ResourceUpdate::CreateInstances {
                id: 1,
                data: InstanceBytes::from_parts(1, vec![0u8; 100]),
            },
            ResourceUpdate::CreateInstances {
                id: 2,
                data: InstanceBytes::from_parts(1, vec![0u8; 64]),
            },
        ])
        .ok()
        .expect("no shaders to compile");
    assert_eq!(plan.staging_copies.len(), 3);
    assert_eq!(plan.staging_copies[0].offset, 0);
    // 10 bytes pad to the 64-byte alignment
    assert_eq!(plan.staging_copies[1].offset, 64);
    // 100 bytes after offset 64 end at 164, padding to 192
    assert_eq!(plan.staging_copies[2].offset, 192);
    assert_eq!(plan.staging_size, 256);
    // payloads never overlap
    for w in plan.staging_copies.windows(2) {
        assert!(w[0].offset + w[0].bytes.len() <= w[1].offset);
    }
}

#[test]
fn plan_ops_mirror_the_updates_in_order() {
    let mut b = BackendState::new();
    b.begin_frame();
    let plan = b
        .drain_updates(vec![
            ResourceUpdate::CreateUniform { id: 3, data: vec![0u8; 16] },
            ResourceUpdate::CreateInstances {
                id: 1,
                data: InstanceBytes::from_parts(2, vec![0u8; 8]),
            },
        ])
        .ok()
        .expect("no shaders to compile");
    assert_eq!(plan.ops.len(), 2);
    assert!(matches!(
        plan.ops[0],
        PlanOp::Create(isopod::frame::NativeCreate::UniformBuffer { id: 3, size: 16 })
    ));
    assert!(matches!(
        plan.ops[1],
        PlanOp::Create(isopod::frame::NativeCreate::Instances { id: 1, size: 8 })
    ));
}

#[test]
fn grown_scratch_buffer_is_retired_through_the_destroy_queue() {
    let mut b = BackendState::new();
    let parity = b.even_frame;
    b.begin_frame();
    assert_eq!(b.destroy_queue_len(parity), 0);
    // ask for more staging space than the initial capacity
    b.fit_frame_buffers(64 * 1024 * 1024, 0, 0, 0);
    assert_eq!(b.destroy_queue_len(parity), 1);
    let fr = if parity { &b.frame_even } else { &b.frame_odd };
    assert!(fr.staging_buffer.capacity >= 64 * 1024 * 1024);
    // asking again for the same amount retires nothing further
    b.fit_frame_buffers(64 * 1024 * 1024, 0, 0, 0);
    assert_eq!(b.destroy_queue_len(parity), 1);
}
