//! Draw-command logging with state deduplication, and replay of the log
//! into the native-call stream.

use isopod::draw::{DrawCmd, ShaderCfg};
use isopod::geom::UVec2;
use isopod::gfx::{GfxCtx, GfxFrameData};
use isopod::gpu_texture::CanvasID;
use isopod::material::{MaterialAttributeRefID, MaterialAttributeRefIDInner, MaterialRaw};
use isopod::mesh::{GPUInstances, GPUMesh, InstancesDraw, MeshDraw};
use isopod::replay::{replay_draw_commands, NativeCmd};
use isopod::util::SparseVec;

fn material(id: usize) -> MaterialRaw {
    MaterialRaw {
        id,
        attributes: vec![MaterialAttributeRefID {
            inner: MaterialAttributeRefIDInner::Sampler { id: 0 },
        }],
    }
}

#[test]
fn repeated_binds_are_deduplicated() {
    let mut frame = GfxFrameData::new();
    let cfg = ShaderCfg { shader: 1, materials: vec![material(5)] };
    let mesh = GPUMesh::range(0..3);
    let instances = GPUInstances::one();
    // two draws with the same shader and the same material: the second
    // draw re-logs neither bind
    cfg.draw(&mut frame, &mesh, &instances, &[]);
    cfg.draw(&mut frame, &mesh, &instances, &[]);
    let log = frame.draw_cmd_queue.get_mut();
    let shaders = log.iter().filter(|c| matches!(c, DrawCmd::SetShader { .. })).count();
    let materials = log.iter().filter(|c| matches!(c, DrawCmd::SetMaterial { .. })).count();
    let draws = log.iter().filter(|c| matches!(c, DrawCmd::DrawMesh(_))).count();
    assert_eq!(shaders, 1);
    assert_eq!(materials, 1);
    assert_eq!(draws, 2);
}

#[test]
fn changed_material_is_relogged() {
    let mut frame = GfxFrameData::new();
    let cfg_a = ShaderCfg { shader: 1, materials: vec![material(5)] };
    let cfg_b = ShaderCfg { shader: 1, materials: vec![material(6)] };
    let mesh = GPUMesh::range(0..3);
    let instances = GPUInstances::one();
    cfg_a.draw(&mut frame, &mesh, &instances, &[]);
    cfg_b.draw(&mut frame, &mesh, &instances, &[]);
    let log = frame.draw_cmd_queue.get_mut();
    let materials = log.iter().filter(|c| matches!(c, DrawCmd::SetMaterial { .. })).count();
    assert_eq!(materials, 2);
}

#[test]
fn push_constants_are_padded_to_the_budget() {
    let mut frame = GfxFrameData::new();
    let cfg = ShaderCfg { shader: 0, materials: vec![] };
    cfg.draw(&mut frame, &GPUMesh::range(0..3), &GPUInstances::one(), &[7, 8, 9]);
    let log = frame.draw_cmd_queue.get_mut();
    match log.iter().find(|c| matches!(c, DrawCmd::DrawMesh(_))) {
        Some(DrawCmd::DrawMesh(desc)) => {
            assert_eq!(desc.push.len(), 128);
            assert_eq!(&desc.push[..3], &[7, 8, 9]);
            assert!(desc.push[3..].iter().all(|b| *b == 0));
        },
        _ => panic!("expected a logged draw"),
    }
}

#[test]
fn replay_deduplicated_log_emits_single_binds() {
    // the log after a SetShader, a repeated material bind (dropped when it
    // was logged) and one draw: replay emits exactly one bind-pipeline,
    // one bind-descriptor-set and one draw call
    let mut frame = GfxFrameData::new();
    let mut c = GfxCtx::new();
    let canvas = c.window_canvas;
    c.set_canvas(&canvas, None);
    // move the logged SetCanvas over to the frame under test
    for cmd in c.frame_data.draw_cmd_queue.get_mut().drain(..) {
        frame.draw_cmd_queue.push(cmd);
    }
    let cfg = ShaderCfg { shader: 1, materials: vec![material(5)] };
    let mesh = GPUMesh::range(0..3);
    let instances = GPUInstances::one();
    cfg.draw(&mut frame, &mesh, &instances, &[]);
    cfg.draw(&mut frame, &mesh, &instances, &[]);

    let mut framebuffers = SparseVec::new();
    let meshes = SparseVec::new();
    let instances_tab = SparseVec::new();
    let log: Vec<DrawCmd> = frame.draw_cmd_queue.get_mut().drain(..).collect();
    let out = replay_draw_commands(
        &log,
        &mut framebuffers,
        &meshes,
        &instances_tab,
        Some(0),
        UVec2::new(640, 480),
    );
    let pipelines = out.iter().filter(|c| matches!(c, NativeCmd::BindPipeline { .. })).count();
    let desc_sets = out
        .iter()
        .filter(|c| matches!(c, NativeCmd::BindDescriptorSet { .. }))
        .count();
    let draws = out.iter().filter(|c| matches!(c, NativeCmd::Draw { .. })).count();
    assert_eq!(pipelines, 1);
    assert_eq!(desc_sets, 1);
    assert_eq!(draws, 2);
    // passes open and close exactly once around the draws
    assert_eq!(
        out.iter().filter(|c| matches!(c, NativeCmd::BeginRendering { .. })).count(),
        1
    );
    assert_eq!(out.iter().filter(|c| matches!(c, NativeCmd::EndRendering)).count(), 1);
}

#[test]
fn draws_without_swapchain_image_are_skipped() {
    let log = vec![
        DrawCmd::SetCanvas { id: CanvasID::Screen, clear_color: None },
        DrawCmd::SetShader { id: 0 },
    ];
    let mut framebuffers = SparseVec::new();
    let meshes = SparseVec::new();
    let instances_tab = SparseVec::new();
    let out = replay_draw_commands(
        &log,
        &mut framebuffers,
        &meshes,
        &instances_tab,
        None,
        UVec2::new(0, 0),
    );
    assert!(out.is_empty());
}

#[test]
fn resolved_draw_sources() {
    // a this-frame mesh range with plain instances resolves to a
    // non-indexed draw over exactly that range
    let log = vec![
        DrawCmd::SetCanvas { id: CanvasID::Screen, clear_color: None },
        DrawCmd::SetShader { id: 0 },
        DrawCmd::DrawMesh(isopod::draw::MeshDrawCmdDesc {
            mesh: MeshDraw::Range { start: 2, end: 7 },
            instances: InstancesDraw::Range { start: 0, end: 4 },
            push: vec![0; 128],
        }),
    ];
    let mut framebuffers = SparseVec::new();
    let meshes = SparseVec::new();
    let instances_tab = SparseVec::new();
    let out = replay_draw_commands(
        &log,
        &mut framebuffers,
        &meshes,
        &instances_tab,
        Some(0),
        UVec2::new(64, 64),
    );
    match out
        .iter()
        .find(|c| matches!(c, NativeCmd::Draw { .. }))
        .expect("expected a draw")
    {
        NativeCmd::Draw { first_vertex, n_vertices, first_instance, n_instances } => {
            assert_eq!(*first_vertex, 2);
            assert_eq!(*n_vertices, 5);
            assert_eq!(*first_instance, 0);
            assert_eq!(*n_instances, 4);
        },
        _ => unreachable!(),
    }
}
