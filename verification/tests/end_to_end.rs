//! End to end: registering a vertex type and a shader with one varying,
//! then drawing a 3-vertex non-indexed mesh with one instance, yields
//! exactly one logged shader bind, no material bind, and one draw over
//! vertex range 0..3 and instance range 0..1.

use isopod::attribute::{StructAttribute, StructLayout, VertexAttributeID};
use isopod::draw::DrawCmd;
use isopod::frame::BackendState;
use isopod::geom::UVec2;
use isopod::gfx::GfxCtx;
use isopod::mesh::{GPUInstances, MeshBytes, MeshDraw};
use isopod::replay::{replay_draw_commands, NativeCmd};
use isopod::shader::{ShaderDefinition, ShaderFullDefinition};

#[test]
fn one_triangle_frame() {
    let mut c = GfxCtx::new();
    c.start_update(UVec2::new(640, 480), true);

    // vertex type { position: vec3, color: vec3 }, no padding
    let vertex_layout = StructLayout::from_fields(
        vec![
            StructAttribute {
                attribute: VertexAttributeID::Vec3,
                offset: 0,
                name: String::from("position"),
            },
            StructAttribute {
                attribute: VertexAttributeID::Vec3,
                offset: 12,
                name: String::from("color"),
            },
        ],
        24,
    )
    .unwrap();

    // shader with one varying `vec3 vcolor`
    let code = String::from(
        "[varying]\nvec3 vcolor;\n[vertex]\nvoid main() {\n    vcolor = color;\n    gl_Position = vec4(position, 1.0);\n}\n[fragment]\nvoid main() {\n    out_color = vec4(vcolor, 1.0);\n}\n",
    );
    let def = ShaderFullDefinition::from_partial(
        vertex_layout,
        StructLayout::unit(),
        Vec::new(),
        StructLayout::unit(),
        ShaderDefinition { code, ..ShaderDefinition::default() },
    );
    let shader = c.register_shader(def);

    // a 3-vertex non-indexed mesh (three positions and colors, 24 bytes
    // per vertex)
    let mesh = c.register_mesh(MeshBytes::from_parts(vec![0u8; 72], 3, None));

    let canvas = c.window_canvas;
    c.set_canvas(&canvas, None);
    let cfg = c.shader_cfg(&shader, Vec::new());
    cfg.draw(&mut c.frame_data, &mesh, &GPUInstances::one(), &[]);

    // the log holds exactly one SetShader, zero SetMaterial, one DrawMesh
    let log: Vec<DrawCmd> = std::mem::take(c.frame_data.draw_cmd_queue.get_mut());
    let shaders = log.iter().filter(|e| matches!(e, DrawCmd::SetShader { .. })).count();
    let materials = log.iter().filter(|e| matches!(e, DrawCmd::SetMaterial { .. })).count();
    let draws: Vec<_> = log
        .iter()
        .filter(|e| matches!(e, DrawCmd::DrawMesh(_)))
        .collect();
    assert_eq!(shaders, 1);
    assert_eq!(materials, 0);
    assert_eq!(draws.len(), 1);
    match draws[0] {
        DrawCmd::DrawMesh(desc) => {
            assert!(matches!(desc.mesh, MeshDraw::Resource(_)));
            assert!(matches!(
                desc.instances,
                isopod::mesh::InstancesDraw::Range { start: 0, end: 1 }
            ));
        },
        _ => unreachable!(),
    }

    // realize the resources (compiling the shader through the real
    // compiler) and replay the log
    let mut b = BackendState::new();
    b.begin_frame();
    let updates = std::mem::take(c.frame_data.resource_update_queue.get_mut());
    let plan = b.drain_updates(updates).expect("the shader must compile");
    assert_eq!(plan.ops.len(), 2);

    let out = replay_draw_commands(
        &log,
        &mut b.framebuffers,
        &b.meshes,
        &b.instances,
        Some(0),
        UVec2::new(640, 480),
    );
    let draw = out
        .iter()
        .find(|e| matches!(e, NativeCmd::Draw { .. }))
        .expect("expected one non-indexed draw");
    match draw {
        NativeCmd::Draw { first_vertex, n_vertices, first_instance, n_instances } => {
            assert_eq!(*first_vertex, 0);
            assert_eq!(*n_vertices, 3);
            assert_eq!(*first_instance, 0);
            assert_eq!(*n_instances, 1);
        },
        _ => unreachable!(),
    }
    assert_eq!(
        out.iter().filter(|e| matches!(e, NativeCmd::BindPipeline { .. })).count(),
        1
    );
    b.end_frame();
}
