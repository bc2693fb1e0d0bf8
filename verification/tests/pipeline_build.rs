//! The pipeline factory end to end: section splitting, interface
//! emission, vertex-input state, and real compilation to the binary
//! shader form.

use isopod::attribute::{
    StructAttribute, StructLayout, UniformAttributeID, VertexAttributeID, N_TEXTURE_FORMATS,
};
use isopod::material::{MaterialAttributeID, MaterialAttributeIDInner};
use isopod::pipeline::{
    build_pipeline, split_sections, variant_formats, DescriptorType, ShaderError, WireFormat,
};
use isopod::shader::{MeshTopology, ShaderDefinition, ShaderFullDefinition};

fn field<T>(attribute: T, offset: usize, name: &str) -> StructAttribute<T> {
    StructAttribute { attribute, offset, name: String::from(name) }
}

fn triangle_def() -> ShaderFullDefinition {
    let vertex_layout = StructLayout::from_fields(
        vec![
            field(VertexAttributeID::Vec3, 0, "position"),
            field(VertexAttributeID::Vec3, 12, "color"),
        ],
        24,
    )
    .unwrap();
    let code = String::from(
        "[varying]\nvec3 vcolor;\n[vertex]\nvoid main() {\n    vcolor = color;\n    gl_Position = vec4(position, 1.0);\n}\n[fragment]\nvoid main() {\n    out_color = vec4(vcolor, 1.0);\n}\n",
    );
    ShaderFullDefinition::from_partial(
        vertex_layout,
        StructLayout::unit(),
        Vec::new(),
        StructLayout::unit(),
        ShaderDefinition { code, ..ShaderDefinition::default() },
    )
}

#[test]
fn sections_split_at_the_markers() {
    let (varying, vertex, fragment) =
        split_sections("[varying]vec3 v;[vertex]VS[fragment]FS").unwrap();
    assert_eq!(varying, "vec3 v;");
    assert_eq!(vertex, "VS");
    assert_eq!(fragment, "FS");
}

#[test]
fn missing_marker_is_rejected() {
    assert!(matches!(
        split_sections("[varying]x[vertex]y"),
        Err(ShaderError::MissingSections)
    ));
    assert!(matches!(
        split_sections("no markers at all"),
        Err(ShaderError::MissingSections)
    ));
    // markers out of order
    assert!(matches!(
        split_sections("[fragment]a[vertex]b[varying]c"),
        Err(ShaderError::MissingSections)
    ));
}

#[test]
fn triangle_shader_compiles_to_binary_form() {
    let compiled = build_pipeline(&triangle_def()).expect("the shader must compile");
    // both stages carry the binary magic word
    assert_eq!(compiled.vs_spirv[0], 0x0723_0203);
    assert_eq!(compiled.fs_spirv[0], 0x0723_0203);
    // the assembled vertex source declares the inputs at sequential
    // locations and the varying output
    assert!(compiled.vs_code.contains("#version 450"));
    assert!(compiled.vs_code.contains("layout(location = 0) in vec3 position;"));
    assert!(compiled.vs_code.contains("layout(location = 1) in vec3 color;"));
    assert!(compiled.vs_code.contains("layout(location = 0) out vec3 vcolor;"));
    assert!(compiled.fs_code.contains("layout(location = 0) in vec3 vcolor;"));
    assert!(compiled.fs_code.contains("layout(location = 0) out vec4 out_color;"));
    // one binding for the vertex layout, nothing for the empty instance
    // layout
    assert_eq!(compiled.vertex_input.bindings.len(), 1);
    assert_eq!(compiled.vertex_input.bindings[0].stride, 24);
    assert!(!compiled.vertex_input.bindings[0].per_instance);
    assert_eq!(compiled.vertex_input.attributes.len(), 2);
    assert_eq!(compiled.vertex_input.attributes[0].location, 0);
    assert_eq!(compiled.vertex_input.attributes[0].offset, 0);
    assert_eq!(compiled.vertex_input.attributes[0].format, WireFormat::R32G32B32Sfloat);
    assert_eq!(compiled.vertex_input.attributes[1].location, 1);
    assert_eq!(compiled.vertex_input.attributes[1].offset, 12);
    // one variant per texel format plus the swapchain's own format
    assert_eq!(compiled.n_variants, N_TEXTURE_FORMATS + 1);
}

#[test]
fn invalid_stage_source_surfaces_the_diagnostic() {
    let mut def = triangle_def();
    def.partial.code = String::from(
        "[varying]\n[vertex]\nthis is not a shader\n[fragment]\nvoid main() { out_color = vec4(1.0); }\n",
    );
    match build_pipeline(&def) {
        Err(ShaderError::Compile { vertex_stage, message }) => {
            assert!(vertex_stage);
            assert!(!message.is_empty());
        },
        _ => panic!("expected a vertex-stage compile error"),
    }
}

#[test]
fn material_block_and_push_constants_are_emitted() {
    let uniform_layout = StructLayout::from_fields(
        vec![field(UniformAttributeID::Vec4, 0, "tint")],
        16,
    )
    .unwrap();
    let material_layout = StructLayout {
        attributes: vec![
            field(
                MaterialAttributeID { inner: MaterialAttributeIDInner::Texture2D },
                0,
                "tex",
            ),
            field(
                MaterialAttributeID { inner: MaterialAttributeIDInner::Sampler },
                1,
                "smp",
            ),
            field(
                MaterialAttributeID {
                    inner: MaterialAttributeIDInner::Uniform(uniform_layout),
                },
                2,
                "settings",
            ),
        ],
        size: 3,
    };
    let push_layout =
        StructLayout::from_fields(vec![field(UniformAttributeID::Mat4, 0, "transform")], 64)
            .unwrap();
    let code = String::from(
        "[varying]\nvec2 uv;\n[vertex]\nvoid main() {\n    uv = vec2(0.0);\n    gl_Position = push.transform * vec4(0.0, 0.0, 0.0, 1.0);\n}\n[fragment]\nvoid main() {\n    out_color = texture(sampler2D(tex, smp), uv) * settings.tint;\n}\n",
    );
    let def = ShaderFullDefinition {
        vertex_layout: StructLayout::unit(),
        instance_layout: StructLayout::unit(),
        push_constant_layout: push_layout,
        material_layouts: vec![material_layout],
        partial: ShaderDefinition {
            code,
            topology: MeshTopology::Triangles,
            cull_backfaces: false,
            primitive_restart: false,
            depth_test: false,
            depth_write: false,
            depth_always: false,
            color_blend: None,
        },
    };
    let compiled = build_pipeline(&def).expect("the shader must compile");
    assert!(compiled
        .vs_code
        .contains("layout(set = 0, binding = 0) uniform texture2D tex;"));
    assert!(compiled.vs_code.contains("layout(set = 0, binding = 1) uniform sampler smp;"));
    assert!(compiled.vs_code.contains("layout(set = 0, binding = 2) uniform _I_1 {"));
    assert!(compiled.vs_code.contains("vec4 tint;"));
    assert!(compiled.vs_code.contains("layout(push_constant) uniform _I_2 {"));
    assert!(compiled.vs_code.contains("mat4 transform;"));
    assert_eq!(compiled.material_bindings.len(), 1);
    let bindings = &compiled.material_bindings[0];
    assert_eq!(bindings.len(), 3);
    assert_eq!(bindings[0].descriptor_type, DescriptorType::SampledImage);
    assert_eq!(bindings[1].descriptor_type, DescriptorType::Sampler);
    assert_eq!(bindings[2].descriptor_type, DescriptorType::UniformBuffer);
    assert_eq!(bindings[2].binding, 2);
}

#[test]
fn variant_format_list() {
    let formats = variant_formats();
    assert_eq!(formats.len(), N_TEXTURE_FORMATS + 1);
    assert!(formats[N_TEXTURE_FORMATS].is_none());
    for k in 0..N_TEXTURE_FORMATS {
        assert_eq!(formats[k].unwrap().to_index(), k);
    }
}

#[test]
fn fixed_function_state_is_carried_through() {
    let mut def = triangle_def();
    def.partial.cull_backfaces = true;
    def.partial.depth_test = true;
    def.partial.depth_write = true;
    def.partial.depth_always = true;
    def.partial.color_blend = Some(isopod::shader::ColorBlend::Alpha);
    let compiled = build_pipeline(&def).expect("the shader must compile");
    assert!(compiled.fixed.cull_backfaces);
    assert!(compiled.fixed.depth_test);
    assert!(compiled.fixed.depth_write);
    assert!(compiled.fixed.depth_always);
    assert_eq!(compiled.fixed.color_blend, Some(isopod::shader::ColorBlend::Alpha));
    assert_eq!(compiled.fixed.topology, MeshTopology::Triangles);
    assert!(!compiled.fixed.primitive_restart);
}
