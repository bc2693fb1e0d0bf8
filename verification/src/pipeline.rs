//! The pipeline factory: compiles a logical shader definition into shader
//! source text, vertex-input and descriptor-set-layout descriptions, and
//! the native binary shader form, with one pipeline variant per supported
//! color-attachment format.

use vstd::prelude::*;

use crate::attribute::{
    StructAttribute, StructLayout, UniformAttributeID, VertexAttributeID, N_TEXTURE_FORMATS,
};
use crate::glsl::{spec_udec, usize_dec};
use crate::material::{MaterialAttributeID, MaterialAttributeIDInner};

verus! {

/// Wire format of one vertex attribute, as the native API names it.
#[derive(Clone, Copy, PartialEq, Eq, Structural, Debug)]
pub enum WireFormat {
    R32Sfloat,
    R32G32Sfloat,
    R32G32B32Sfloat,
    R32G32B32A32Sfloat,
    R8Uint,
    R8G8Uint,
    R8G8B8A8Uint,
    R8Unorm,
    R8G8Unorm,
    R8G8B8A8Unorm,
    R16Uint,
    R16G16Uint,
    R16G16B16A16Uint,
    R16Unorm,
    R16G16Unorm,
    R16G16B16A16Unorm,
    R32Uint,
    R32G32Uint,
    R32G32B32A32Uint,
}

/// Descriptor kind of one material binding.
#[derive(Clone, Copy, PartialEq, Eq, Structural, Debug)]
pub enum DescriptorType {
    SampledImage,
    Sampler,
    UniformBuffer,
}

/// One vertex-input binding: a buffer slot with its stride and step rate.
#[derive(Clone, Copy, PartialEq, Eq, Structural, Debug)]
pub struct VertexInputBinding {
    pub binding: usize,
    pub stride: usize,
    pub per_instance: bool,
}

/// One vertex-input attribute: where in which binding a shader location
/// reads, and how the bytes are interpreted.
#[derive(Clone, Copy, PartialEq, Eq, Structural, Debug)]
pub struct VertexInputAttribute {
    pub location: usize,
    pub binding: usize,
    pub offset: usize,
    pub format: WireFormat,
}

/// One descriptor-set-layout binding entry.
#[derive(Clone, Copy, PartialEq, Eq, Structural, Debug)]
pub struct DescriptorSetLayoutBinding {
    pub binding: usize,
    pub descriptor_type: DescriptorType,
}

/// The vertex-input state accumulated over the vertex and instance layouts.
pub struct VertexInputDesc {
    pub bindings: Vec<VertexInputBinding>,
    pub attributes: Vec<VertexInputAttribute>,
}

/// The fixed attribute-kind to wire-format table; declared padding carries
/// no wire data.
pub open spec fn spec_wire_format(a: VertexAttributeID) -> Option<WireFormat> {
    match a {
        VertexAttributeID::Padding => None,
        VertexAttributeID::F32 => Some(WireFormat::R32Sfloat),
        VertexAttributeID::Vec2 => Some(WireFormat::R32G32Sfloat),
        VertexAttributeID::Vec3 => Some(WireFormat::R32G32B32Sfloat),
        VertexAttributeID::Vec4 => Some(WireFormat::R32G32B32A32Sfloat),
        VertexAttributeID::U8 => Some(WireFormat::R8Uint),
        VertexAttributeID::U8Vec2 => Some(WireFormat::R8G8Uint),
        VertexAttributeID::U8Vec4 => Some(WireFormat::R8G8B8A8Uint),
        VertexAttributeID::U8UNorm => Some(WireFormat::R8Unorm),
        VertexAttributeID::U8Vec2UNorm => Some(WireFormat::R8G8Unorm),
        VertexAttributeID::U8Vec4UNorm => Some(WireFormat::R8G8B8A8Unorm),
        VertexAttributeID::U16 => Some(WireFormat::R16Uint),
        VertexAttributeID::U16Vec2 => Some(WireFormat::R16G16Uint),
        VertexAttributeID::U16Vec4 => Some(WireFormat::R16G16B16A16Uint),
        VertexAttributeID::U16UNorm => Some(WireFormat::R16Unorm),
        VertexAttributeID::U16Vec2UNorm => Some(WireFormat::R16G16Unorm),
        VertexAttributeID::U16Vec4UNorm => Some(WireFormat::R16G16B16A16Unorm),
        VertexAttributeID::U32 => Some(WireFormat::R32Uint),
        VertexAttributeID::U32Vec2 => Some(WireFormat::R32G32Uint),
        VertexAttributeID::U32Vec4 => Some(WireFormat::R32G32B32A32Uint),
    }
}

/// The shader-source type name of a vertex attribute kind; normalized kinds
/// arrive in the shader as floats.
pub open spec fn spec_vertex_type_name(a: VertexAttributeID) -> Seq<char> {
    match a {
        VertexAttributeID::Padding => Seq::empty(),
        VertexAttributeID::F32 => "float"@,
        VertexAttributeID::Vec2 => "vec2"@,
        VertexAttributeID::Vec3 => "vec3"@,
        VertexAttributeID::Vec4 => "vec4"@,
        VertexAttributeID::U8 => "uint"@,
        VertexAttributeID::U8Vec2 => "uvec2"@,
        VertexAttributeID::U8Vec4 => "uvec4"@,
        VertexAttributeID::U8UNorm => "float"@,
        VertexAttributeID::U8Vec2UNorm => "vec2"@,
        VertexAttributeID::U8Vec4UNorm => "vec4"@,
        VertexAttributeID::U16 => "uint"@,
        VertexAttributeID::U16Vec2 => "uvec2"@,
        VertexAttributeID::U16Vec4 => "uvec4"@,
        VertexAttributeID::U16UNorm => "float"@,
        VertexAttributeID::U16Vec2UNorm => "vec2"@,
        VertexAttributeID::U16Vec4UNorm => "vec4"@,
        VertexAttributeID::U32 => "uint"@,
        VertexAttributeID::U32Vec2 => "uvec2"@,
        VertexAttributeID::U32Vec4 => "uvec4"@,
    }
}

/// Wire format and shader type name of one vertex attribute kind, `None`
/// for declared padding.
fn vertex_wire_format(a: VertexAttributeID) -> (r: Option<(WireFormat, &'static str)>)
    ensures
        r is Some <==> spec_wire_format(a) is Some,
        r matches Some((f, ty)) ==> Some(f) == spec_wire_format(a) && ty@ == spec_vertex_type_name(
            a,
        ),
{
    match a {
        VertexAttributeID::Padding => None,
        VertexAttributeID::F32 => Some((WireFormat::R32Sfloat, "float")),
        VertexAttributeID::Vec2 => Some((WireFormat::R32G32Sfloat, "vec2")),
        VertexAttributeID::Vec3 => Some((WireFormat::R32G32B32Sfloat, "vec3")),
        VertexAttributeID::Vec4 => Some((WireFormat::R32G32B32A32Sfloat, "vec4")),
        VertexAttributeID::U8 => Some((WireFormat::R8Uint, "uint")),
        VertexAttributeID::U8Vec2 => Some((WireFormat::R8G8Uint, "uvec2")),
        VertexAttributeID::U8Vec4 => Some((WireFormat::R8G8B8A8Uint, "uvec4")),
        VertexAttributeID::U8UNorm => Some((WireFormat::R8Unorm, "float")),
        VertexAttributeID::U8Vec2UNorm => Some((WireFormat::R8G8Unorm, "vec2")),
        VertexAttributeID::U8Vec4UNorm => Some((WireFormat::R8G8B8A8Unorm, "vec4")),
        VertexAttributeID::U16 => Some((WireFormat::R16Uint, "uint")),
        VertexAttributeID::U16Vec2 => Some((WireFormat::R16G16Uint, "uvec2")),
        VertexAttributeID::U16Vec4 => Some((WireFormat::R16G16B16A16Uint, "uvec4")),
        VertexAttributeID::U16UNorm => Some((WireFormat::R16Unorm, "float")),
        VertexAttributeID::U16Vec2UNorm => Some((WireFormat::R16G16Unorm, "vec2")),
        VertexAttributeID::U16Vec4UNorm => Some((WireFormat::R16G16B16A16Unorm, "vec4")),
        VertexAttributeID::U32 => Some((WireFormat::R32Uint, "uint")),
        VertexAttributeID::U32Vec2 => Some((WireFormat::R32G32Uint, "uvec2")),
        VertexAttributeID::U32Vec4 => Some((WireFormat::R32G32B32A32Uint, "uvec4")),
    }
}

/// One vertex-input declaration line of the shader source.
pub open spec fn spec_attr_line(loc: nat, ty: Seq<char>, name: Seq<char>) -> Seq<char> {
    "\nlayout(location = "@ + spec_udec(loc) + ") in "@ + ty + " "@ + name + ";"@
}

/// The vertex-input declaration lines for the fields from `i` onward, with
/// locations counting up from `loc` over the fields that carry wire data.
pub open spec fn spec_vertex_decls_from(
    attrs: Seq<StructAttribute<VertexAttributeID>>,
    i: int,
    loc: nat,
) -> Seq<char>
    decreases attrs.len() - i,
{
    if i < 0 || i >= attrs.len() {
        Seq::empty()
    } else if spec_wire_format(attrs[i].attribute) is None {
        spec_vertex_decls_from(attrs, i + 1, loc)
    } else {
        spec_attr_line(loc, spec_vertex_type_name(attrs[i].attribute), attrs[i].name@)
            + spec_vertex_decls_from(attrs, i + 1, loc + 1)
    }
}

/// The vertex-input attribute entries for the fields from `i` onward.
pub open spec fn spec_input_attrs_from(
    attrs: Seq<StructAttribute<VertexAttributeID>>,
    i: int,
    loc: nat,
    binding: nat,
) -> Seq<VertexInputAttribute>
    decreases attrs.len() - i,
{
    if i < 0 || i >= attrs.len() {
        Seq::empty()
    } else {
        match spec_wire_format(attrs[i].attribute) {
            None => spec_input_attrs_from(attrs, i + 1, loc, binding),
            Some(f) => seq![
                VertexInputAttribute {
                    location: loc as usize,
                    binding: binding as usize,
                    offset: attrs[i].offset,
                    format: f,
                },
            ] + spec_input_attrs_from(attrs, i + 1, loc + 1, binding),
        }
    }
}

/// Appends one nonempty layout's vertex-input binding, its attribute
/// entries, and its shader source declarations; locations continue from the
/// attribute entries already accumulated.  An empty layout contributes
/// nothing.
pub fn add_vertex_layout_data(
    desc: &mut VertexInputDesc,
    code: &mut String,
    layout: &StructLayout<VertexAttributeID>,
    per_instance: bool,
)
    requires
        old(desc).bindings@.len() < usize::MAX,
        old(desc).attributes@.len() + layout.attributes@.len() < usize::MAX,
    ensures
        (layout.size == 0 || layout.attributes@.len() == 0) ==> final(desc).bindings@ == old(
            desc,
        ).bindings@ && final(desc).attributes@ == old(desc).attributes@ && final(code)@ == old(
            code,
        )@,
        !(layout.size == 0 || layout.attributes@.len() == 0) ==> final(desc).bindings@ == old(
            desc,
        ).bindings@.push(
            VertexInputBinding {
                binding: old(desc).bindings@.len() as usize,
                stride: layout.size,
                per_instance,
            },
        ) && final(desc).attributes@ == old(desc).attributes@ + spec_input_attrs_from(
            layout.attributes@,
            0,
            old(desc).attributes@.len() as nat,
            old(desc).bindings@.len() as nat,
        ) && final(code)@ == old(code)@ + spec_vertex_decls_from(
            layout.attributes@,
            0,
            old(desc).attributes@.len() as nat,
        ),
{
    if layout.is_empty() {
        return ;
    }
    let binding = desc.bindings.len();
    desc.bindings.push(
        VertexInputBinding { binding, stride: layout.size, per_instance },
    );
    let n = layout.attributes.len();
    let mut i: usize = 0;
    while i < n
        invariant
            i <= n,
            n == layout.attributes@.len(),
            binding == old(desc).bindings@.len(),
            desc.bindings@ == old(desc).bindings@.push(
                VertexInputBinding { binding, stride: layout.size, per_instance },
            ),
            old(desc).attributes@.len() <= desc.attributes@.len() <= old(
                desc,
            ).attributes@.len() + i,
            old(desc).attributes@ + spec_input_attrs_from(
                layout.attributes@,
                0,
                old(desc).attributes@.len() as nat,
                binding as nat,
            ) == desc.attributes@ + spec_input_attrs_from(
                layout.attributes@,
                i as int,
                desc.attributes@.len() as nat,
                binding as nat,
            ),
            old(code)@ + spec_vertex_decls_from(
                layout.attributes@,
                0,
                old(desc).attributes@.len() as nat,
            ) == code@ + spec_vertex_decls_from(
                layout.attributes@,
                i as int,
                desc.attributes@.len() as nat,
            ),
        decreases n - i,
    {
        let attr = &layout.attributes[i];
        let ghost loc_g = desc.attributes@.len() as nat;
        match vertex_wire_format(attr.attribute) {
            None => {},
            Some((format, ty_text)) => {
                let location = desc.attributes.len();
                desc.attributes.push(
                    VertexInputAttribute { location, binding, offset: attr.offset, format },
                );
                code.append("\nlayout(location = ");
                let loc_text = usize_dec(location);
                code.append(loc_text.as_str());
                code.append(") in ");
                code.append(ty_text);
                code.append(" ");
                code.append(attr.name.as_str());
                code.append(";");
                proof {
                    assert(spec_input_attrs_from(
                        layout.attributes@,
                        i as int,
                        loc_g,
                        binding as nat,
                    ) =~= seq![
                        VertexInputAttribute {
                            location: location,
                            binding: binding,
                            offset: layout.attributes@[i as int].offset,
                            format,
                        },
                    ] + spec_input_attrs_from(
                        layout.attributes@,
                        i + 1,
                        loc_g + 1,
                        binding as nat,
                    ));
                    assert(old(desc).attributes@ + spec_input_attrs_from(
                        layout.attributes@,
                        0,
                        old(desc).attributes@.len() as nat,
                        binding as nat,
                    ) =~= desc.attributes@ + spec_input_attrs_from(
                        layout.attributes@,
                        i + 1,
                        desc.attributes@.len() as nat,
                        binding as nat,
                    ));
                    assert(spec_vertex_decls_from(layout.attributes@, i as int, loc_g)
                        == spec_attr_line(
                        loc_g,
                        spec_vertex_type_name(layout.attributes@[i as int].attribute),
                        layout.attributes@[i as int].name@,
                    ) + spec_vertex_decls_from(layout.attributes@, i + 1, loc_g + 1));
                    assert(old(code)@ + spec_vertex_decls_from(
                        layout.attributes@,
                        0,
                        old(desc).attributes@.len() as nat,
                    ) =~= code@ + spec_vertex_decls_from(
                        layout.attributes@,
                        i + 1,
                        desc.attributes@.len() as nat,
                    ));
                }
            },
        }
        i = i + 1;
    }
}

} // verus!

verus! {

/// The shader-source type name of a uniform block member kind.
pub open spec fn spec_uniform_type_name(a: UniformAttributeID) -> Seq<char> {
    match a {
        UniformAttributeID::Padding => Seq::empty(),
        UniformAttributeID::F32 => "float"@,
        UniformAttributeID::Vec2 => "vec2"@,
        UniformAttributeID::Vec3 => "vec3"@,
        UniformAttributeID::Vec4 => "vec4"@,
        UniformAttributeID::I32 => "int"@,
        UniformAttributeID::IVec2 => "ivec2"@,
        UniformAttributeID::IVec3 => "ivec3"@,
        UniformAttributeID::IVec4 => "ivec4"@,
        UniformAttributeID::U32 => "uint"@,
        UniformAttributeID::UVec2 => "uvec2"@,
        UniformAttributeID::UVec3 => "uvec3"@,
        UniformAttributeID::UVec4 => "uvec4"@,
        UniformAttributeID::Mat2 => "mat2"@,
        UniformAttributeID::Mat3 => "mat3"@,
        UniformAttributeID::Mat4 => "mat4"@,
    }
}

/// Shader type name of a uniform member kind, `None` for declared padding,
/// which emits no member.
fn uniform_type_text(a: UniformAttributeID) -> (r: Option<&'static str>)
    ensures
        r is Some <==> a != UniformAttributeID::Padding,
        r matches Some(ty) ==> ty@ == spec_uniform_type_name(a),
{
    match a {
        UniformAttributeID::Padding => None,
        UniformAttributeID::F32 => Some("float"),
        UniformAttributeID::Vec2 => Some("vec2"),
        UniformAttributeID::Vec3 => Some("vec3"),
        UniformAttributeID::Vec4 => Some("vec4"),
        UniformAttributeID::I32 => Some("int"),
        UniformAttributeID::IVec2 => Some("ivec2"),
        UniformAttributeID::IVec3 => Some("ivec3"),
        UniformAttributeID::IVec4 => Some("ivec4"),
        UniformAttributeID::U32 => Some("uint"),
        UniformAttributeID::UVec2 => Some("uvec2"),
        UniformAttributeID::UVec3 => Some("uvec3"),
        UniformAttributeID::UVec4 => Some("uvec4"),
        UniformAttributeID::Mat2 => Some("mat2"),
        UniformAttributeID::Mat3 => Some("mat3"),
        UniformAttributeID::Mat4 => Some("mat4"),
    }
}

/// The member lines of a uniform block for the fields from `i` onward;
/// declared padding emits no member.
pub open spec fn spec_uniform_members_from(
    attrs: Seq<StructAttribute<UniformAttributeID>>,
    i: int,
) -> Seq<char>
    decreases attrs.len() - i,
{
    if i < 0 || i >= attrs.len() {
        Seq::empty()
    } else if attrs[i].attribute == UniformAttributeID::Padding {
        spec_uniform_members_from(attrs, i + 1)
    } else {
        "\n"@ + spec_uniform_type_name(attrs[i].attribute) + " "@ + attrs[i].name@ + ";"@
            + spec_uniform_members_from(attrs, i + 1)
    }
}

/// A whole uniform interface block: prefix, a fresh block name numbered
/// `n`, the member lines, and the instance name.
pub open spec fn spec_uniform_block(
    prefix: Seq<char>,
    n: nat,
    attrs: Seq<StructAttribute<UniformAttributeID>>,
    postfix: Seq<char>,
) -> Seq<char> {
    "\n"@ + prefix + " _I_"@ + spec_udec(n) + " {"@ + spec_uniform_members_from(attrs, 0) + "\n} "@
        + postfix + ";"@
}

/// Appends one uniform interface block to the shader source, numbering its
/// block name with the next free interface-struct index.
pub fn add_uniform_layout_data(
    code: &mut String,
    n_structs: &mut usize,
    prefix: &str,
    postfix: &str,
    layout: &StructLayout<UniformAttributeID>,
)
    requires
        *old(n_structs) < usize::MAX,
    ensures
        *final(n_structs) == *old(n_structs) + 1,
        final(code)@ == old(code)@ + spec_uniform_block(
            prefix@,
            (*old(n_structs) + 1) as nat,
            layout.attributes@,
            postfix@,
        ),
{
    *n_structs = *n_structs + 1;
    let mut block = String::new();
    block.append("\n");
    block.append(prefix);
    block.append(" _I_");
    let n_text = usize_dec(*n_structs);
    block.append(n_text.as_str());
    block.append(" {");
    let ghost header = block@;
    let n = layout.attributes.len();
    let mut i: usize = 0;
    while i < n
        invariant
            i <= n,
            n == layout.attributes@.len(),
            header + spec_uniform_members_from(layout.attributes@, 0) == block@
                + spec_uniform_members_from(layout.attributes@, i as int),
        decreases n - i,
    {
        let attr = &layout.attributes[i];
        match uniform_type_text(attr.attribute) {
            None => {},
            Some(ty_text) => {
                block.append("\n");
                block.append(ty_text);
                block.append(" ");
                block.append(attr.name.as_str());
                block.append(";");
                proof {
                    assert(header + spec_uniform_members_from(layout.attributes@, 0) =~= block@
                        + spec_uniform_members_from(layout.attributes@, i + 1));
                }
            },
        }
        i = i + 1;
    }
    block.append("\n} ");
    block.append(postfix);
    block.append(";");
    code.append(block.as_str());
    proof {
        assert(final(code)@ =~= old(code)@ + spec_uniform_block(
            prefix@,
            (*old(n_structs) + 1) as nat,
            layout.attributes@,
            postfix@,
        ));
    }
}

/// Descriptor kind of one material binding.
pub open spec fn spec_desc_type(a: MaterialAttributeID) -> DescriptorType {
    match a.inner {
        MaterialAttributeIDInner::Texture2D => DescriptorType::SampledImage,
        MaterialAttributeIDInner::Sampler => DescriptorType::Sampler,
        MaterialAttributeIDInner::Uniform(_) => DescriptorType::UniformBuffer,
    }
}

/// The interface prefix naming one (set, binding) pair.
pub open spec fn spec_set_binding_prefix(set: nat, binding: nat) -> Seq<char> {
    "layout(set = "@ + spec_udec(set) + ", binding = "@ + spec_udec(binding) + ") uniform"@
}

/// The shader-source declarations of one material slot's bindings from
/// position `i` onward, with `n` interface structs already emitted; returns
/// the text and the new interface-struct count.
pub open spec fn spec_material_decls_from(
    attrs: Seq<StructAttribute<MaterialAttributeID>>,
    i: int,
    set: nat,
    n: nat,
) -> (Seq<char>, nat)
    decreases attrs.len() - i,
{
    if i < 0 || i >= attrs.len() {
        (Seq::empty(), n)
    } else {
        match attrs[i].attribute.inner {
            MaterialAttributeIDInner::Texture2D => {
                let rest = spec_material_decls_from(attrs, i + 1, set, n);
                (
                    spec_set_binding_prefix(set, i as nat) + " texture2D "@ + attrs[i].name@ + ";"@
                        + rest.0,
                    rest.1,
                )
            },
            MaterialAttributeIDInner::Sampler => {
                let rest = spec_material_decls_from(attrs, i + 1, set, n);
                (
                    spec_set_binding_prefix(set, i as nat) + " sampler "@ + attrs[i].name@ + ";"@
                        + rest.0,
                    rest.1,
                )
            },
            MaterialAttributeIDInner::Uniform(inner) => {
                let rest = spec_material_decls_from(attrs, i + 1, set, n + 1);
                (
                    spec_uniform_block(
                        spec_set_binding_prefix(set, i as nat),
                        n + 1,
                        inner.attributes@,
                        attrs[i].name@,
                    ) + rest.0,
                    rest.1,
                )
            },
        }
    }
}

/// The descriptor-set-layout entries of one material slot: one entry per
/// binding, with the descriptor kind matching the attribute.
pub open spec fn spec_material_bindings(attrs: Seq<StructAttribute<MaterialAttributeID>>) -> Seq<
    DescriptorSetLayoutBinding,
> {
    Seq::new(
        attrs.len(),
        |k: int| DescriptorSetLayoutBinding {
            binding: k as usize,
            descriptor_type: spec_desc_type(attrs[k].attribute),
        },
    )
}

/// Emits one material slot: appends the interface declaration of each
/// binding to the shared header (texture, sampler, or a uniform block), and
/// returns the slot's descriptor-set-layout entries.
pub fn process_material_slot(
    shared: &mut String,
    n_structs: &mut usize,
    set: usize,
    layout: &StructLayout<MaterialAttributeID>,
) -> (bindings: Vec<DescriptorSetLayoutBinding>)
    requires
        *old(n_structs) + layout.attributes@.len() <= usize::MAX,
    ensures
        final(shared)@ == old(shared)@ + spec_material_decls_from(
            layout.attributes@,
            0,
            set as nat,
            *old(n_structs) as nat,
        ).0,
        *final(n_structs) == spec_material_decls_from(
            layout.attributes@,
            0,
            set as nat,
            *old(n_structs) as nat,
        ).1,
        bindings@ == spec_material_bindings(layout.attributes@),
{
    let set_text = usize_dec(set);
    let mut bindings: Vec<DescriptorSetLayoutBinding> = Vec::new();
    let n = layout.attributes.len();
    let mut i: usize = 0;
    while i < n
        invariant
            i <= n,
            n == layout.attributes@.len(),
            set_text@ == spec_udec(set as nat),
            *old(n_structs) + n <= usize::MAX,
            *old(n_structs) <= *n_structs,
            *n_structs <= *old(n_structs) + i,
            old(shared)@ + spec_material_decls_from(
                layout.attributes@,
                0,
                set as nat,
                *old(n_structs) as nat,
            ).0 == shared@ + spec_material_decls_from(
                layout.attributes@,
                i as int,
                set as nat,
                *n_structs as nat,
            ).0,
            spec_material_decls_from(
                layout.attributes@,
                0,
                set as nat,
                *old(n_structs) as nat,
            ).1 == spec_material_decls_from(
                layout.attributes@,
                i as int,
                set as nat,
                *n_structs as nat,
            ).1,
            bindings@ =~= spec_material_bindings(layout.attributes@).take(i as int),
        decreases n - i,
    {
        let attr = &layout.attributes[i];
        let binding_text = usize_dec(i);
        let mut prefix = String::new();
        prefix.append("layout(set = ");
        prefix.append(set_text.as_str());
        prefix.append(", binding = ");
        prefix.append(binding_text.as_str());
        prefix.append(") uniform");
        proof {
            assert(prefix@ =~= spec_set_binding_prefix(set as nat, i as nat));
        }
        match &attr.attribute.inner {
            MaterialAttributeIDInner::Texture2D => {
                shared.append(prefix.as_str());
                shared.append(" texture2D ");
                shared.append(attr.name.as_str());
                shared.append(";");
                bindings.push(
                    DescriptorSetLayoutBinding {
                        binding: i,
                        descriptor_type: DescriptorType::SampledImage,
                    },
                );
                proof {
                    assert(old(shared)@ + spec_material_decls_from(
                        layout.attributes@,
                        0,
                        set as nat,
                        *old(n_structs) as nat,
                    ).0 =~= shared@ + spec_material_decls_from(
                        layout.attributes@,
                        i + 1,
                        set as nat,
                        *n_structs as nat,
                    ).0);
                }
            },
            MaterialAttributeIDInner::Sampler => {
                shared.append(prefix.as_str());
                shared.append(" sampler ");
                shared.append(attr.name.as_str());
                shared.append(";");
                bindings.push(
                    DescriptorSetLayoutBinding {
                        binding: i,
                        descriptor_type: DescriptorType::Sampler,
                    },
                );
                proof {
                    assert(old(shared)@ + spec_material_decls_from(
                        layout.attributes@,
                        0,
                        set as nat,
                        *old(n_structs) as nat,
                    ).0 =~= shared@ + spec_material_decls_from(
                        layout.attributes@,
                        i + 1,
                        set as nat,
                        *n_structs as nat,
                    ).0);
                }
            },
            MaterialAttributeIDInner::Uniform(inner_layout) => {
                add_uniform_layout_data(
                    shared,
                    n_structs,
                    prefix.as_str(),
                    attr.name.as_str(),
                    inner_layout,
                );
                bindings.push(
                    DescriptorSetLayoutBinding {
                        binding: i,
                        descriptor_type: DescriptorType::UniformBuffer,
                    },
                );
                proof {
                    assert(old(shared)@ + spec_material_decls_from(
                        layout.attributes@,
                        0,
                        set as nat,
                        *old(n_structs) as nat,
                    ).0 =~= shared@ + spec_material_decls_from(
                        layout.attributes@,
                        i + 1,
                        set as nat,
                        *n_structs as nat,
                    ).0);
                }
            },
        }
        i = i + 1;
        proof {
            assert(bindings@ =~= spec_material_bindings(layout.attributes@).take(i as int));
        }
    }
    proof {
        assert(spec_material_bindings(layout.attributes@).take(n as int) =~= spec_material_bindings(
            layout.attributes@,
        ));
    }
    bindings
}

} // verus!

use crate::attribute::TextureFormatID;
use crate::glsl::{find_from, is_space, occurs_at, spec_find_from};
use crate::shader::ShaderFullDefinition;
use vstd::seq_lib::*;

verus! {

/// A found occurrence lies at or after the start of the search and fits
/// inside the text.
pub proof fn lemma_find_from_props(s: Seq<char>, pat: Seq<char>, from: int)
    requires
        spec_find_from(s, pat, from) is Some,
    ensures
        spec_find_from(s, pat, from).unwrap() >= from,
        spec_find_from(s, pat, from).unwrap() + pat.len() <= s.len(),
        occurs_at(s, pat, spec_find_from(s, pat, from).unwrap()),
    decreases s.len() - from,
{
    if !(from < 0 || from + pat.len() > s.len()) {
        if pat.len() == 0 {
            assert(s.subrange(from, from) =~= pat);
        } else if !occurs_at(s, pat, from) {
            lemma_find_from_props(s, pat, from + 1);
        }
    }
}

/// Position of the first non-whitespace character in `s` at or after `i`,
/// looking no further than `end`.
pub open spec fn spec_skip_in(s: Seq<char>, i: int, end: int) -> int
    decreases end - i,
{
    if i < end && 0 <= i < s.len() && is_space(s[i]) {
        spec_skip_in(s, i + 1, end)
    } else {
        i
    }
}

/// Finds the first non-whitespace character in `[from, end)`.
fn skip_in(s: &str, s_len: usize, from: usize, end: usize) -> (r: usize)
    requires
        s_len == s@.len(),
        from <= end <= s_len,
    ensures
        r == spec_skip_in(s@, from as int, end as int),
        from <= r <= end,
{
    let mut i: usize = from;
    while i < end
        invariant
            from <= i <= end <= s_len,
            s_len == s@.len(),
            spec_skip_in(s@, from as int, end as int) == spec_skip_in(s@, i as int, end as int),
        decreases end - i,
    {
        let c = s.get_char(i);
        if c != ' ' && c != '\t' && c != '\n' && c != '\r' {
            return i;
        }
        i = i + 1;
    }
    i
}

/// The varying interface lines emitted for the `;`-separated declarations
/// of `s` from position `pos` onward: for each declaration that is not all
/// whitespace, a vertex-stage output line and a fragment-stage input line at
/// the next sequential location, starting from `n`.  Returns the two texts
/// and the next free location.
pub open spec fn spec_varying_heads(s: Seq<char>, pos: int, n: nat) -> (Seq<char>, Seq<char>, nat)
    decreases s.len() - pos,
    via spec_varying_heads_dec
{
    if pos < 0 || pos > s.len() {
        (Seq::empty(), Seq::empty(), n)
    } else {
        match spec_find_from(s, ";"@, pos) {
            None => {
                let t = spec_skip_in(s, pos, s.len() as int);
                if t < s.len() {
                    (
                        "\nlayout(location = "@ + spec_udec(n) + ") out "@ + s.subrange(
                            t,
                            s.len() as int,
                        ) + ";"@,
                        "\nlayout(location = "@ + spec_udec(n) + ") in "@ + s.subrange(
                            t,
                            s.len() as int,
                        ) + ";"@,
                        n + 1,
                    )
                } else {
                    (Seq::empty(), Seq::empty(), n)
                }
            },
            Some(j) => {
                let t = spec_skip_in(s, pos, j);
                if t < j {
                    let rest = spec_varying_heads(s, j + 1, n + 1);
                    (
                        "\nlayout(location = "@ + spec_udec(n) + ") out "@ + s.subrange(t, j)
                            + ";"@ + rest.0,
                        "\nlayout(location = "@ + spec_udec(n) + ") in "@ + s.subrange(t, j) + ";"@
                            + rest.1,
                        rest.2,
                    )
                } else {
                    spec_varying_heads(s, j + 1, n)
                }
            },
        }
    }
}

#[via_fn]
proof fn spec_varying_heads_dec(s: Seq<char>, pos: int, n: nat) {
    if !(pos < 0 || pos > s.len()) {
        match spec_find_from(s, ";"@, pos) {
            None => {},
            Some(j) => {
                reveal_strlit(";");
                lemma_find_from_props(s, ";"@, pos);
                assert(j >= pos);
                assert(j + 1 <= s.len());
            },
        }
    }
}

/// Emits the varying interface blocks for the `;`-separated declarations of
/// `s` from `pos` onward, appending matching output lines to the
/// vertex-stage header and input lines to the fragment-stage header at
/// sequential locations from `n`.  Returns the next free location.
pub fn emit_varyings(vh: &mut String, fh: &mut String, s: &str, pos: usize, n: usize) -> (r: usize)
    requires
        pos <= s@.len(),
        n + (s@.len() - pos) + 1 <= usize::MAX,
    ensures
        final(vh)@ == old(vh)@ + spec_varying_heads(s@, pos as int, n as nat).0,
        final(fh)@ == old(fh)@ + spec_varying_heads(s@, pos as int, n as nat).1,
        r == spec_varying_heads(s@, pos as int, n as nat).2,
        n <= r <= n + (s@.len() - pos) + 1,
    decreases s@.len() - pos,
{
    let s_len = s.unicode_len();
    proof {
        reveal_strlit(";");
    }
    match find_from(s, ";", pos) {
        None => {
            let t = skip_in(s, s_len, pos, s_len);
            if t < s_len {
                let n_text = usize_dec(n);
                let piece = s.substring_char(t, s_len);
                vh.append("\nlayout(location = ");
                vh.append(n_text.as_str());
                vh.append(") out ");
                vh.append(piece);
                vh.append(";");
                fh.append("\nlayout(location = ");
                fh.append(n_text.as_str());
                fh.append(") in ");
                fh.append(piece);
                fh.append(";");
                proof {
                    assert(final(vh)@ =~= old(vh)@ + spec_varying_heads(
                        s@,
                        pos as int,
                        n as nat,
                    ).0);
                    assert(final(fh)@ =~= old(fh)@ + spec_varying_heads(
                        s@,
                        pos as int,
                        n as nat,
                    ).1);
                }
                n + 1
            } else {
                n
            }
        },
        Some(j) => {
            proof {
                lemma_find_from_props(s@, ";"@, pos as int);
            }
            let t = skip_in(s, s_len, pos, j);
            if t < j {
                let n_text = usize_dec(n);
                let piece = s.substring_char(t, j);
                vh.append("\nlayout(location = ");
                vh.append(n_text.as_str());
                vh.append(") out ");
                vh.append(piece);
                vh.append(";");
                fh.append("\nlayout(location = ");
                fh.append(n_text.as_str());
                fh.append(") in ");
                fh.append(piece);
                fh.append(";");
                let r = emit_varyings(vh, fh, s, j + 1, n + 1);
                proof {
                    assert(final(vh)@ =~= old(vh)@ + spec_varying_heads(
                        s@,
                        pos as int,
                        n as nat,
                    ).0);
                    assert(final(fh)@ =~= old(fh)@ + spec_varying_heads(
                        s@,
                        pos as int,
                        n as nat,
                    ).1);
                }
                r
            } else {
                emit_varyings(vh, fh, s, j + 1, n)
            }
        },
    }
}

} // verus!

verus! {

/// Why a shader failed to build.
#[derive(Debug)]
pub enum ShaderError {
    /// The source does not hold the three section markers in order.
    MissingSections,
    /// The native compiler rejected a stage; the diagnostic text is
    /// surfaced.
    Compile { vertex_stage: bool, message: String },
}

/// The three source sections of a shader: the text after the `[varying]`
/// marker up to the `[vertex]` marker, then up to the `[fragment]` marker,
/// then to the end.  `None` when a marker is missing or out of order.
pub open spec fn spec_sections(code: Seq<char>) -> Option<(Seq<char>, Seq<char>, Seq<char>)> {
    match spec_find_from(code, "[varying]"@, 0) {
        None => None,
        Some(i1) => match spec_find_from(code, "[vertex]"@, i1) {
            None => None,
            Some(i2) => match spec_find_from(code, "[fragment]"@, i2) {
                None => None,
                Some(i3) => Some(
                    (
                        code.subrange(i1 + "[varying]"@.len(), i2),
                        code.subrange(i2 + "[vertex]"@.len(), i3),
                        code.subrange(i3 + "[fragment]"@.len(), code.len() as int),
                    ),
                ),
            },
        },
    }
}

/// Splits shader source into its varying, vertex and fragment sections.
pub fn split_sections(code: &str) -> (r: Result<(String, String, String), ShaderError>)
    ensures
        r is Ok <==> spec_sections(code@) is Some,
        r matches Ok(s) ==> Some((s.0@, s.1@, s.2@)) == spec_sections(code@),
        r matches Ok(s) ==> s.0@.len() <= code@.len() && s.1@.len() <= code@.len() && s.2@.len()
            <= code@.len(),
        r matches Err(e) ==> e is MissingSections,
{
    let code_len = code.unicode_len();
    let m_varying = "[varying]";
    let m_vertex = "[vertex]";
    let m_fragment = "[fragment]";
    let i1 = match find_from(code, m_varying, 0) {
        Some(i) => i,
        None => {
            return Err(ShaderError::MissingSections);
        },
    };
    proof {
        lemma_find_from_props(code@, m_varying@, 0);
    }
    let i2 = match find_from(code, m_vertex, i1) {
        Some(i) => i,
        None => {
            return Err(ShaderError::MissingSections);
        },
    };
    proof {
        lemma_find_from_props(code@, m_vertex@, i1 as int);
    }
    let i3 = match find_from(code, m_fragment, i2) {
        Some(i) => i,
        None => {
            return Err(ShaderError::MissingSections);
        },
    };
    proof {
        lemma_find_from_props(code@, m_fragment@, i2 as int);
    }
    let l1 = m_varying.unicode_len();
    let l2 = m_vertex.unicode_len();
    let l3 = m_fragment.unicode_len();
    let varying_start = if i1 + l1 <= i2 {
        i1 + l1
    } else {
        i2
    };
    let vertex_start = if i2 + l2 <= i3 {
        i2 + l2
    } else {
        i3
    };
    let fragment_start = if i3 + l3 <= code_len {
        i3 + l3
    } else {
        code_len
    };
    proof {
        reveal_strlit("[varying]");
        reveal_strlit("[vertex]");
        reveal_strlit("[fragment]");
        assert(occurs_at(code@, m_vertex@, i2 as int));
        assert(occurs_at(code@, m_fragment@, i3 as int));
        if i1 + l1 > i2 {
            // the markers cannot overlap: the second marker would have to
            // start inside the first, but no proper tail of "[varying]"
            // starts with '[', and the two markers differ by their third
            // character
            let k = i2 - i1;
            if k == 0 {
                assert(code@.subrange(i1 as int, i1 + "[varying]"@.len())[2] == code@[i1 + 2]);
                assert(code@.subrange(i2 as int, i2 + "[vertex]"@.len())[2] == code@[i2 + 2]);
                assert(false);
            } else {
                assert(code@.subrange(i1 as int, i1 + "[varying]"@.len())[k] == code@[i2 as int]);
                assert(code@.subrange(i2 as int, i2 + "[vertex]"@.len())[0] == code@[i2 as int]);
                assert(false);
            }
        }
        if i2 + l2 > i3 {
            let k = i3 - i2;
            if k == 0 {
                assert(code@.subrange(i2 as int, i2 + "[vertex]"@.len())[1] == code@[i2 + 1]);
                assert(code@.subrange(i3 as int, i3 + "[fragment]"@.len())[1] == code@[i3 + 1]);
                assert(false);
            } else {
                assert(code@.subrange(i2 as int, i2 + "[vertex]"@.len())[k] == code@[i3 as int]);
                assert(code@.subrange(i3 as int, i3 + "[fragment]"@.len())[0] == code@[i3 as int]);
                assert(false);
            }
        }
    }
    let varying = String::from_str(code.substring_char(varying_start, i2));
    let vertex = String::from_str(code.substring_char(vertex_start, i3));
    let fragment = String::from_str(code.substring_char(fragment_start, code_len));
    Ok((varying, vertex, fragment))
}

/// The result of compiling one source text to the device's binary shader
/// form, which depends on the text and stage alone.
pub uninterp spec fn spirv_of(source: Seq<char>, vertex_stage: bool) -> Option<Seq<u32>>;

/// Relies on naga's GLSL frontend, validator and SPIR-V backend: the
/// parse-validate-lower pipeline of one stage is a pure function of the
/// source text and stage, yielding binary words on success and a diagnostic
/// on failure.
#[verifier::external_body]
fn compile_glsl(source: &str, vertex_stage: bool) -> (r: Result<Vec<u32>, String>)
    ensures
        r matches Ok(words) ==> spirv_of(source@, vertex_stage) == Some(words@),
        r is Err ==> spirv_of(source@, vertex_stage) is None,
{
    let stage = if vertex_stage { naga::ShaderStage::Vertex } else { naga::ShaderStage::Fragment };
    let mut frontend = naga::front::glsl::Frontend::default();
    let module = frontend.parse(&naga::front::glsl::Options::from(stage), source).map_err(|e|
        format!("{e:?}"))?;
    let mut validator = naga::valid::Validator::new(
        naga::valid::ValidationFlags::all(),
        naga::valid::Capabilities::PUSH_CONSTANT,
    );
    let info = validator.validate(&module).map_err(|e| format!("{e:?}"))?;
    let pipeline_options = naga::back::spv::PipelineOptions { shader_stage: stage, entry_point: "main".into() };
    naga::back::spv::write_vec(&module, &info, &naga::back::spv::Options::default(), Some(&pipeline_options)).map_err(|e| format!("{e:?}"))
}

} // verus!

verus! {

/// Total binding count over the material slots from `si` onward.
pub open spec fn spec_total_attrs(layouts: Seq<StructLayout<MaterialAttributeID>>, si: int) -> nat
    decreases layouts.len() - si,
{
    if si < 0 || si >= layouts.len() {
        0
    } else {
        layouts[si].attributes@.len() + spec_total_attrs(layouts, si + 1)
    }
}

/// The shared-header text and final interface-struct count over the
/// material slots from `si` onward, starting with `n` structs emitted.
pub open spec fn spec_material_sets_from(
    layouts: Seq<StructLayout<MaterialAttributeID>>,
    si: int,
    n: nat,
) -> (Seq<char>, nat)
    decreases layouts.len() - si,
{
    if si < 0 || si >= layouts.len() {
        (Seq::empty(), n)
    } else {
        let slot = spec_material_decls_from(layouts[si].attributes@, 0, si as nat, n);
        let rest = spec_material_sets_from(layouts, si + 1, slot.1);
        (slot.0 + rest.0, rest.1)
    }
}

/// A layout contributes at most one input attribute per field.
proof fn lemma_input_attrs_len(
    attrs: Seq<StructAttribute<VertexAttributeID>>,
    i: int,
    loc: nat,
    binding: nat,
)
    requires
        0 <= i <= attrs.len(),
    ensures
        spec_input_attrs_from(attrs, i, loc, binding).len() <= attrs.len() - i,
    decreases attrs.len() - i,
{
    if i < attrs.len() {
        match spec_wire_format(attrs[i].attribute) {
            None => lemma_input_attrs_len(attrs, i + 1, loc, binding),
            Some(_) => lemma_input_attrs_len(attrs, i + 1, loc + 1, binding),
        }
    }
}

/// One slot's declarations never emit more interface structs than it has
/// bindings.
proof fn lemma_material_decls_n(
    attrs: Seq<StructAttribute<MaterialAttributeID>>,
    i: int,
    set: nat,
    n: nat,
)
    requires
        0 <= i <= attrs.len(),
    ensures
        n <= spec_material_decls_from(attrs, i, set, n).1 <= n + attrs.len() - i,
    decreases attrs.len() - i,
{
    if i < attrs.len() {
        match attrs[i].attribute.inner {
            MaterialAttributeIDInner::Texture2D => lemma_material_decls_n(attrs, i + 1, set, n),
            MaterialAttributeIDInner::Sampler => lemma_material_decls_n(attrs, i + 1, set, n),
            MaterialAttributeIDInner::Uniform(_) => lemma_material_decls_n(attrs, i + 1, set, n + 1),
        }
    }
}

/// The vertex-section emission: the declaration lines appended to the
/// vertex-stage header, the vertex-input bindings, and the vertex-input
/// attributes, for the vertex layout followed by the instance layout.
pub open spec fn spec_vertex_inputs(def: ShaderFullDefinition) -> (
    Seq<char>,
    Seq<VertexInputBinding>,
    Seq<VertexInputAttribute>,
) {
    let v_empty = def.vertex_layout.size == 0 || def.vertex_layout.attributes@.len() == 0;
    let i_empty = def.instance_layout.size == 0 || def.instance_layout.attributes@.len() == 0;
    let vtext = if v_empty {
        Seq::<char>::empty()
    } else {
        spec_vertex_decls_from(def.vertex_layout.attributes@, 0, 0)
    };
    let vattrs = if v_empty {
        Seq::<VertexInputAttribute>::empty()
    } else {
        spec_input_attrs_from(def.vertex_layout.attributes@, 0, 0, 0)
    };
    let b1: nat = if v_empty {
        0
    } else {
        1
    };
    let itext = if i_empty {
        Seq::<char>::empty()
    } else {
        spec_vertex_decls_from(def.instance_layout.attributes@, 0, vattrs.len())
    };
    let iattrs = if i_empty {
        Seq::<VertexInputAttribute>::empty()
    } else {
        spec_input_attrs_from(def.instance_layout.attributes@, 0, vattrs.len(), b1)
    };
    let vbind = if v_empty {
        Seq::<VertexInputBinding>::empty()
    } else {
        seq![
            VertexInputBinding { binding: 0, stride: def.vertex_layout.size, per_instance: false },
        ]
    };
    let ibind = if i_empty {
        Seq::<VertexInputBinding>::empty()
    } else {
        seq![
            VertexInputBinding {
                binding: b1 as usize,
                stride: def.instance_layout.size,
                per_instance: true,
            },
        ]
    };
    (vtext + itext, vbind + ibind, vattrs + iattrs)
}

/// The shared header of both stages: the version line, every material
/// slot's interface declarations, and the push-constant block when the
/// push-constant layout is nonempty.
pub open spec fn spec_shared_header(def: ShaderFullDefinition) -> Seq<char> {
    let sets = spec_material_sets_from(def.material_layouts@, 0, 0);
    "#version 450\n"@ + sets.0 + if def.push_constant_layout.size == 0
        || def.push_constant_layout.attributes@.len() == 0 {
        Seq::<char>::empty()
    } else {
        spec_uniform_block(
            "layout(push_constant) uniform"@,
            sets.1 + 1,
            def.push_constant_layout.attributes@,
            "push"@,
        )
    }
}

/// The complete vertex-stage source: shared header, varying outputs,
/// vertex-input declarations, then the user's vertex section.
pub open spec fn spec_vs_code(def: ShaderFullDefinition) -> Seq<char> {
    let sections = spec_sections(def.partial.code@).unwrap();
    spec_shared_header(def) + spec_varying_heads(sections.0, 0, 0).0 + spec_vertex_inputs(def).0
        + sections.1
}

/// The complete fragment-stage source: shared header, the color output,
/// varying inputs, then the user's fragment section.
pub open spec fn spec_fs_code(def: ShaderFullDefinition) -> Seq<char> {
    let sections = spec_sections(def.partial.code@).unwrap();
    spec_shared_header(def) + "\nlayout(location = 0) out vec4 out_color;"@ + spec_varying_heads(
        sections.0,
        0,
        0,
    ).1 + sections.2
}

/// The fixed-function state a pipeline is built with, shared by all its
/// format variants: primitive topology, culling, depth test/write/compare
/// policy and blend mode.
#[derive(Clone, Copy, PartialEq, Eq, Structural, Debug)]
pub struct FixedFunctionState {
    pub topology: crate::shader::MeshTopology,
    pub cull_backfaces: bool,
    pub primitive_restart: bool,
    pub depth_test: bool,
    pub depth_write: bool,
    pub depth_always: bool,
    pub color_blend: Option<crate::shader::ColorBlend>,
}

/// The fixed-function state a shader definition declares.
pub open spec fn spec_fixed_of(d: crate::shader::ShaderDefinition) -> FixedFunctionState {
    FixedFunctionState {
        topology: d.topology,
        cull_backfaces: d.cull_backfaces,
        primitive_restart: d.primitive_restart,
        depth_test: d.depth_test,
        depth_write: d.depth_write,
        depth_always: d.depth_always,
        color_blend: d.color_blend,
    }
}

/// Everything the unverified layer needs to create the native pipeline:
/// the assembled stage sources, their binary forms, the vertex-input state
/// and per-slot descriptor-set-layout entries, and how many format variants
/// to build.
pub struct CompiledPipeline {
    pub vs_code: String,
    pub fs_code: String,
    pub vs_spirv: Vec<u32>,
    pub fs_spirv: Vec<u32>,
    pub vertex_input: VertexInputDesc,
    pub material_bindings: Vec<Vec<DescriptorSetLayoutBinding>>,
    pub fixed: FixedFunctionState,
    pub n_variants: usize,
}

/// The backend's model of one realized pipeline: how many material slots
/// its layout declares and how many format variants were built.
#[derive(Clone, Copy, PartialEq, Eq, Structural, Debug)]
pub struct GfxPipeline {
    pub material_slots: usize,
    pub n_variants: usize,
}

/// The color-attachment format of each pipeline variant, in variant order:
/// one per supported texel format, then the swapchain's own format
/// (`None`).
pub fn variant_formats() -> (r: Vec<Option<TextureFormatID>>)
    ensures
        r@.len() == N_TEXTURE_FORMATS + 1,
        forall|k: int|
            0 <= k < N_TEXTURE_FORMATS ==> ((#[trigger] r@[k]) matches Some(f) && f.spec_index()
                == k),
        r@[N_TEXTURE_FORMATS as int] is None,
{
    let formats = TextureFormatID::all();
    let mut r: Vec<Option<TextureFormatID>> = Vec::new();
    let mut i: usize = 0;
    while i < formats.len()
        invariant
            i <= formats@.len(),
            formats@.len() == N_TEXTURE_FORMATS,
            forall|k: int| 0 <= k < formats@.len() ==> (#[trigger] formats@[k]).spec_index() == k,
            r@.len() == i,
            forall|k: int|
                0 <= k < i ==> ((#[trigger] r@[k]) matches Some(f) && f.spec_index() == k),
        decreases formats@.len() - i,
    {
        r.push(Some(formats[i]));
        i = i + 1;
    }
    r.push(None);
    r
}

/// Compiles a logical shader definition: splits the source into its three
/// sections, emits the varying, vertex-input, material and push-constant
/// interfaces, assembles both stage sources, and lowers each to the binary
/// shader form.  Any parse, validation or lowering failure is fatal at
/// registration time with the compiler's diagnostic surfaced; there is no
/// fallback pipeline.
pub fn build_pipeline(def: &ShaderFullDefinition) -> (r: Result<CompiledPipeline, ShaderError>)
    requires
        spec_total_attrs(def.material_layouts@, 0) + 1 <= usize::MAX,
        def.vertex_layout.attributes@.len() + def.instance_layout.attributes@.len() < usize::MAX,
        def.partial.code@.len() + 1 < usize::MAX,
    ensures
        r is Ok <==> spec_sections(def.partial.code@) is Some && spirv_of(spec_vs_code(*def), true)
            is Some && spirv_of(spec_fs_code(*def), false) is Some,
        r matches Ok(p) ==> p.vs_code@ == spec_vs_code(*def) && p.fs_code@ == spec_fs_code(*def)
            && Some(p.vs_spirv@) == spirv_of(spec_vs_code(*def), true) && Some(p.fs_spirv@)
            == spirv_of(spec_fs_code(*def), false) && p.vertex_input.bindings@ == spec_vertex_inputs(
            *def,
        ).1 && p.vertex_input.attributes@ == spec_vertex_inputs(*def).2
            && p.material_bindings@.len() == def.material_layouts@.len() && (forall|si: int|
            0 <= si < def.material_layouts@.len() ==> (#[trigger] p.material_bindings@[si])@
                == spec_material_bindings(def.material_layouts@[si].attributes@)) && p.fixed
            == spec_fixed_of(def.partial) && p.n_variants == N_TEXTURE_FORMATS + 1,
        r matches Err(e) ==> match e {
            ShaderError::MissingSections => spec_sections(def.partial.code@) is None,
            ShaderError::Compile { vertex_stage, .. } => spec_sections(def.partial.code@) is Some
                && if vertex_stage {
                spirv_of(spec_vs_code(*def), true) is None
            } else {
                spirv_of(spec_vs_code(*def), true) is Some && spirv_of(spec_fs_code(*def), false)
                    is None
            },
        },
{
    let (varying, vertex_src, fragment_src) = match split_sections(def.partial.code.as_str()) {
        Ok(t) => t,
        Err(_) => {
            return Err(ShaderError::MissingSections);
        },
    };
    let mut shared_header = String::from_str("#version 450\n");
    let mut vertex_header = String::new();
    let mut fragment_header = String::from_str("\nlayout(location = 0) out vec4 out_color;");

    // varying interface blocks at sequential locations
    emit_varyings(&mut vertex_header, &mut fragment_header, varying.as_str(), 0, 0);

    // vertex data: one binding per nonempty layout, vertex then instance
    let mut vertex_desc = VertexInputDesc { bindings: Vec::new(), attributes: Vec::new() };
    proof {
        lemma_input_attrs_len(def.vertex_layout.attributes@, 0, 0, 0);
    }
    add_vertex_layout_data(&mut vertex_desc, &mut vertex_header, &def.vertex_layout, false);
    add_vertex_layout_data(&mut vertex_desc, &mut vertex_header, &def.instance_layout, true);
    proof {
        assert(vertex_desc.bindings@ =~= spec_vertex_inputs(*def).1);
        assert(vertex_desc.attributes@ =~= spec_vertex_inputs(*def).2);
    }

    // material slots
    let mut n_structs: usize = 0;
    let mut material_bindings: Vec<Vec<DescriptorSetLayoutBinding>> = Vec::new();
    let n_slots = def.material_layouts.len();
    let mut si: usize = 0;
    while si < n_slots
        invariant
            si <= n_slots,
            n_slots == def.material_layouts@.len(),
            spec_total_attrs(def.material_layouts@, 0) + 1 <= usize::MAX,
            n_structs + spec_total_attrs(def.material_layouts@, si as int) <= spec_total_attrs(
                def.material_layouts@,
                0,
            ),
            "#version 450\n"@ + spec_material_sets_from(def.material_layouts@, 0, 0).0
                == shared_header@ + spec_material_sets_from(
                def.material_layouts@,
                si as int,
                n_structs as nat,
            ).0,
            spec_material_sets_from(def.material_layouts@, 0, 0).1 == spec_material_sets_from(
                def.material_layouts@,
                si as int,
                n_structs as nat,
            ).1,
            material_bindings@.len() == si,
            forall|k: int|
                0 <= k < si ==> (#[trigger] material_bindings@[k])@ == spec_material_bindings(
                    def.material_layouts@[k].attributes@,
                ),
        decreases n_slots - si,
    {
        let layout = &def.material_layouts[si];
        proof {
            lemma_material_decls_n(layout.attributes@, 0, si as nat, n_structs as nat);
        }
        let b = process_material_slot(&mut shared_header, &mut n_structs, si, layout);
        material_bindings.push(b);
        si = si + 1;
        proof {
            assert("#version 450\n"@ + spec_material_sets_from(def.material_layouts@, 0, 0).0
                =~= shared_header@ + spec_material_sets_from(
                def.material_layouts@,
                si as int,
                n_structs as nat,
            ).0);
        }
    }

    // push constants
    if !def.push_constant_layout.is_empty() {
        add_uniform_layout_data(
            &mut shared_header,
            &mut n_structs,
            "layout(push_constant) uniform",
            "push",
            &def.push_constant_layout,
        );
    }
    proof {
        assert(shared_header@ =~= spec_shared_header(*def));
    }

    // assemble and compile both stages
    let mut vs_code = String::new();
    vs_code.append(shared_header.as_str());
    vs_code.append(vertex_header.as_str());
    vs_code.append(vertex_src.as_str());
    let mut fs_code = String::new();
    fs_code.append(shared_header.as_str());
    fs_code.append(fragment_header.as_str());
    fs_code.append(fragment_src.as_str());
    proof {
        assert(vs_code@ =~= spec_vs_code(*def));
        assert(fs_code@ =~= spec_fs_code(*def));
    }
    let vs_spirv = match compile_glsl(vs_code.as_str(), true) {
        Ok(w) => w,
        Err(message) => {
            return Err(ShaderError::Compile { vertex_stage: true, message });
        },
    };
    let fs_spirv = match compile_glsl(fs_code.as_str(), false) {
        Ok(w) => w,
        Err(message) => {
            return Err(ShaderError::Compile { vertex_stage: false, message });
        },
    };
    Ok(
        CompiledPipeline {
            vs_code,
            fs_code,
            vs_spirv,
            fs_spirv,
            vertex_input: vertex_desc,
            material_bindings,
            fixed: FixedFunctionState {
                topology: def.partial.topology,
                cull_backfaces: def.partial.cull_backfaces,
                primitive_restart: def.partial.primitive_restart,
                depth_test: def.partial.depth_test,
                depth_write: def.partial.depth_write,
                depth_always: def.partial.depth_always,
                color_blend: def.partial.color_blend,
            },
            n_variants: N_TEXTURE_FORMATS + 1,
        },
    )
}

} // verus!
