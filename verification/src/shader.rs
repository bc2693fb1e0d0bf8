//! Logical shader definitions: fixed-function state, raw source text and the
//! attribute layouts the pipeline factory compiles from.

use std::sync::Arc;

use vstd::prelude::*;

use crate::attribute::{StructLayout, UniformAttributeID, VertexAttributeID};
use crate::material::MaterialAttributeID;

verus! {

/// Primitive assembly of a mesh.
#[derive(Clone, Copy, PartialEq, Eq, Structural, Debug)]
pub enum MeshTopology {
    Triangles,
}

impl Default for MeshTopology {
    fn default() -> (r: Self)
        ensures
            r == MeshTopology::Triangles,
    {
        MeshTopology::Triangles
    }
}

/// Color blending policy of a pipeline.
#[derive(Clone, Copy, PartialEq, Eq, Structural, Debug)]
pub enum ColorBlend {
    Alpha,
}

/// User-supplied part of a shader: raw source text plus fixed-function
/// state.  The source holds three sections headed by the literal marker
/// lines `[varying]`, `[vertex]` and `[fragment]`, in that order.
#[derive(Clone)]
pub struct ShaderDefinition {
    pub code: String,
    pub topology: MeshTopology,
    pub cull_backfaces: bool,
    pub primitive_restart: bool,
    pub depth_test: bool,
    pub depth_write: bool,
    pub depth_always: bool,
    pub color_blend: Option<ColorBlend>,
}

impl Default for ShaderDefinition {
    fn default() -> (r: Self)
        ensures
            r.code@ == Seq::<char>::empty(),
            r.topology == MeshTopology::Triangles,
            r.cull_backfaces == false,
            r.primitive_restart == false,
            r.depth_test == false,
            r.depth_write == false,
            r.depth_always == false,
            r.color_blend is None,
    {
        ShaderDefinition {
            code: String::new(),
            topology: MeshTopology::Triangles,
            cull_backfaces: false,
            primitive_restart: false,
            depth_test: false,
            depth_write: false,
            depth_always: false,
            color_blend: None,
        }
    }
}

/// Complete, immutable description of a shader: the partial definition plus
/// every attribute layout it is compiled against.
#[derive(Clone)]
pub struct ShaderFullDefinition {
    pub vertex_layout: StructLayout<VertexAttributeID>,
    pub instance_layout: StructLayout<VertexAttributeID>,
    pub push_constant_layout: StructLayout<UniformAttributeID>,
    pub material_layouts: Vec<StructLayout<MaterialAttributeID>>,
    pub partial: ShaderDefinition,
}

impl ShaderFullDefinition {
    /// Combines a partial definition with explicitly supplied vertex,
    /// instance, material and push-constant layouts.
    pub fn from_partial(
        vertex_layout: StructLayout<VertexAttributeID>,
        instance_layout: StructLayout<VertexAttributeID>,
        material_layouts: Vec<StructLayout<MaterialAttributeID>>,
        push_constant_layout: StructLayout<UniformAttributeID>,
        def: ShaderDefinition,
    ) -> (r: ShaderFullDefinition)
        ensures
            r.vertex_layout == vertex_layout,
            r.instance_layout == instance_layout,
            r.material_layouts == material_layouts,
            r.push_constant_layout == push_constant_layout,
            r.partial == def,
    {
        ShaderFullDefinition {
            vertex_layout,
            instance_layout,
            material_layouts,
            push_constant_layout,
            partial: def,
        }
    }
}

/// Handle to a registered shader; the held reference keeps the registry
/// entry alive.
#[derive(Clone)]
pub struct Shader {
    pub id: usize,
    pub rc: Arc<ShaderFullDefinition>,
}

} // verus!
