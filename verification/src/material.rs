//! Materials: named sets of shader-visible bindings (textures, samplers,
//! uniform blocks) filling one descriptor-set slot.

use vstd::prelude::*;

use crate::attribute::{AttributeKind, StructLayout, UniformAttributeID};

verus! {

/// Highest number of material slots a shader can declare.
pub const MAX_MATERIALS: usize = 4;

/// Kind of one binding of a material slot.
#[derive(Clone, Debug)]
pub enum MaterialAttributeIDInner {
    Texture2D,
    Sampler,
    Uniform(StructLayout<UniformAttributeID>),
}

/// Kind of one binding of a material slot.
#[derive(Clone, Debug)]
pub struct MaterialAttributeID {
    pub inner: MaterialAttributeIDInner,
}

impl AttributeKind for MaterialAttributeID {
    /// Material layouts count bindings rather than bytes: each attribute
    /// occupies one binding index.
    open spec fn spec_size(&self) -> nat {
        1
    }

    open spec fn spec_alignment(&self) -> nat {
        1
    }

    open spec fn spec_is_padding(&self) -> bool {
        false
    }

    fn size(&self) -> (r: usize) {
        1
    }

    fn alignment(&self) -> (r: usize) {
        1
    }

    fn is_padding(&self) -> (r: bool) {
        false
    }
}

/// Reference to the resource bound at one material binding.
#[derive(Clone, Copy, PartialEq, Eq, Structural, Debug)]
pub enum MaterialAttributeRefIDInner {
    Texture2D { id: usize },
    Sampler { id: usize },
    Uniform { id: usize },
    FramebufferColor { id: usize },
    FramebufferDepth { id: usize },
    ImmediateUniform { start: usize, len: usize },
}

/// Reference to the resource bound at one material binding.
#[derive(Clone, Copy, PartialEq, Eq, Structural, Debug)]
pub struct MaterialAttributeRefID {
    pub inner: MaterialAttributeRefIDInner,
}

/// A concrete material instance for this frame: a per-frame id used for
/// bind deduplication plus the resources it binds, in binding order.
#[derive(Clone, Debug)]
pub struct MaterialRaw {
    pub id: usize,
    pub attributes: Vec<MaterialAttributeRefID>,
}

/// A material instance usable with a shader configuration this frame.
#[derive(Clone, Debug)]
pub struct MaterialCfg {
    pub raw: MaterialRaw,
}

} // verus!
