//! Handles to uniform buffers: persistent GPU resources or immediate-mode
//! byte ranges of the current frame's scratch buffer.

use std::sync::Arc;

use vstd::prelude::*;

use crate::material::{MaterialAttributeRefID, MaterialAttributeRefIDInner};

verus! {

/// Where a uniform buffer's bytes live.
#[derive(Clone)]
pub enum UniformBufferInner {
    /// A byte range of this frame's uniform scratch buffer.
    Immediate { start: usize, len: usize },
    /// A persistent GPU buffer; the held reference keeps the registry entry
    /// alive.
    Resource { id: usize, rc: Arc<()> },
}

/// Handle to a uniform buffer usable in shaders.
#[derive(Clone)]
pub struct UniformBuffer {
    pub inner: UniformBufferInner,
}

impl UniformBuffer {
    /// The binding reference naming this uniform buffer.
    pub fn ref_id(&self) -> (r: MaterialAttributeRefID)
        ensures
            r.inner == match self.inner {
                UniformBufferInner::Immediate { start, len } =>
                    MaterialAttributeRefIDInner::ImmediateUniform { start, len },
                UniformBufferInner::Resource { id, .. } => MaterialAttributeRefIDInner::Uniform {
                    id,
                },
            },
    {
        match &self.inner {
            UniformBufferInner::Immediate { start, len } => MaterialAttributeRefID {
                inner: MaterialAttributeRefIDInner::ImmediateUniform { start: *start, len: *len },
            },
            UniformBufferInner::Resource { id, .. } => MaterialAttributeRefID {
                inner: MaterialAttributeRefIDInner::Uniform { id: *id },
            },
        }
    }
}

} // verus!
