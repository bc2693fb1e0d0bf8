//! Queued resource lifecycle updates, drained once per frame by the
//! backend.

use std::sync::Arc;

use vstd::prelude::*;

use crate::gpu_texture::{SamplerDefinition, Texture2DMeta};
use crate::mesh::{InstanceBytes, MeshBytes};
use crate::shader::ShaderFullDefinition;

verus! {

/// Category of a resource queued for freeing.
#[derive(Clone, Copy, PartialEq, Eq, Structural, Debug)]
pub enum ResourceFreeType {
    Shader,
    Texture2D,
    Mesh,
    Instances,
    Uniform,
    Framebuffer,
    Sampler,
}

/// One queued lifecycle update: realize a creation, or free a resource whose
/// handles are gone.
pub enum ResourceUpdate {
    CreateShader { id: usize, def: Arc<ShaderFullDefinition> },
    CreateTexture2D { id: usize, meta: Texture2DMeta, bytes: Vec<u8> },
    CreateMesh { id: usize, data: MeshBytes },
    CreateInstances { id: usize, data: InstanceBytes },
    CreateUniform { id: usize, data: Vec<u8> },
    CreateFramebuffer { id: usize, meta: Texture2DMeta },
    CreateSampler { id: usize, def: SamplerDefinition },
    Free { id: usize, ty: ResourceFreeType },
}

} // verus!
