//! Handles to GPU textures, samplers, framebuffers and canvases.

use std::sync::Arc;

use vstd::prelude::*;

use crate::attribute::TextureFormatID;
use crate::geom::UVec2;
use crate::material::{MaterialAttributeRefID, MaterialAttributeRefIDInner};

verus! {

/// How a sampler treats coordinates outside [0, 1].
#[derive(Clone, Copy, PartialEq, Eq, Structural, Debug)]
pub enum SamplerWrapMode {
    Repeat,
    Extend,
    Mirror,
}

impl Default for SamplerWrapMode {
    fn default() -> (r: Self)
        ensures
            r == SamplerWrapMode::Repeat,
    {
        SamplerWrapMode::Repeat
    }
}

/// Filtering and wrapping configuration of a sampler.
#[derive(Clone, Copy, PartialEq, Eq, Structural, Debug)]
pub struct SamplerDefinition {
    pub wrap_mode: SamplerWrapMode,
    pub min_linear: bool,
    pub mag_linear: bool,
}

impl Default for SamplerDefinition {
    fn default() -> (r: Self)
        ensures
            r.wrap_mode == SamplerWrapMode::Repeat,
            r.min_linear == false,
            r.mag_linear == false,
    {
        SamplerDefinition { wrap_mode: SamplerWrapMode::Repeat, min_linear: false, mag_linear: false }
    }
}

/// Handle to a sampler on the GPU; the held reference keeps the registry
/// entry alive.
#[derive(Clone)]
pub struct Sampler {
    pub id: usize,
    pub rc: Arc<SamplerDefinition>,
}

impl Sampler {
    /// The binding reference naming this sampler.
    pub fn ref_id(&self) -> (r: MaterialAttributeRefID)
        ensures
            r.inner == (MaterialAttributeRefIDInner::Sampler { id: self.id }),
    {
        MaterialAttributeRefID { inner: MaterialAttributeRefIDInner::Sampler { id: self.id } }
    }
}

/// Pixel extent and texel format of a 2D texture.
#[derive(Clone, Copy, PartialEq, Eq, Structural, Debug)]
pub struct Texture2DMeta {
    pub size: UVec2,
    pub format: TextureFormatID,
}

/// What GPU object a 2D texture handle points at.
#[derive(Clone, Copy, PartialEq, Eq, Structural, Debug)]
pub enum Texture2DTy {
    Texture2D,
    FramebufferColor,
    FramebufferDepth,
}

/// Handle to a 2D texture on the GPU; the held reference keeps the registry
/// entry alive.
#[derive(Clone)]
pub struct GPUTexture2D {
    pub ty: Texture2DTy,
    pub id: usize,
    pub rc: Arc<Texture2DMeta>,
}

impl GPUTexture2D {
    /// Pixel extent of the texture.
    pub fn size(&self) -> (r: UVec2)
        ensures
            r == self.rc.size,
    {
        self.rc.size
    }

    /// The binding reference naming this texture.
    pub fn ref_id(&self) -> (r: MaterialAttributeRefID)
        ensures
            r.inner == match self.ty {
                Texture2DTy::Texture2D => MaterialAttributeRefIDInner::Texture2D { id: self.id },
                Texture2DTy::FramebufferColor => MaterialAttributeRefIDInner::FramebufferColor {
                    id: self.id,
                },
                Texture2DTy::FramebufferDepth => MaterialAttributeRefIDInner::FramebufferDepth {
                    id: self.id,
                },
            },
    {
        match self.ty {
            Texture2DTy::Texture2D => MaterialAttributeRefID {
                inner: MaterialAttributeRefIDInner::Texture2D { id: self.id },
            },
            Texture2DTy::FramebufferColor => MaterialAttributeRefID {
                inner: MaterialAttributeRefIDInner::FramebufferColor { id: self.id },
            },
            Texture2DTy::FramebufferDepth => MaterialAttributeRefID {
                inner: MaterialAttributeRefIDInner::FramebufferDepth { id: self.id },
            },
        }
    }
}

/// A renderable target: the on-screen surface or an off-screen framebuffer.
#[derive(Clone, Copy, PartialEq, Eq, Structural, Debug)]
pub enum CanvasID {
    Framebuffer(usize),
    Screen,
}

/// Stable identity plus pixel extent of a renderable target.
#[derive(Clone, Copy, PartialEq, Eq, Structural, Debug)]
pub struct Canvas {
    pub id: CanvasID,
    pub size: UVec2,
}

impl Canvas {
    /// Pixel extent of the target.
    pub fn size(&self) -> (r: UVec2)
        ensures
            r == self.size,
    {
        self.size
    }
}

/// Handle to an off-screen framebuffer: a color texture, a depth texture and
/// the canvas that renders into them.
pub struct Framebuffer {
    color: GPUTexture2D,
    depth: GPUTexture2D,
    canvas: Canvas,
}

impl Framebuffer {
    /// Builds the handle triple for the framebuffer registered under `id`.
    pub fn new(id: usize, rc: Arc<Texture2DMeta>) -> (r: Framebuffer)
        ensures
            r.spec_color().ty == Texture2DTy::FramebufferColor,
            r.spec_color().id == id,
            r.spec_color().rc == rc,
            r.spec_depth().ty == Texture2DTy::FramebufferDepth,
            r.spec_depth().id == id,
            r.spec_canvas().id == CanvasID::Framebuffer(id),
            r.spec_canvas().size == rc.size,
    {
        Framebuffer {
            color: GPUTexture2D { ty: Texture2DTy::FramebufferColor, id, rc: rc.clone() },
            depth: GPUTexture2D { ty: Texture2DTy::FramebufferDepth, id, rc: rc.clone() },
            canvas: Canvas { id: CanvasID::Framebuffer(id), size: rc.size },
        }
    }

    /// The color texture handle.
    pub closed spec fn spec_color(&self) -> GPUTexture2D {
        self.color
    }

    /// The depth texture handle.
    pub closed spec fn spec_depth(&self) -> GPUTexture2D {
        self.depth
    }

    /// The canvas rendering into this framebuffer.
    pub closed spec fn spec_canvas(&self) -> Canvas {
        self.canvas
    }

    /// Pixel extent of the framebuffer.
    pub fn size(&self) -> (r: UVec2)
        ensures
            r == self.spec_canvas().size,
    {
        self.canvas.size
    }

    /// The framebuffer's color target, usable as a sampled texture.
    pub fn color(&self) -> (r: &GPUTexture2D)
        ensures
            *r == self.spec_color(),
    {
        &self.color
    }

    /// The framebuffer's depth target.
    pub fn depth(&self) -> (r: &GPUTexture2D)
        ensures
            *r == self.spec_depth(),
    {
        &self.depth
    }

    /// The canvas that draws into this framebuffer.
    pub fn canvas(&self) -> (r: &Canvas)
        ensures
            *r == self.spec_canvas(),
    {
        &self.canvas
    }
}

} // verus!
