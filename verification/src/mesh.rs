//! CPU mesh and instance data, their byte forms, and the handles used to
//! draw them.

use std::ops::Range;
use std::sync::Arc;

use vstd::prelude::*;

verus! {

/// A mesh with indices on the CPU.
#[derive(Clone)]
pub struct MeshIndexed<T, I> {
    pub vertices: Vec<T>,
    pub indices: Vec<I>,
}

impl<T, I> MeshIndexed<T, I> {
    /// Creates an empty mesh.
    pub fn new() -> (r: Self)
        ensures
            r.vertices@ == Seq::<T>::empty(),
            r.indices@ == Seq::<I>::empty(),
    {
        MeshIndexed { vertices: Vec::new(), indices: Vec::new() }
    }
}

impl<T, I> Default for MeshIndexed<T, I> {
    fn default() -> (r: Self)
        ensures
            r.vertices@ == Seq::<T>::empty(),
            r.indices@ == Seq::<I>::empty(),
    {
        Self::new()
    }
}

/// A mesh with 32-bit indices.
pub type MeshU32<T> = MeshIndexed<T, u32>;

/// A mesh with 16-bit indices.
pub type MeshU16<T> = MeshIndexed<T, u16>;

/// CPU representation of a mesh.
#[derive(Clone)]
pub enum Mesh<T> {
    U32(MeshU32<T>),
    U16(MeshU16<T>),
    NoIndices(Vec<T>),
}

/// Index data of a mesh in raw byte form.
#[derive(Clone, Debug)]
pub struct MeshIndicesBytes {
    pub is_u32: bool,
    pub n: usize,
    pub bytes: Vec<u8>,
}

/// A mesh in raw byte form: the plain buffers the upload pipeline copies to
/// the GPU.
#[derive(Clone, Debug)]
pub struct MeshBytes {
    pub vertex_bytes: Vec<u8>,
    pub n_vertices: usize,
    pub indices: Option<MeshIndicesBytes>,
}

impl MeshBytes {
    /// Assembles the byte form from already-encoded vertex and index
    /// buffers.
    pub fn from_parts(vertex_bytes: Vec<u8>, n_vertices: usize, indices: Option<
        MeshIndicesBytes,
    >) -> (r: MeshBytes)
        ensures
            r.vertex_bytes == vertex_bytes,
            r.n_vertices == n_vertices,
            r.indices == indices,
    {
        MeshBytes { vertex_bytes, n_vertices, indices }
    }
}

/// A set of instances in raw byte form.
#[derive(Clone, Debug)]
pub struct InstanceBytes {
    pub n: usize,
    pub bytes: Vec<u8>,
}

impl InstanceBytes {
    /// Assembles the byte form from an already-encoded instance buffer.
    pub fn from_parts(n: usize, bytes: Vec<u8>) -> (r: InstanceBytes)
        ensures
            r.n == n,
            r.bytes == bytes,
    {
        InstanceBytes { n, bytes }
    }
}

/// This-frame index data: a byte range of the frame's index scratch buffer.
#[derive(Clone, Copy, PartialEq, Eq, Structural, Debug)]
pub struct ImmediateIndicesDraw {
    pub start: usize,
    pub n: u32,
    pub is_u32: bool,
}

/// This-frame mesh data: a byte range of the frame's vertex scratch buffer.
#[derive(Clone, Copy, PartialEq, Eq, Structural, Debug)]
pub struct ImmediateMeshDraw {
    pub start: usize,
    pub n: u32,
    pub indices: Option<ImmediateIndicesDraw>,
}

/// This-frame instance data: a byte range of the frame's vertex scratch
/// buffer.
#[derive(Clone, Copy, PartialEq, Eq, Structural, Debug)]
pub struct ImmediateInstancesDraw {
    pub start: usize,
    pub n: u32,
}

/// Source of the vertices of one draw call.
#[derive(Clone, Copy, PartialEq, Eq, Structural, Debug)]
pub enum MeshDraw {
    /// Vertices with no attached data, addressed only by index range.
    Range { start: u32, end: u32 },
    /// A this-frame byte range.
    Immediate(ImmediateMeshDraw),
    /// A persistent GPU mesh resource.
    Resource(usize),
}

/// Source of the instances of one draw call.
#[derive(Clone, Copy, PartialEq, Eq, Structural, Debug)]
pub enum InstancesDraw {
    /// Instances with no attached data, addressed only by index range.
    Range { start: u32, end: u32 },
    /// A this-frame byte range.
    Immediate(ImmediateInstancesDraw),
    /// A persistent GPU instance resource.
    Resource(usize),
}

/// What a mesh handle refers to.
#[derive(Clone)]
pub enum GPUMeshInner {
    Range { start: u32, end: u32 },
    Immediate(ImmediateMeshDraw),
    Resource { id: usize, rc: Arc<()> },
}

/// Handle to a mesh usable for drawing.
#[derive(Clone)]
pub struct GPUMesh {
    pub inner: GPUMeshInner,
}

impl GPUMesh {
    /// Vertices with no data: their index in a vertex shader comes from the
    /// built-in vertex index.
    pub fn range(range: Range<u32>) -> (r: Self)
        ensures
            r.inner == (GPUMeshInner::Range { start: range.start, end: range.end }),
    {
        GPUMesh { inner: GPUMeshInner::Range { start: range.start, end: range.end } }
    }

    /// The draw-command source naming this mesh.
    pub fn draw(&self) -> (r: MeshDraw)
        ensures
            r == match self.inner {
                GPUMeshInner::Range { start, end } => MeshDraw::Range { start, end },
                GPUMeshInner::Immediate(d) => MeshDraw::Immediate(d),
                GPUMeshInner::Resource { id, .. } => MeshDraw::Resource(id),
            },
    {
        match &self.inner {
            GPUMeshInner::Range { start, end } => MeshDraw::Range { start: *start, end: *end },
            GPUMeshInner::Immediate(d) => MeshDraw::Immediate(*d),
            GPUMeshInner::Resource { id, .. } => MeshDraw::Resource(*id),
        }
    }
}

/// What an instances handle refers to.
#[derive(Clone)]
pub enum GPUInstancesInner {
    Range { start: u32, end: u32 },
    Immediate(ImmediateInstancesDraw),
    Resource { id: usize, rc: Arc<()> },
}

/// Handle to a set of instances usable for drawing.
#[derive(Clone)]
pub struct GPUInstances {
    pub inner: GPUInstancesInner,
}

impl GPUInstances {
    /// Exactly one instance of the mesh will be drawn.
    pub fn one() -> (r: Self)
        ensures
            r.inner == (GPUInstancesInner::Range { start: 0, end: 1 }),
    {
        GPUInstances { inner: GPUInstancesInner::Range { start: 0, end: 1 } }
    }

    /// Instances with no data: their index in a vertex shader comes from
    /// the built-in instance index.
    pub fn range(range: Range<u32>) -> (r: Self)
        ensures
            r.inner == (GPUInstancesInner::Range { start: range.start, end: range.end }),
    {
        GPUInstances { inner: GPUInstancesInner::Range { start: range.start, end: range.end } }
    }

    /// The draw-command source naming these instances.
    pub fn draw(&self) -> (r: InstancesDraw)
        ensures
            r == match self.inner {
                GPUInstancesInner::Range { start, end } => InstancesDraw::Range { start, end },
                GPUInstancesInner::Immediate(d) => InstancesDraw::Immediate(d),
                GPUInstancesInner::Resource { id, .. } => InstancesDraw::Resource(id),
            },
    {
        match &self.inner {
            GPUInstancesInner::Range { start, end } => InstancesDraw::Range {
                start: *start,
                end: *end,
            },
            GPUInstancesInner::Immediate(d) => InstancesDraw::Immediate(*d),
            GPUInstancesInner::Resource { id, .. } => InstancesDraw::Resource(*id),
        }
    }
}

} // verus!
