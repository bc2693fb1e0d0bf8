//! The drawing context: per-frame queues and scratch buffers, the resource
//! registries, and the `register_*` / `imm_*` API that the high-level
//! drawing layer calls.

use std::sync::Arc;

use vstd::prelude::*;

use crate::attribute::TextureFormatID;
use crate::draw::DrawCmd;
use crate::geom::UVec2;
use crate::gpu_texture::{
    Canvas, CanvasID, Framebuffer, GPUTexture2D, Sampler, SamplerDefinition, Texture2DMeta,
    Texture2DTy,
};
use crate::material::{MaterialAttributeRefID, MaterialCfg, MaterialRaw, MAX_MATERIALS};
use crate::mesh::{
    GPUInstances, GPUInstancesInner, GPUMesh, GPUMeshInner, ImmediateIndicesDraw,
    ImmediateInstancesDraw, ImmediateMeshDraw, InstanceBytes, MeshBytes,
};
use crate::resource::{ResourceFreeType, ResourceUpdate};
use crate::shader::{Shader, ShaderFullDefinition};
use crate::uniform::{UniformBuffer, UniformBufferInner};
use crate::util::{
    spec_align_up, BufferCell, ByteBufferCell, IDArenaCell, ID_NONE,
};

verus! {

/// Byte alignment of every immediate-mode range in the per-frame scratch
/// buffers.
pub const IMMEDIATE_ALIGN: usize = 64;

/// The per-frame bind-deduplication state is untouched between two context
/// states: the bound pipeline, the per-slot bound material ids, and the
/// frame-unique id counter.
pub open spec fn same_bind_state(a: GfxCtx, b: GfxCtx) -> bool {
    &&& a.frame_data.current_pipeline == b.frame_data.current_pipeline
    &&& a.frame_data.current_material_ids == b.frame_data.current_material_ids
    &&& a.frame_data.next_id == b.frame_data.next_id
}

/// The immediate-mode scratch bytes are untouched between two context
/// states.
pub open spec fn same_frame_bytes(a: GfxCtx, b: GfxCtx) -> bool {
    &&& a.frame_data.vertices == b.frame_data.vertices
    &&& a.frame_data.indices == b.frame_data.indices
    &&& a.frame_data.uniforms == b.frame_data.uniforms
}

/// `s` padded with zero bytes up to the next multiple of `align`.
pub open spec fn align_padded(s: Seq<u8>, align: nat) -> Seq<u8> {
    s + Seq::new((spec_align_up(s.len(), align) - s.len()) as nat, |i: int| 0u8)
}

/// Everything the drawing layer accumulates for one frame: the lifecycle
/// and draw-command queues, the immediate-mode scratch bytes, and the
/// bind-deduplication state.
pub struct GfxFrameData {
    pub resource_update_queue: BufferCell<ResourceUpdate>,
    pub draw_cmd_queue: BufferCell<DrawCmd>,
    pub vertices: ByteBufferCell,
    pub indices: ByteBufferCell,
    pub uniforms: ByteBufferCell,
    pub current_material_ids: Vec<usize>,
    pub current_pipeline: usize,
    pub next_id: usize,
}

impl GfxFrameData {
    /// One dedup slot per material slot.
    pub open spec fn wf(&self) -> bool {
        self.current_material_ids@.len() == MAX_MATERIALS
    }

    /// Creates the empty state of a fresh frame.
    pub fn new() -> (r: Self)
        ensures
            r.wf(),
            r.resource_update_queue@.len() == 0,
            r.draw_cmd_queue@.len() == 0,
            r.vertices@.len() == 0,
            r.indices@.len() == 0,
            r.uniforms@.len() == 0,
            forall|k: int|
                0 <= k < r.current_material_ids@.len() ==> r.current_material_ids@[k] == ID_NONE,
            r.current_pipeline == ID_NONE,
            r.next_id == 0,
    {
        let mut ids: Vec<usize> = Vec::new();
        ids.push(ID_NONE);
        ids.push(ID_NONE);
        ids.push(ID_NONE);
        ids.push(ID_NONE);
        GfxFrameData {
            resource_update_queue: BufferCell::new(),
            draw_cmd_queue: BufferCell::new(),
            vertices: ByteBufferCell::new(),
            indices: ByteBufferCell::new(),
            uniforms: ByteBufferCell::new(),
            current_material_ids: ids,
            current_pipeline: ID_NONE,
            next_id: 0,
        }
    }

    /// Clears every queue and scratch buffer and forgets the bind state, so
    /// the next frame starts from scratch.
    pub fn reset(&mut self)
        ensures
            final(self).wf(),
            final(self).resource_update_queue@.len() == 0,
            final(self).draw_cmd_queue@.len() == 0,
            final(self).vertices@.len() == 0,
            final(self).indices@.len() == 0,
            final(self).uniforms@.len() == 0,
            forall|k: int|
                0 <= k < final(self).current_material_ids@.len() ==> final(self).current_material_ids@[k] == ID_NONE,
            final(self).current_pipeline == ID_NONE,
            final(self).next_id == 0,
    {
        self.resource_update_queue.clear();
        self.draw_cmd_queue.clear();
        self.vertices.clear();
        self.indices.clear();
        self.uniforms.clear();
        self.next_id = 0;
        let mut ids: Vec<usize> = Vec::new();
        ids.push(ID_NONE);
        ids.push(ID_NONE);
        ids.push(ID_NONE);
        ids.push(ID_NONE);
        self.current_material_ids = ids;
        self.current_pipeline = ID_NONE;
    }
}

impl Default for GfxFrameData {
    fn default() -> (r: Self)
        ensures
            r.wf(),
            r.resource_update_queue@.len() == 0,
            r.draw_cmd_queue@.len() == 0,
    {
        Self::new()
    }
}

/// The per-category resource registries.
pub struct GfxResources {
    pub shaders: IDArenaCell<ShaderFullDefinition>,
    pub texture2ds: IDArenaCell<Texture2DMeta>,
    pub samplers: IDArenaCell<SamplerDefinition>,
    pub meshes: IDArenaCell<()>,
    pub instances: IDArenaCell<()>,
    pub uniforms: IDArenaCell<()>,
    pub framebuffers: IDArenaCell<Texture2DMeta>,
}

impl GfxResources {
    /// All registries have consistent free lists.
    pub open spec fn wf(&self) -> bool {
        &&& self.shaders.wf()
        &&& self.texture2ds.wf()
        &&& self.samplers.wf()
        &&& self.meshes.wf()
        &&& self.instances.wf()
        &&& self.uniforms.wf()
        &&& self.framebuffers.wf()
    }

    /// Creates empty registries.
    pub fn new() -> (r: Self)
        ensures
            r.wf(),
            r.shaders@.len() == 0,
            r.texture2ds@.len() == 0,
            r.samplers@.len() == 0,
            r.meshes@.len() == 0,
            r.instances@.len() == 0,
            r.uniforms@.len() == 0,
            r.framebuffers@.len() == 0,
    {
        GfxResources {
            shaders: IDArenaCell::new(),
            texture2ds: IDArenaCell::new(),
            samplers: IDArenaCell::new(),
            meshes: IDArenaCell::new(),
            instances: IDArenaCell::new(),
            uniforms: IDArenaCell::new(),
            framebuffers: IDArenaCell::new(),
        }
    }
}

/// Provides access to the graphics features of the engine.
///
/// Many functions have two versions starting with `register_` and `imm_`.
/// The `imm_` versions support immediate-mode rendering, where a frame's
/// data is created from scratch each time and is valid only for that frame.
pub struct GfxCtx {
    pub window_canvas: Canvas,
    pub frame_data: GfxFrameData,
    pub resources: GfxResources,
}

impl GfxCtx {
    /// Frame state and registries are consistent.
    pub open spec fn wf(&self) -> bool {
        &&& self.frame_data.wf()
        &&& self.resources.wf()
    }

    /// Creates a context with an empty frame and no resources; the window
    /// canvas starts at a unit extent until the first update supplies the
    /// real one.
    pub fn new() -> (r: Self)
        ensures
            r.wf(),
            r.window_canvas.id == CanvasID::Screen,
            r.frame_data.resource_update_queue@.len() == 0,
            r.frame_data.draw_cmd_queue@.len() == 0,
            r.frame_data.vertices@.len() == 0,
            r.frame_data.indices@.len() == 0,
            r.frame_data.uniforms@.len() == 0,
            r.frame_data.current_pipeline == ID_NONE,
            r.frame_data.next_id == 0,
            forall|k: int|
                0 <= k < r.frame_data.current_material_ids@.len()
                    ==> r.frame_data.current_material_ids@[k] == ID_NONE,
            r.resources.shaders@.len() == 0,
            r.resources.texture2ds@.len() == 0,
            r.resources.samplers@.len() == 0,
            r.resources.meshes@.len() == 0,
            r.resources.instances@.len() == 0,
            r.resources.uniforms@.len() == 0,
            r.resources.framebuffers@.len() == 0,
    {
        GfxCtx {
            window_canvas: Canvas { id: CanvasID::Screen, size: UVec2::new(1, 1) },
            frame_data: GfxFrameData::new(),
            resources: GfxResources::new(),
        }
    }

    /// Hands out an id unique within this frame.
    pub fn unique_id(&mut self) -> (id: usize)
        requires
            old(self).frame_data.next_id < usize::MAX,
        ensures
            id == old(self).frame_data.next_id,
            final(self).frame_data.next_id == old(self).frame_data.next_id + 1,
            final(self).window_canvas == old(self).window_canvas,
            final(self).resources == old(self).resources,
            final(self).frame_data.resource_update_queue == old(self).frame_data.resource_update_queue,
            final(self).frame_data.draw_cmd_queue == old(self).frame_data.draw_cmd_queue,
            final(self).frame_data.vertices == old(self).frame_data.vertices,
            final(self).frame_data.indices == old(self).frame_data.indices,
            final(self).frame_data.uniforms == old(self).frame_data.uniforms,
            final(self).frame_data.current_material_ids == old(self).frame_data.current_material_ids,
            final(self).frame_data.current_pipeline == old(self).frame_data.current_pipeline,
    {
        let id = self.frame_data.next_id;
        self.frame_data.next_id = id + 1;
        id
    }

    /// Registers a shader, enqueueing its creation on the GPU.  The
    /// returned handle's id was not live in the shader registry before the
    /// call.
    pub fn register_shader(&mut self, def: ShaderFullDefinition) -> (s: Shader)
        requires
            old(self).wf(),
        ensures
            final(self).wf(),
            !old(self).resources.shaders.live(s.id as int),
            final(self).resources.shaders.live(s.id as int),
            s.id <= old(self).resources.shaders@.len(),
            final(self).resources.shaders@.len() == if s.id < old(self).resources.shaders@.len() {
                old(self).resources.shaders@.len() as int
            } else {
                old(self).resources.shaders@.len() as int + 1
            },
            s.rc == def,
            final(self).frame_data.resource_update_queue@ == old(self).frame_data.resource_update_queue@.push(
                ResourceUpdate::CreateShader { id: s.id, def: s.rc },
            ),
            final(self).frame_data.draw_cmd_queue == old(self).frame_data.draw_cmd_queue,
            same_frame_bytes(*old(self), *final(self)),
            same_bind_state(*old(self), *final(self)),
            final(self).window_canvas == old(self).window_canvas,
    {
        let rc = Arc::new(def);
        let id = self.resources.shaders.insert(&rc);
        self.frame_data.resource_update_queue.push(
            ResourceUpdate::CreateShader { id, def: rc.clone() },
        );
        Shader { id, rc }
    }

    /// Registers a 2D texture from its encoded texel bytes, enqueueing its
    /// creation and upload.  The byte count must match the extent and
    /// format.
    pub fn register_texture2d(&mut self, bytes: Vec<u8>, size: UVec2, format: TextureFormatID) -> (t:
        GPUTexture2D)
        requires
            old(self).wf(),
            bytes@.len() == size.x * size.y * format.spec_texel_size(),
        ensures
            final(self).wf(),
            !old(self).resources.texture2ds.live(t.id as int),
            final(self).resources.texture2ds.live(t.id as int),
            t.id <= old(self).resources.texture2ds@.len(),
            final(self).resources.texture2ds@.len() == if t.id < old(self).resources.texture2ds@.len() {
                old(self).resources.texture2ds@.len() as int
            } else {
                old(self).resources.texture2ds@.len() as int + 1
            },
            t.ty == Texture2DTy::Texture2D,
            t.rc == (Texture2DMeta { size, format }),
            final(self).frame_data.resource_update_queue@ == old(self).frame_data.resource_update_queue@.push(
                ResourceUpdate::CreateTexture2D {
                    id: t.id,
                    meta: Texture2DMeta { size, format },
                    bytes,
                },
            ),
            final(self).frame_data.draw_cmd_queue == old(self).frame_data.draw_cmd_queue,
            same_frame_bytes(*old(self), *final(self)),
            same_bind_state(*old(self), *final(self)),
    {
        let meta = Texture2DMeta { size, format };
        let rc = Arc::new(meta);
        let id = self.resources.texture2ds.insert(&rc);
        self.frame_data.resource_update_queue.push(
            ResourceUpdate::CreateTexture2D { id, meta, bytes },
        );
        GPUTexture2D { ty: Texture2DTy::Texture2D, id, rc }
    }

    /// Makes a mesh, already in byte form, accessible for drawing across
    /// frames.
    pub fn register_mesh(&mut self, data: MeshBytes) -> (m: GPUMesh)
        requires
            old(self).wf(),
        ensures
            final(self).wf(),
            m.inner matches GPUMeshInner::Resource { id, .. } && !old(self).resources.meshes.live(id as int) && final(self).resources.meshes.live(id as int)
                && final(self).frame_data.resource_update_queue@ == old(self).frame_data.resource_update_queue@.push(ResourceUpdate::CreateMesh { id, data }),
            final(self).frame_data.draw_cmd_queue == old(self).frame_data.draw_cmd_queue,
            same_frame_bytes(*old(self), *final(self)),
            same_bind_state(*old(self), *final(self)),
    {
        let rc = Arc::new(());
        let id = self.resources.meshes.insert(&rc);
        self.frame_data.resource_update_queue.push(ResourceUpdate::CreateMesh { id, data });
        GPUMesh { inner: GPUMeshInner::Resource { id, rc } }
    }

    /// Registers a mesh, already in byte form, for drawing this frame only:
    /// its bytes go to the frame's own scratch buffers at aligned offsets.
    pub fn imm_mesh(&mut self, data: MeshBytes) -> (m: GPUMesh)
        requires
            old(self).wf(),
            data.n_vertices <= u32::MAX,
            data.indices matches Some(ix) ==> ix.n <= u32::MAX,
            spec_align_up(
                old(self).frame_data.vertices@.len() + data.vertex_bytes@.len(),
                IMMEDIATE_ALIGN as nat,
            ) <= usize::MAX,
            spec_align_up(
                old(self).frame_data.indices@.len() + match data.indices {
                    Some(ix) => ix.bytes@.len(),
                    None => 0,
                },
                IMMEDIATE_ALIGN as nat,
            ) <= usize::MAX,
        ensures
            final(self).wf(),
            final(self).frame_data.vertices@ == align_padded(
                old(self).frame_data.vertices@ + data.vertex_bytes@,
                IMMEDIATE_ALIGN as nat,
            ),
            final(self).frame_data.indices@ == match data.indices {
                Some(ix) => align_padded(
                    old(self).frame_data.indices@ + ix.bytes@,
                    IMMEDIATE_ALIGN as nat,
                ),
                None => old(self).frame_data.indices@,
            },
            m.inner == GPUMeshInner::Immediate(
                ImmediateMeshDraw {
                    start: old(self).frame_data.vertices@.len() as usize,
                    n: data.n_vertices as u32,
                    indices: match data.indices {
                        Some(ix) => Some(
                            ImmediateIndicesDraw {
                                start: old(self).frame_data.indices@.len() as usize,
                                n: ix.n as u32,
                                is_u32: ix.is_u32,
                            },
                        ),
                        None => None,
                    },
                },
            ),
            final(self).frame_data.resource_update_queue == old(self).frame_data.resource_update_queue,
            final(self).frame_data.draw_cmd_queue == old(self).frame_data.draw_cmd_queue,
            same_bind_state(*old(self), *final(self)),
            final(self).resources == old(self).resources,
    {
        let start = self.frame_data.vertices.len();
        self.frame_data.vertices.push_bytes(data.vertex_bytes.as_slice());
        self.frame_data.vertices.align_to(IMMEDIATE_ALIGN);
        proof {
            assert(self.frame_data.vertices@ =~= align_padded(
                old(self).frame_data.vertices@ + data.vertex_bytes@,
                IMMEDIATE_ALIGN as nat,
            ));
        }
        let indices = match &data.indices {
            Some(ix) => {
                let istart = self.frame_data.indices.len();
                self.frame_data.indices.push_bytes(ix.bytes.as_slice());
                self.frame_data.indices.align_to(IMMEDIATE_ALIGN);
                proof {
                    assert(self.frame_data.indices@ =~= align_padded(
                        old(self).frame_data.indices@ + data.indices.unwrap().bytes@,
                        IMMEDIATE_ALIGN as nat,
                    ));
                }
                Some(ImmediateIndicesDraw { start: istart, n: ix.n as u32, is_u32: ix.is_u32 })
            },
            None => None,
        };
        GPUMesh {
            inner: GPUMeshInner::Immediate(
                ImmediateMeshDraw { start, n: data.n_vertices as u32, indices },
            ),
        }
    }

    /// Makes a set of instances, already in byte form, accessible for
    /// drawing across frames.
    pub fn register_instances(&mut self, data: InstanceBytes) -> (r: GPUInstances)
        requires
            old(self).wf(),
        ensures
            final(self).wf(),
            r.inner matches GPUInstancesInner::Resource { id, .. } && !old(self).resources.instances.live(id as int) && final(self).resources.instances.live(
                id as int,
            ) && final(self).frame_data.resource_update_queue@ == old(self).frame_data.resource_update_queue@.push(ResourceUpdate::CreateInstances { id, data }),
            final(self).frame_data.draw_cmd_queue == old(self).frame_data.draw_cmd_queue,
            same_frame_bytes(*old(self), *final(self)),
            same_bind_state(*old(self), *final(self)),
    {
        let rc = Arc::new(());
        let id = self.resources.instances.insert(&rc);
        self.frame_data.resource_update_queue.push(ResourceUpdate::CreateInstances { id, data });
        GPUInstances { inner: GPUInstancesInner::Resource { id, rc } }
    }

    /// Registers a set of instances, already in byte form, for drawing this
    /// frame only.
    pub fn imm_instances(&mut self, data: InstanceBytes) -> (r: GPUInstances)
        requires
            old(self).wf(),
            data.n <= u32::MAX,
            spec_align_up(
                old(self).frame_data.vertices@.len() + data.bytes@.len(),
                IMMEDIATE_ALIGN as nat,
            ) <= usize::MAX,
        ensures
            final(self).wf(),
            final(self).frame_data.vertices@ == align_padded(
                old(self).frame_data.vertices@ + data.bytes@,
                IMMEDIATE_ALIGN as nat,
            ),
            r.inner == GPUInstancesInner::Immediate(
                ImmediateInstancesDraw {
                    start: old(self).frame_data.vertices@.len() as usize,
                    n: data.n as u32,
                },
            ),
            final(self).frame_data.resource_update_queue == old(self).frame_data.resource_update_queue,
            final(self).frame_data.draw_cmd_queue == old(self).frame_data.draw_cmd_queue,
            same_bind_state(*old(self), *final(self)),
            final(self).resources == old(self).resources,
    {
        let start = self.frame_data.vertices.len();
        self.frame_data.vertices.push_bytes(data.bytes.as_slice());
        self.frame_data.vertices.align_to(IMMEDIATE_ALIGN);
        proof {
            assert(self.frame_data.vertices@ =~= align_padded(
                old(self).frame_data.vertices@ + data.bytes@,
                IMMEDIATE_ALIGN as nat,
            ));
        }
        GPUInstances {
            inner: GPUInstancesInner::Immediate(
                ImmediateInstancesDraw { start, n: data.n as u32 },
            ),
        }
    }

    /// Creates a persistent uniform buffer from its encoded bytes.
    pub fn register_uniform_buffer(&mut self, content: Vec<u8>) -> (r: UniformBuffer)
        requires
            old(self).wf(),
        ensures
            final(self).wf(),
            r.inner matches UniformBufferInner::Resource { id, .. } && !old(self).resources.uniforms.live(id as int) && final(self).resources.uniforms.live(id as int)
                && final(self).frame_data.resource_update_queue@ == old(self).frame_data.resource_update_queue@.push(
                ResourceUpdate::CreateUniform { id, data: content },
            ),
            final(self).frame_data.draw_cmd_queue == old(self).frame_data.draw_cmd_queue,
            same_frame_bytes(*old(self), *final(self)),
            same_bind_state(*old(self), *final(self)),
    {
        let rc = Arc::new(());
        let id = self.resources.uniforms.insert(&rc);
        self.frame_data.resource_update_queue.push(
            ResourceUpdate::CreateUniform { id, data: content },
        );
        UniformBuffer { inner: UniformBufferInner::Resource { id, rc } }
    }

    /// Creates a uniform buffer from its encoded bytes for this frame only:
    /// the bytes go to the frame's uniform scratch buffer at an aligned
    /// offset.
    pub fn imm_uniform_buffer(&mut self, uniform: Vec<u8>) -> (r: UniformBuffer)
        requires
            old(self).wf(),
            spec_align_up(
                old(self).frame_data.uniforms@.len() + uniform@.len(),
                IMMEDIATE_ALIGN as nat,
            ) <= usize::MAX,
        ensures
            final(self).wf(),
            final(self).frame_data.uniforms@ == align_padded(
                old(self).frame_data.uniforms@ + uniform@,
                IMMEDIATE_ALIGN as nat,
            ),
            r.inner == (UniformBufferInner::Immediate {
                start: old(self).frame_data.uniforms@.len() as usize,
                len: uniform@.len() as usize,
            }),
            final(self).frame_data.resource_update_queue == old(self).frame_data.resource_update_queue,
            final(self).frame_data.draw_cmd_queue == old(self).frame_data.draw_cmd_queue,
            same_bind_state(*old(self), *final(self)),
            final(self).resources == old(self).resources,
    {
        let start = self.frame_data.uniforms.len();
        let len = uniform.len();
        self.frame_data.uniforms.push_bytes(uniform.as_slice());
        self.frame_data.uniforms.align_to(IMMEDIATE_ALIGN);
        proof {
            assert(self.frame_data.uniforms@ =~= align_padded(
                old(self).frame_data.uniforms@ + uniform@,
                IMMEDIATE_ALIGN as nat,
            ));
        }
        UniformBuffer { inner: UniformBufferInner::Immediate { start, len } }
    }

    /// Creates a material instance binding the given resources, usable with
    /// a shader configuration this frame.
    pub fn material_cfg(&mut self, refs: Vec<MaterialAttributeRefID>) -> (r: MaterialCfg)
        requires
            old(self).frame_data.next_id < usize::MAX,
        ensures
            r.raw.id == old(self).frame_data.next_id,
            r.raw.attributes == refs,
            final(self).frame_data.next_id == old(self).frame_data.next_id + 1,
            final(self).frame_data.resource_update_queue == old(self).frame_data.resource_update_queue,
            final(self).frame_data.draw_cmd_queue == old(self).frame_data.draw_cmd_queue,
            final(self).frame_data.current_material_ids == old(self).frame_data.current_material_ids,
            final(self).frame_data.current_pipeline == old(self).frame_data.current_pipeline,
            final(self).resources == old(self).resources,
            final(self).window_canvas == old(self).window_canvas,
    {
        let id = self.unique_id();
        MaterialCfg { raw: MaterialRaw { id, attributes: refs } }
    }

    /// Creates an off-screen framebuffer, enqueueing its creation on the
    /// GPU.
    pub fn register_framebuffer(&mut self, size: UVec2, format: TextureFormatID) -> (f: Framebuffer)
        requires
            old(self).wf(),
        ensures
            final(self).wf(),
            f.spec_canvas().id matches CanvasID::Framebuffer(id) && !old(self).resources.framebuffers.live(id as int) && final(self).resources.framebuffers.live(
                id as int,
            ) && final(self).frame_data.resource_update_queue@ == old(self).frame_data.resource_update_queue@.push(
                ResourceUpdate::CreateFramebuffer { id, meta: Texture2DMeta { size, format } },
            ),
            f.spec_canvas().size == size,
            final(self).frame_data.draw_cmd_queue == old(self).frame_data.draw_cmd_queue,
            same_frame_bytes(*old(self), *final(self)),
            same_bind_state(*old(self), *final(self)),
    {
        let meta = Texture2DMeta { size, format };
        let rc = Arc::new(meta);
        let id = self.resources.framebuffers.insert(&rc);
        self.frame_data.resource_update_queue.push(
            ResourceUpdate::CreateFramebuffer { id, meta },
        );
        Framebuffer::new(id, rc)
    }

    /// Creates a sampler, enqueueing its creation on the GPU.
    pub fn register_sampler(&mut self, def: SamplerDefinition) -> (s: Sampler)
        requires
            old(self).wf(),
        ensures
            final(self).wf(),
            !old(self).resources.samplers.live(s.id as int),
            final(self).resources.samplers.live(s.id as int),
            s.id <= old(self).resources.samplers@.len(),
            final(self).resources.samplers@.len() == if s.id < old(self).resources.samplers@.len() {
                old(self).resources.samplers@.len() as int
            } else {
                old(self).resources.samplers@.len() as int + 1
            },
            s.rc == def,
            final(self).frame_data.resource_update_queue@ == old(self).frame_data.resource_update_queue@.push(
                ResourceUpdate::CreateSampler { id: s.id, def },
            ),
            final(self).frame_data.draw_cmd_queue == old(self).frame_data.draw_cmd_queue,
            same_frame_bytes(*old(self), *final(self)),
            same_bind_state(*old(self), *final(self)),
    {
        let rc = Arc::new(def);
        let id = self.resources.samplers.insert(&rc);
        self.frame_data.resource_update_queue.push(ResourceUpdate::CreateSampler { id, def });
        Sampler { id, rc }
    }

    /// Sets the target that subsequent draws render to; the pipeline must
    /// be re-bound afterwards, so the bind state forgets it.
    pub fn set_canvas(&mut self, canvas: &Canvas, clear_color: Option<crate::geom::ColorBits>)
        ensures
            final(self).frame_data.draw_cmd_queue@ == old(self).frame_data.draw_cmd_queue@.push(
                DrawCmd::SetCanvas { id: canvas.id, clear_color },
            ),
            final(self).frame_data.current_pipeline == ID_NONE,
            final(self).frame_data.current_material_ids == old(self).frame_data.current_material_ids,
            final(self).frame_data.resource_update_queue == old(self).frame_data.resource_update_queue,
            final(self).frame_data.vertices == old(self).frame_data.vertices,
            final(self).frame_data.indices == old(self).frame_data.indices,
            final(self).frame_data.uniforms == old(self).frame_data.uniforms,
            final(self).frame_data.next_id == old(self).frame_data.next_id,
            final(self).resources == old(self).resources,
            final(self).window_canvas == old(self).window_canvas,
    {
        self.frame_data.draw_cmd_queue.push(
            DrawCmd::SetCanvas { id: canvas.id, clear_color },
        );
        self.frame_data.current_pipeline = ID_NONE;
    }
}

} // verus!

use crate::draw::ShaderCfg;

verus! {

/// Sweeps one registry, enqueueing a free for every entry whose resource
/// has no strong holder left.
/// Whether the registry of `ty`'s category held `id` live in context `a`
/// and no longer does in context `b`: the entry went dead between them.
pub open spec fn spec_registry_went_dead(a: GfxCtx, b: GfxCtx, ty: ResourceFreeType, id: int) -> bool {
    match ty {
        ResourceFreeType::Shader => a.resources.shaders.live(id) && !b.resources.shaders.live(id),
        ResourceFreeType::Texture2D => a.resources.texture2ds.live(id)
            && !b.resources.texture2ds.live(id),
        ResourceFreeType::Mesh => a.resources.meshes.live(id) && !b.resources.meshes.live(id),
        ResourceFreeType::Instances => a.resources.instances.live(id)
            && !b.resources.instances.live(id),
        ResourceFreeType::Uniform => a.resources.uniforms.live(id) && !b.resources.uniforms.live(
            id,
        ),
        ResourceFreeType::Framebuffer => a.resources.framebuffers.live(id)
            && !b.resources.framebuffers.live(id),
        ResourceFreeType::Sampler => a.resources.samplers.live(id) && !b.resources.samplers.live(
            id,
        ),
    }
}

/// The id an update frees, or a marker below every id for other updates.
pub open spec fn spec_free_id(u: ResourceUpdate) -> int {
    match u {
        ResourceUpdate::Free { id, .. } => id as int,
        _ => -1,
    }
}

/// Sweeps one registry, enqueueing exactly one free for each entry the
/// sweep cleared — every entry whose resource has no strong holder left —
/// in increasing id order, and nothing else.
fn sweep_registry<T>(
    reg: &mut IDArenaCell<T>,
    queue: &mut BufferCell<ResourceUpdate>,
    ty: ResourceFreeType,
)
    requires
        old(reg).wf(),
    ensures
        final(reg).wf(),
        final(reg)@.len() == old(reg)@.len(),
        final(queue)@.len() >= old(queue)@.len(),
        forall|j: int| 0 <= j < old(queue)@.len() ==> final(queue)@[j] == old(queue)@[j],
        // each appended entry frees one id this very sweep cleared
        forall|j: int|
            old(queue)@.len() <= j < final(queue)@.len() ==> ((#[trigger] final(queue)@[j]) matches
                ResourceUpdate::Free { id, ty: t } && t == ty && old(reg).live(id as int)
                && !final(reg).live(id as int)),
        // each id this sweep cleared is freed: one entry per cleared id
        forall|i: int|
            0 <= i < old(reg)@.len() && old(reg).live(i) && !final(reg).live(i)
                ==> (exists|j: int|
                old(queue)@.len() <= j < final(queue)@.len() && (#[trigger] final(queue)@[j])
                    == (ResourceUpdate::Free { id: i as usize, ty })),
        // the appended ids strictly increase, so no id is freed twice
        forall|j1: int, j2: int|
            old(queue)@.len() <= j1 < j2 < final(queue)@.len() ==> spec_free_id(
                #[trigger] final(queue)@[j1],
            ) < spec_free_id(#[trigger] final(queue)@[j2]),
        // entries the sweep did not clear are untouched
        forall|i: int|
            0 <= i < old(reg)@.len() && !(old(reg).live(i) && !final(reg).live(i)) ==> final(reg)@[i] == old(reg)@[i],
{
    let removed = reg.remove_unused();
    proof {
        assert forall|i: int|
            0 <= i < old(reg)@.len() && !(old(reg).live(i) && !reg.live(i)) implies reg@[i] == old(reg)@[i] by {
            if crate::util::contains_id(removed@, i) {
                let k = choose|k: int| 0 <= k < removed@.len() && removed@[k] == i;
                assert(old(reg).live(removed@[k] as int) && !reg.live(removed@[k] as int));
            }
        }
        assert forall|i: int|
            0 <= i < old(reg)@.len() && old(reg).live(i) && !reg.live(i) implies
            crate::util::contains_id(removed@, i) by {
            if !crate::util::contains_id(removed@, i) {
                assert(reg@[i] == old(reg)@[i]);
            }
        }
    }
    let mut k: usize = 0;
    while k < removed.len()
        invariant
            k <= removed@.len(),
            reg.wf(),
            reg@.len() == old(reg)@.len(),
            forall|j: int|
                0 <= j < removed@.len() ==> old(reg).live(#[trigger] removed@[j] as int)
                    && !reg.live(removed@[j] as int),
            forall|j1: int, j2: int|
                0 <= j1 < j2 < removed@.len() ==> removed@[j1] < removed@[j2],
            forall|j: int| 0 <= j < old(queue)@.len() ==> queue@[j] == old(queue)@[j],
            queue@.len() == old(queue)@.len() + k,
            forall|j: int|
                old(queue)@.len() <= j < queue@.len() ==> (#[trigger] queue@[j])
                    == (ResourceUpdate::Free { id: removed@[j - old(queue)@.len()], ty }),
        decreases removed@.len() - k,
    {
        queue.push(ResourceUpdate::Free { id: removed[k], ty });
        k = k + 1;
    }
    proof {
        assert forall|i: int|
            0 <= i < old(reg)@.len() && old(reg).live(i) && !reg.live(i) implies (exists|j: int|
            old(queue)@.len() <= j < queue@.len() && (#[trigger] queue@[j])
                == (ResourceUpdate::Free { id: i as usize, ty })) by {
            assert(crate::util::contains_id(removed@, i));
            let k2 = choose|k2: int| 0 <= k2 < removed@.len() && removed@[k2] == i;
            assert(queue@[old(queue)@.len() + k2] == (ResourceUpdate::Free {
                id: i as usize,
                ty,
            }));
        }
    }
}

impl GfxCtx {
    /// Builds a shader configuration pairing a shader with one material
    /// instance per slot, usable for drawing this frame.
    pub fn shader_cfg(&self, shader: &Shader, material_cfgs: Vec<MaterialCfg>) -> (r: ShaderCfg)
        ensures
            r.shader == shader.id,
            r.materials@.len() == material_cfgs@.len(),
            forall|k: int|
                0 <= k < material_cfgs@.len() ==> r.materials@[k] == (#[trigger] material_cfgs@[k]).raw,
    {
        let mut cfgs = material_cfgs;
        let mut materials: Vec<MaterialRaw> = Vec::new();
        let ghost all = cfgs@;
        while cfgs.len() > 0
            invariant
                materials@.len() + cfgs@.len() == all.len(),
                forall|k: int|
                    0 <= k < materials@.len() ==> materials@[k] == (#[trigger] all[k]).raw,
                forall|k: int|
                    0 <= k < cfgs@.len() ==> cfgs@[k] == all[materials@.len() + k],
            decreases cfgs@.len(),
        {
            let c = cfgs.remove(0);
            materials.push(c.raw);
        }
        ShaderCfg { shader: shader.id, materials }
    }

    /// Begins a new logical frame: records the window extent, optionally
    /// resets the per-frame state, and sweeps every registry, enqueueing a
    /// free update for each resource whose handles are gone.  Which
    /// resources are swept depends on the handles still held outside, so
    /// the contract promises only what holds of every outcome: the queue
    /// grows only by free entries and registries only lose entries.
    pub fn start_update(&mut self, window_size: UVec2, reset_frame_data: bool)
        requires
            old(self).wf(),
        ensures
            final(self).wf(),
            final(self).window_canvas.id == old(self).window_canvas.id,
            final(self).window_canvas.size == window_size,
            reset_frame_data ==> final(self).frame_data.draw_cmd_queue@.len() == 0 && final(self).frame_data.vertices@.len() == 0 && final(self).frame_data.indices@.len() == 0
                && final(self).frame_data.uniforms@.len() == 0 && final(self).frame_data.current_pipeline == ID_NONE && final(self).frame_data.next_id == 0 && (forall|k: int|
                0 <= k < final(self).frame_data.current_material_ids@.len() ==> final(self).frame_data.current_material_ids@[k] == ID_NONE),
            !reset_frame_data ==> final(self).frame_data.draw_cmd_queue == old(self).frame_data.draw_cmd_queue,
            ({
                let base = if reset_frame_data {
                    Seq::<ResourceUpdate>::empty()
                } else {
                    old(self).frame_data.resource_update_queue@
                };
                let q = final(self).frame_data.resource_update_queue@;
                &&& q.len() >= base.len()
                &&& forall|j: int| 0 <= j < base.len() ==> q[j] == base[j]
                // every appended entry frees one id whose registry entry of
                // that category went dead during this sweep
                &&& forall|j: int|
                    base.len() <= j < q.len() ==> ((#[trigger] q[j]) matches ResourceUpdate::Free {
                        id,
                        ty,
                    } && spec_registry_went_dead(*old(self), *final(self), ty, id as int))
                // every id a category's sweep cleared is freed
                &&& forall|ty: ResourceFreeType, i: int|
                    spec_registry_went_dead(*old(self), *final(self), ty, i) ==> (exists|j: int|
                        base.len() <= j < q.len() && (#[trigger] q[j])
                            == (ResourceUpdate::Free { id: i as usize, ty }))
                // and exactly once: no two appended entries agree
                &&& forall|j1: int, j2: int|
                    base.len() <= j1 < j2 < q.len() ==> (#[trigger] q[j1]) != (#[trigger] q[j2])
            }),
            final(self).resources.shaders@.len() == old(self).resources.shaders@.len(),
            final(self).resources.texture2ds@.len() == old(self).resources.texture2ds@.len(),
            final(self).resources.samplers@.len() == old(self).resources.samplers@.len(),
            final(self).resources.meshes@.len() == old(self).resources.meshes@.len(),
            final(self).resources.instances@.len() == old(self).resources.instances@.len(),
            final(self).resources.uniforms@.len() == old(self).resources.uniforms@.len(),
            final(self).resources.framebuffers@.len() == old(self).resources.framebuffers@.len(),
            forall|j: int|
                final(self).resources.shaders.live(j) ==> old(self).resources.shaders.live(j),
            forall|j: int|
                final(self).resources.framebuffers.live(j) ==> old(self).resources.framebuffers.live(j),
            forall|j: int|
                final(self).resources.meshes.live(j) ==> old(self).resources.meshes.live(j),
            forall|j: int|
                final(self).resources.instances.live(j) ==> old(self).resources.instances.live(j),
            forall|j: int|
                final(self).resources.samplers.live(j) ==> old(self).resources.samplers.live(j),
            forall|j: int|
                final(self).resources.texture2ds.live(j) ==> old(self).resources.texture2ds.live(
                    j,
                ),
            forall|j: int|
                final(self).resources.uniforms.live(j) ==> old(self).resources.uniforms.live(j),
    {
        self.window_canvas.size = window_size;
        if reset_frame_data {
            self.frame_data.reset();
        }
        let ghost base = self.frame_data.resource_update_queue@;
        proof {
            if reset_frame_data {
                assert(base =~= Seq::<ResourceUpdate>::empty());
            }
        }
        sweep_registry(
            &mut self.resources.framebuffers,
            &mut self.frame_data.resource_update_queue,
            ResourceFreeType::Framebuffer,
        );
        let ghost q1 = self.frame_data.resource_update_queue@;
        sweep_registry(
            &mut self.resources.instances,
            &mut self.frame_data.resource_update_queue,
            ResourceFreeType::Instances,
        );
        let ghost q2 = self.frame_data.resource_update_queue@;
        sweep_registry(
            &mut self.resources.meshes,
            &mut self.frame_data.resource_update_queue,
            ResourceFreeType::Mesh,
        );
        let ghost q3 = self.frame_data.resource_update_queue@;
        sweep_registry(
            &mut self.resources.samplers,
            &mut self.frame_data.resource_update_queue,
            ResourceFreeType::Sampler,
        );
        let ghost q4 = self.frame_data.resource_update_queue@;
        sweep_registry(
            &mut self.resources.shaders,
            &mut self.frame_data.resource_update_queue,
            ResourceFreeType::Shader,
        );
        let ghost q5 = self.frame_data.resource_update_queue@;
        sweep_registry(
            &mut self.resources.texture2ds,
            &mut self.frame_data.resource_update_queue,
            ResourceFreeType::Texture2D,
        );
        let ghost q6 = self.frame_data.resource_update_queue@;
        sweep_registry(
            &mut self.resources.uniforms,
            &mut self.frame_data.resource_update_queue,
            ResourceFreeType::Uniform,
        );
        proof {
            let q = self.frame_data.resource_update_queue@;
            // the earlier stages' entries survive every later stage
            assert(forall|j: int| 0 <= j < q1.len() ==> q[j] == q1[j]);
            assert(forall|j: int| 0 <= j < q2.len() ==> q[j] == q2[j]);
            assert(forall|j: int| 0 <= j < q3.len() ==> q[j] == q3[j]);
            assert(forall|j: int| 0 <= j < q4.len() ==> q[j] == q4[j]);
            assert(forall|j: int| 0 <= j < q5.len() ==> q[j] == q5[j]);
            assert(forall|j: int| 0 <= j < q6.len() ==> q[j] == q6[j]);
            assert forall|j: int|
                base.len() <= j < q.len() implies ((#[trigger] q[j]) matches ResourceUpdate::Free {
                id,
                ty,
            } && spec_registry_went_dead(*old(self), *self, ty, id as int)) by {
                if j < q1.len() {
                    assert(q[j] == q1[j]);
                } else if j < q2.len() {
                    assert(q[j] == q2[j]);
                } else if j < q3.len() {
                    assert(q[j] == q3[j]);
                } else if j < q4.len() {
                    assert(q[j] == q4[j]);
                } else if j < q5.len() {
                    assert(q[j] == q5[j]);
                } else if j < q6.len() {
                    assert(q[j] == q6[j]);
                }
            }
            assert forall|ty: ResourceFreeType, i: int|
                spec_registry_went_dead(*old(self), *self, ty, i) implies (exists|j: int|
                base.len() <= j < q.len() && (#[trigger] q[j]) == (ResourceUpdate::Free {
                    id: i as usize,
                    ty,
                })) by {
                match ty {
                    ResourceFreeType::Framebuffer => {
                        let j = choose|j: int|
                            base.len() <= j < q1.len() && q1[j] == (ResourceUpdate::Free {
                                id: i as usize,
                                ty,
                            });
                        assert(q[j] == q1[j]);
                    },
                    ResourceFreeType::Instances => {
                        let j = choose|j: int|
                            q1.len() <= j < q2.len() && q2[j] == (ResourceUpdate::Free {
                                id: i as usize,
                                ty,
                            });
                        assert(q[j] == q2[j]);
                    },
                    ResourceFreeType::Mesh => {
                        let j = choose|j: int|
                            q2.len() <= j < q3.len() && q3[j] == (ResourceUpdate::Free {
                                id: i as usize,
                                ty,
                            });
                        assert(q[j] == q3[j]);
                    },
                    ResourceFreeType::Sampler => {
                        let j = choose|j: int|
                            q3.len() <= j < q4.len() && q4[j] == (ResourceUpdate::Free {
                                id: i as usize,
                                ty,
                            });
                        assert(q[j] == q4[j]);
                    },
                    ResourceFreeType::Shader => {
                        let j = choose|j: int|
                            q4.len() <= j < q5.len() && q5[j] == (ResourceUpdate::Free {
                                id: i as usize,
                                ty,
                            });
                        assert(q[j] == q5[j]);
                    },
                    ResourceFreeType::Texture2D => {
                        let j = choose|j: int|
                            q5.len() <= j < q6.len() && q6[j] == (ResourceUpdate::Free {
                                id: i as usize,
                                ty,
                            });
                        assert(q[j] == q6[j]);
                    },
                    ResourceFreeType::Uniform => {
                        let j = choose|j: int|
                            q6.len() <= j < q.len() && q[j] == (ResourceUpdate::Free {
                                id: i as usize,
                                ty,
                            });
                    },
                }
            }
            assert forall|j1: int, j2: int|
                base.len() <= j1 < j2 < q.len() implies (#[trigger] q[j1]) != (
            #[trigger] q[j2]) by {
                if j1 < q1.len() {
                    assert(q[j1] == q1[j1]);
                } else if j1 < q2.len() {
                    assert(q[j1] == q2[j1]);
                } else if j1 < q3.len() {
                    assert(q[j1] == q3[j1]);
                } else if j1 < q4.len() {
                    assert(q[j1] == q4[j1]);
                } else if j1 < q5.len() {
                    assert(q[j1] == q5[j1]);
                } else if j1 < q6.len() {
                    assert(q[j1] == q6[j1]);
                }
                if j2 < q1.len() {
                    assert(q[j2] == q1[j2]);
                } else if j2 < q2.len() {
                    assert(q[j2] == q2[j2]);
                } else if j2 < q3.len() {
                    assert(q[j2] == q3[j2]);
                } else if j2 < q4.len() {
                    assert(q[j2] == q4[j2]);
                } else if j2 < q5.len() {
                    assert(q[j2] == q5[j2]);
                } else if j2 < q6.len() {
                    assert(q[j2] == q6[j2]);
                }
            }
        }
    }
}

} // verus!

verus! {

/// A rendering backend: consumes everything the context accumulated for
/// one frame and performs it.
pub trait GfxBackend {
    /// Renders one frame from the context's queues and scratch buffers.
    fn render(&mut self, c: &mut GfxCtx);
}

} // verus!
