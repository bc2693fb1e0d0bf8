//! Per-frame orchestration: double-buffered frame resource sets, draining
//! the resource-update queue into a packed staging plan with the required
//! layout barriers, and deferred destruction gated on frame parity.
//!
//! Each of the two frame resource sets is reused only after its fence
//! signals; the destroy queue of a parity is drained exactly then, so the
//! GPU is provably finished with every object in it.  A buffer retired by a
//! growth reallocation goes through the same queue.

use vstd::prelude::*;

use crate::buffer::{GpuBuffer, MemoryKind};
use crate::geom::UVec3;
use crate::gpu_texture::{SamplerDefinition, Texture2DMeta};
use crate::mesh::MeshBytes;
use crate::image::{
    GpuImage, ImageFormat, ImageLayout, ImageMemoryBarrier, ACCESS_DEPTH_STENCIL_ATTACHMENT_READ,
    ACCESS_DEPTH_STENCIL_ATTACHMENT_WRITE, ACCESS_SHADER_READ, ACCESS_TRANSFER_WRITE,
};
use crate::pipeline::{
    build_pipeline, spec_fs_code, spec_sections, spec_total_attrs, spec_vs_code, spirv_of,
    CompiledPipeline, GfxPipeline, ShaderError,
};
use crate::replay::{fbs_steady, GpuFramebuffer, ImageRef, InstancesRes, MeshRes};
use crate::resource::{ResourceFreeType, ResourceUpdate};
use crate::shader::ShaderFullDefinition;
use crate::util::{spec_align_up, SparseVec};

verus! {

/// Buffer usage bits, matching the native API's values.
pub const BUFFER_USAGE_TRANSFER_SRC: u32 = 0x1;

pub const BUFFER_USAGE_TRANSFER_DST: u32 = 0x2;

pub const BUFFER_USAGE_UNIFORM: u32 = 0x10;

pub const BUFFER_USAGE_INDEX: u32 = 0x40;

pub const BUFFER_USAGE_VERTEX: u32 = 0x80;

/// Byte alignment of each packed staging payload.
pub const STAGING_BUFFER_ALIGN: usize = 64;

/// A GPU object whose handles are gone, parked until the frame fence that
/// could still reference it has signaled.
pub enum Destroyable {
    GfxPipeline(GfxPipeline),
    Texture2D(GpuImage),
    Sampler(SamplerDefinition),
    Mesh(MeshRes),
    Instances(InstancesRes),
    Uniform(GpuBuffer),
    FrameBuffer(GpuFramebuffer),
    Buffer(GpuBuffer),
}

/// Destination of one staging copy.
#[derive(Clone, Copy, PartialEq, Eq, Structural, Debug)]
pub enum StagingDest {
    /// Fill an image (a new texture or framebuffer color target).
    Image(ImageRef),
    /// Fill a persistent mesh vertex buffer.
    MeshVertexBuffer(usize),
    /// Fill a persistent mesh index buffer.
    MeshIndexBuffer(usize),
    /// Fill a persistent instance buffer.
    InstanceBuffer(usize),
    /// Fill a persistent uniform buffer.
    UniformBuffer(usize),
}

/// One byte payload packed into the staging buffer at an aligned offset.
pub struct StagingCopy {
    pub bytes: Vec<u8>,
    pub offset: usize,
    pub dest: StagingDest,
}

/// One native object creation the unverified layer must realize.
pub enum NativeCreate {
    Pipeline { id: usize, compiled: CompiledPipeline },
    Texture2D { id: usize, meta: Texture2DMeta },
    Sampler { id: usize, def: SamplerDefinition },
    Mesh { id: usize, vertex_size: usize, index_size: usize, has_indices: bool },
    Instances { id: usize, size: usize },
    UniformBuffer { id: usize, size: usize },
    Framebuffer { id: usize, meta: Texture2DMeta },
}

/// One ordered lifecycle operation of the drained update queue.
pub enum PlanOp {
    Create(NativeCreate),
    Free { ty: ResourceFreeType, id: usize },
}

/// Everything the unverified layer executes for one frame's resource
/// updates: the ordered create/free operations, the packed staging plan,
/// the layout barriers to record before and after the copies, and the
/// images to clear.
pub struct UpdatePlan {
    pub ops: Vec<PlanOp>,
    pub staging_copies: Vec<StagingCopy>,
    pub staging_size: usize,
    pub transfer_dst_barriers: Vec<(ImageRef, ImageMemoryBarrier)>,
    pub shader_read_barriers: Vec<(ImageRef, ImageMemoryBarrier)>,
    pub depth_attachment_barriers: Vec<(ImageRef, ImageMemoryBarrier)>,
    pub color_image_clears: Vec<ImageRef>,
    pub depth_image_clears: Vec<ImageRef>,
}

/// The staging plan is packed: the first payload starts at zero, each next
/// payload starts at the aligned end of the one before it, and the total
/// size is the aligned end of the last.
pub open spec fn staging_wf(copies: Seq<StagingCopy>, size: nat) -> bool {
    &&& copies.len() > 0 ==> copies[0].offset == 0
    &&& forall|k: int|
        0 <= k < copies.len() - 1 ==> (#[trigger] copies[k + 1]).offset == spec_align_up(
            (copies[k].offset + copies[k].bytes@.len()) as nat,
            STAGING_BUFFER_ALIGN as nat,
        )
    &&& copies.len() == 0 ==> size == 0
    &&& copies.len() > 0 ==> size == spec_align_up(
        (copies.last().offset + copies.last().bytes@.len()) as nat,
        STAGING_BUFFER_ALIGN as nat,
    )
}

/// One payload of a packed staging plan ends at or below the total size.
proof fn lemma_staging_end_le(copies: Seq<StagingCopy>, size: nat, j: int)
    requires
        staging_wf(copies, size),
        0 <= j < copies.len(),
    ensures
        copies[j].offset + copies[j].bytes@.len() <= size,
    decreases copies.len() - j,
{
    if j == copies.len() - 1 {
        assert(size == spec_align_up(
            (copies.last().offset + copies.last().bytes@.len()) as nat,
            STAGING_BUFFER_ALIGN as nat,
        ));
    } else {
        assert(copies[j + 1].offset == spec_align_up(
            (copies[j].offset + copies[j].bytes@.len()) as nat,
            STAGING_BUFFER_ALIGN as nat,
        ));
        lemma_staging_end_le(copies, size, j + 1);
    }
}

/// In a packed staging plan, payloads never overlap: each one ends at or
/// before the next one starts, and every one fits below the total size.
pub proof fn lemma_staging_no_overlap(copies: Seq<StagingCopy>, size: nat)
    requires
        staging_wf(copies, size),
    ensures
        forall|j: int|
            0 <= j < copies.len() - 1 ==> (#[trigger] copies[j]).offset + copies[j].bytes@.len()
                <= copies[j + 1].offset,
        forall|j: int|
            0 <= j < copies.len() ==> (#[trigger] copies[j]).offset + copies[j].bytes@.len()
                <= size,
{
    assert forall|j: int|
        0 <= j < copies.len() - 1 implies (#[trigger] copies[j]).offset + copies[j].bytes@.len()
        <= copies[j + 1].offset by {
        assert(copies[j + 1].offset == spec_align_up(
            (copies[j].offset + copies[j].bytes@.len()) as nat,
            STAGING_BUFFER_ALIGN as nat,
        ));
    }
    assert forall|j: int|
        0 <= j < copies.len() implies (#[trigger] copies[j]).offset + copies[j].bytes@.len()
        <= size by {
        lemma_staging_end_le(copies, size, j);
    }
}

/// Appends one payload to the staging plan at the current aligned end.
fn add_staging_payload(
    copies: &mut Vec<StagingCopy>,
    size: &mut usize,
    bytes: Vec<u8>,
    dest: StagingDest,
)
    requires
        staging_wf(old(copies)@, *old(size) as nat),
        spec_align_up(
            (*old(size) + bytes@.len()) as nat,
            STAGING_BUFFER_ALIGN as nat,
        ) <= usize::MAX,
    ensures
        final(copies)@.len() == old(copies)@.len() + 1,
        final(copies)@.last().offset == *old(size),
        final(copies)@.last().bytes@ == bytes@,
        final(copies)@.last().dest == dest,
        forall|k: int| 0 <= k < old(copies)@.len() ==> final(copies)@[k] == old(copies)@[k],
        *final(size) == spec_align_up((*old(size) + bytes@.len()) as nat, STAGING_BUFFER_ALIGN as nat),
        staging_wf(final(copies)@, *final(size) as nat),
{
    let len = bytes.len();
    copies.push(StagingCopy { bytes, offset: *size, dest });
    *size = crate::util::align_up(*size + len, STAGING_BUFFER_ALIGN);
}

/// One of exactly two frame resource sets: the per-frame staging and
/// immediate-mode scratch buffers (the command buffer, descriptor pool,
/// semaphores and fence live with the unverified layer, keyed by parity).
pub struct FrameResources {
    pub staging_buffer: GpuBuffer,
    pub vertex_buffer: GpuBuffer,
    pub index_buffer: GpuBuffer,
    pub uniform_buffer: GpuBuffer,
}

impl FrameResources {
    /// Creates the set with its initial scratch capacities.
    pub fn new() -> (r: FrameResources)
        ensures
            r.staging_buffer.capacity == 4194304,
            r.staging_buffer.usage == BUFFER_USAGE_TRANSFER_SRC,
            r.staging_buffer.mem_kind == MemoryKind::PreferHost,
            r.vertex_buffer.capacity == 4194304,
            r.vertex_buffer.usage == BUFFER_USAGE_VERTEX,
            r.index_buffer.capacity == 2097152,
            r.index_buffer.usage == BUFFER_USAGE_INDEX,
            r.uniform_buffer.capacity == 2097152,
            r.uniform_buffer.usage == BUFFER_USAGE_UNIFORM,
    {
        FrameResources {
            staging_buffer: GpuBuffer::new(
                4194304,
                BUFFER_USAGE_TRANSFER_SRC,
                MemoryKind::PreferHost,
            ),
            vertex_buffer: GpuBuffer::new(4194304, BUFFER_USAGE_VERTEX, MemoryKind::PreferHost),
            index_buffer: GpuBuffer::new(2097152, BUFFER_USAGE_INDEX, MemoryKind::PreferHost),
            uniform_buffer: GpuBuffer::new(2097152, BUFFER_USAGE_UNIFORM, MemoryKind::PreferHost),
        }
    }
}

/// Number of `Free` entries in an update list.
pub open spec fn count_frees(us: Seq<ResourceUpdate>) -> nat
    decreases us.len(),
{
    if us.len() == 0 {
        0
    } else {
        count_frees(us.drop_last()) + match us.last() {
            ResourceUpdate::Free { .. } => 1nat,
            _ => 0nat,
        }
    }
}

/// A shader definition that the pipeline factory accepts: its source holds
/// the three sections and both assembled stages lower successfully.
pub open spec fn shader_compiles(def: ShaderFullDefinition) -> bool {
    &&& spec_sections(def.partial.code@) is Some
    &&& spirv_of(spec_vs_code(def), true) is Some
    &&& spirv_of(spec_fs_code(def), false) is Some
}

/// One drained update corresponds to one planned operation with the same
/// id and kind; a shader creation carries the compiled pipeline pinned to
/// its definition.
pub open spec fn op_matches(u: ResourceUpdate, op: PlanOp) -> bool {
    match u {
        ResourceUpdate::CreateShader { id, def } => op matches PlanOp::Create(
            NativeCreate::Pipeline { id: oid, compiled },
        ) && oid == id && compiled.vs_code@ == spec_vs_code(*def) && compiled.fs_code@
            == spec_fs_code(*def) && Some(compiled.vs_spirv@) == spirv_of(spec_vs_code(*def), true)
            && Some(compiled.fs_spirv@) == spirv_of(spec_fs_code(*def), false),
        ResourceUpdate::CreateTexture2D { id, meta, .. } => op matches PlanOp::Create(
            NativeCreate::Texture2D { id: oid, meta: m },
        ) && oid == id && m == meta,
        ResourceUpdate::CreateMesh { id, data } => op matches PlanOp::Create(
            NativeCreate::Mesh { id: oid, vertex_size, index_size, has_indices },
        ) && oid == id && vertex_size == data.vertex_bytes@.len() && has_indices
            == data.indices is Some,
        ResourceUpdate::CreateInstances { id, data } => op matches PlanOp::Create(
            NativeCreate::Instances { id: oid, size },
        ) && oid == id && size == data.bytes@.len(),
        ResourceUpdate::CreateUniform { id, data } => op matches PlanOp::Create(
            NativeCreate::UniformBuffer { id: oid, size },
        ) && oid == id && size == data@.len(),
        ResourceUpdate::CreateFramebuffer { id, meta } => op matches PlanOp::Create(
            NativeCreate::Framebuffer { id: oid, meta: m },
        ) && oid == id && m == meta,
        ResourceUpdate::CreateSampler { id, def } => op matches PlanOp::Create(
            NativeCreate::Sampler { id: oid, def: d },
        ) && oid == id && d == def,
        ResourceUpdate::Free { id, ty } => op matches PlanOp::Free { ty: oty, id: oid } && oid
            == id && oty == ty,
    }
}

} // verus!

verus! {

/// A buffer after a growth request: unchanged when `n` already fits, else
/// with the capacity the growth policy assigns.
pub open spec fn spec_grown(b: GpuBuffer, n: usize) -> GpuBuffer {
    GpuBuffer { capacity: crate::buffer::spec_expanded(b.capacity as nat, n as nat) as usize, ..b }
}

/// What one growth request retires: the old allocation exactly when the
/// request did not fit and forced a reallocation, else nothing.
pub open spec fn spec_retired(b: GpuBuffer, n: usize) -> Seq<Destroyable> {
    if n > b.capacity {
        seq![Destroyable::Buffer(b)]
    } else {
        Seq::empty()
    }
}

/// The backend's realized-resource tables, the two frame resource sets,
/// the per-parity destroy queues, and the frame parity.
pub struct BackendState {
    pub pipelines: SparseVec<GfxPipeline>,
    pub texture_2ds: SparseVec<GpuImage>,
    pub samplers: SparseVec<SamplerDefinition>,
    pub meshes: SparseVec<MeshRes>,
    pub instances: SparseVec<InstancesRes>,
    pub uniforms: SparseVec<GpuBuffer>,
    pub framebuffers: SparseVec<GpuFramebuffer>,
    pub frame_even: FrameResources,
    pub frame_odd: FrameResources,
    pub destroy_even: Vec<Destroyable>,
    pub destroy_odd: Vec<Destroyable>,
    pub even_frame: bool,
}

impl BackendState {
    /// The destroy queue of a parity.
    pub open spec fn spec_destroy_queue(&self, even: bool) -> Seq<Destroyable> {
        if even {
            self.destroy_even@
        } else {
            self.destroy_odd@
        }
    }

    /// Creates the backend with empty tables, fresh frame resource sets and
    /// empty destroy queues.
    pub fn new() -> (r: BackendState)
        ensures
            r.pipelines@.len() == 0,
            r.texture_2ds@.len() == 0,
            r.samplers@.len() == 0,
            r.meshes@.len() == 0,
            r.instances@.len() == 0,
            r.uniforms@.len() == 0,
            r.framebuffers@.len() == 0,
            r.destroy_even@.len() == 0,
            r.destroy_odd@.len() == 0,
            !r.even_frame,
            fbs_steady(r.framebuffers@),
    {
        BackendState {
            pipelines: SparseVec::new(),
            texture_2ds: SparseVec::new(),
            samplers: SparseVec::new(),
            meshes: SparseVec::new(),
            instances: SparseVec::new(),
            uniforms: SparseVec::new(),
            framebuffers: SparseVec::new(),
            frame_even: FrameResources::new(),
            frame_odd: FrameResources::new(),
            destroy_even: Vec::new(),
            destroy_odd: Vec::new(),
            even_frame: false,
        }
    }

    /// Number of objects parked in a parity's destroy queue.
    pub fn destroy_queue_len(&self, even: bool) -> (r: usize)
        ensures
            r == self.spec_destroy_queue(even).len(),
    {
        if even {
            self.destroy_even.len()
        } else {
            self.destroy_odd.len()
        }
    }

    /// Starts this parity's frame, after the unverified layer has waited on
    /// and reset this parity's fence: drains this parity's destroy queue
    /// and hands the parked objects out for native destruction.  They are
    /// provably no longer referenced, because the fence that has just
    /// signaled gated the last frame that could have recorded them.  The
    /// other parity's queue is untouched.
    pub fn begin_frame(&mut self) -> (drained: Vec<Destroyable>)
        ensures
            drained@ == old(self).spec_destroy_queue(old(self).even_frame),
            final(self).spec_destroy_queue(final(self).even_frame).len() == 0,
            final(self).spec_destroy_queue(!final(self).even_frame) == old(self).spec_destroy_queue(
                !old(self).even_frame,
            ),
            final(self).even_frame == old(self).even_frame,
            final(self).pipelines == old(self).pipelines,
            final(self).texture_2ds == old(self).texture_2ds,
            final(self).samplers == old(self).samplers,
            final(self).meshes == old(self).meshes,
            final(self).instances == old(self).instances,
            final(self).uniforms == old(self).uniforms,
            final(self).framebuffers == old(self).framebuffers,
            final(self).frame_even == old(self).frame_even,
            final(self).frame_odd == old(self).frame_odd,
    {
        let mut drained: Vec<Destroyable> = Vec::new();
        if self.even_frame {
            std::mem::swap(&mut drained, &mut self.destroy_even);
        } else {
            std::mem::swap(&mut drained, &mut self.destroy_odd);
        }
        drained
    }

    /// Ends this parity's frame, after the unverified layer has submitted
    /// it: flips the frame parity.
    pub fn end_frame(&mut self)
        ensures
            final(self).even_frame == !old(self).even_frame,
            final(self).destroy_even == old(self).destroy_even,
            final(self).destroy_odd == old(self).destroy_odd,
            final(self).pipelines == old(self).pipelines,
            final(self).texture_2ds == old(self).texture_2ds,
            final(self).samplers == old(self).samplers,
            final(self).meshes == old(self).meshes,
            final(self).instances == old(self).instances,
            final(self).uniforms == old(self).uniforms,
            final(self).framebuffers == old(self).framebuffers,
            final(self).frame_even == old(self).frame_even,
            final(self).frame_odd == old(self).frame_odd,
    {
        self.even_frame = !self.even_frame;
    }

    /// Grows this parity's scratch buffers to fit the frame's staging and
    /// immediate-mode bytes.  A buffer that had to be reallocated is
    /// retired through this parity's destroy queue rather than dropped, so
    /// no in-flight work can reference a freed allocation.
    pub fn fit_frame_buffers(
        &mut self,
        staging_size: usize,
        vertex_size: usize,
        index_size: usize,
        uniform_size: usize,
    )
        ensures
            final(self).even_frame == old(self).even_frame,
            ({
                let fr = if old(self).even_frame {
                    final(self).frame_even
                } else {
                    final(self).frame_odd
                };
                let fro = if old(self).even_frame {
                    old(self).frame_even
                } else {
                    old(self).frame_odd
                };
                &&& fr.staging_buffer == spec_grown(fro.staging_buffer, staging_size)
                &&& fr.vertex_buffer == spec_grown(fro.vertex_buffer, vertex_size)
                &&& fr.index_buffer == spec_grown(fro.index_buffer, index_size)
                &&& fr.uniform_buffer == spec_grown(fro.uniform_buffer, uniform_size)
                &&& fr.staging_buffer.capacity >= staging_size
                &&& fr.vertex_buffer.capacity >= vertex_size
                &&& fr.index_buffer.capacity >= index_size
                &&& fr.uniform_buffer.capacity >= uniform_size
            }),
            (if old(self).even_frame {
                final(self).frame_odd == old(self).frame_odd
            } else {
                final(self).frame_even == old(self).frame_even
            }),
            final(self).spec_destroy_queue(!old(self).even_frame) == old(self).spec_destroy_queue(
                !old(self).even_frame,
            ),
            ({
                let fro = if old(self).even_frame {
                    old(self).frame_even
                } else {
                    old(self).frame_odd
                };
                final(self).spec_destroy_queue(old(self).even_frame) == old(
                    self,
                ).spec_destroy_queue(old(self).even_frame) + spec_retired(
                    fro.staging_buffer,
                    staging_size,
                ) + spec_retired(fro.vertex_buffer, vertex_size) + spec_retired(
                    fro.index_buffer,
                    index_size,
                ) + spec_retired(fro.uniform_buffer, uniform_size)
            }),
            final(self).pipelines == old(self).pipelines,
            final(self).texture_2ds == old(self).texture_2ds,
            final(self).meshes == old(self).meshes,
            final(self).instances == old(self).instances,
            final(self).uniforms == old(self).uniforms,
            final(self).framebuffers == old(self).framebuffers,
            final(self).samplers == old(self).samplers,
    {
        let even = self.even_frame;
        let fr = if even {
            &mut self.frame_even
        } else {
            &mut self.frame_odd
        };
        let old_staging = fr.staging_buffer;
        let old_vertex = fr.vertex_buffer;
        let old_index = fr.index_buffer;
        let old_uniform = fr.uniform_buffer;
        let r1 = fr.staging_buffer.expand_to_fit(staging_size);
        let r2 = fr.vertex_buffer.expand_to_fit(vertex_size);
        let r3 = fr.index_buffer.expand_to_fit(index_size);
        let r4 = fr.uniform_buffer.expand_to_fit(uniform_size);
        let dq = if even {
            &mut self.destroy_even
        } else {
            &mut self.destroy_odd
        };
        if r1 {
            dq.push(Destroyable::Buffer(old_staging));
        }
        if r2 {
            dq.push(Destroyable::Buffer(old_vertex));
        }
        if r3 {
            dq.push(Destroyable::Buffer(old_index));
        }
        if r4 {
            dq.push(Destroyable::Buffer(old_uniform));
        }
    }
}

} // verus!

verus! {

/// Byte payloads one update packs into the staging buffer, applied to a
/// running aligned size.
pub open spec fn spec_staging_step(s: nat, u: ResourceUpdate) -> nat {
    let a = STAGING_BUFFER_ALIGN as nat;
    match u {
        ResourceUpdate::CreateTexture2D { bytes, .. } => spec_align_up((s + bytes@.len()) as nat, a),
        ResourceUpdate::CreateMesh { data, .. } => {
            let after_vertex = spec_align_up((s + data.vertex_bytes@.len()) as nat, a);
            match data.indices {
                Some(ix) => spec_align_up((after_vertex + ix.bytes@.len()) as nat, a),
                None => after_vertex,
            }
        },
        ResourceUpdate::CreateInstances { data, .. } => spec_align_up(
            (s + data.bytes@.len()) as nat,
            a,
        ),
        ResourceUpdate::CreateUniform { data, .. } => spec_align_up((s + data@.len()) as nat, a),
        _ => s,
    }
}

/// The staging size after the updates from position `i` onward, starting
/// from size `s`.
pub open spec fn spec_staging_after(us: Seq<ResourceUpdate>, i: int, s: nat) -> nat
    decreases us.len() - i,
{
    if i < 0 || i >= us.len() {
        s
    } else {
        spec_staging_after(us, i + 1, spec_staging_step(s, us[i]))
    }
}

/// Packing never shrinks the running size.
proof fn lemma_staging_after_monotonic(us: Seq<ResourceUpdate>, i: int, s: nat)
    requires
        0 <= i <= us.len(),
    ensures
        spec_staging_after(us, i, s) >= s,
    decreases us.len() - i,
{
    if i < us.len() {
        lemma_staging_after_monotonic(us, i + 1, spec_staging_step(s, us[i]));
    }
}

/// The barrier moving a freshly created image into transfer-dst for its
/// upload or clear.
pub open spec fn spec_to_transfer_barrier() -> ImageMemoryBarrier {
    ImageMemoryBarrier {
        old_layout: ImageLayout::Undefined,
        new_layout: ImageLayout::TransferDst,
        src_access_mask: crate::image::ACCESS_NONE,
        dst_access_mask: ACCESS_TRANSFER_WRITE,
    }
}

/// The barrier moving an uploaded image into its sampled steady state.
pub open spec fn spec_to_sampled_barrier() -> ImageMemoryBarrier {
    ImageMemoryBarrier {
        old_layout: ImageLayout::TransferDst,
        new_layout: ImageLayout::ShaderReadOnly,
        src_access_mask: ACCESS_TRANSFER_WRITE,
        dst_access_mask: ACCESS_SHADER_READ,
    }
}

/// The barrier moving a cleared depth image into its attachment state.
pub open spec fn spec_to_depth_attachment_barrier() -> ImageMemoryBarrier {
    ImageMemoryBarrier {
        old_layout: ImageLayout::TransferDst,
        new_layout: ImageLayout::DepthStencilAttachment,
        src_access_mask: ACCESS_TRANSFER_WRITE,
        dst_access_mask: ACCESS_DEPTH_STENCIL_ATTACHMENT_READ
            | ACCESS_DEPTH_STENCIL_ATTACHMENT_WRITE,
    }
}

/// The transfer-destination barriers the updates record, in order: each
/// created texture's image, and each created framebuffer's color then
/// depth image, moves from undefined into transfer-dst.
pub open spec fn spec_transfer_barriers(us: Seq<ResourceUpdate>, i: int) -> Seq<
    (ImageRef, ImageMemoryBarrier),
>
    decreases us.len() - i,
{
    if i < 0 || i >= us.len() {
        Seq::empty()
    } else {
        (match us[i] {
            ResourceUpdate::CreateTexture2D { id, .. } => seq![
                (ImageRef::Texture(id), spec_to_transfer_barrier()),
            ],
            ResourceUpdate::CreateFramebuffer { id, .. } => seq![
                (ImageRef::FramebufferColor(id), spec_to_transfer_barrier()),
                (ImageRef::FramebufferDepth(id), spec_to_transfer_barrier()),
            ],
            _ => Seq::<(ImageRef, ImageMemoryBarrier)>::empty(),
        }) + spec_transfer_barriers(us, i + 1)
    }
}

/// The steady-state barriers the updates record after their uploads: each
/// created texture's image and framebuffer's color image becomes
/// shader-readable.
pub open spec fn spec_shader_read_barriers(us: Seq<ResourceUpdate>, i: int) -> Seq<
    (ImageRef, ImageMemoryBarrier),
>
    decreases us.len() - i,
{
    if i < 0 || i >= us.len() {
        Seq::empty()
    } else {
        (match us[i] {
            ResourceUpdate::CreateTexture2D { id, .. } => seq![
                (ImageRef::Texture(id), spec_to_sampled_barrier()),
            ],
            ResourceUpdate::CreateFramebuffer { id, .. } => seq![
                (ImageRef::FramebufferColor(id), spec_to_sampled_barrier()),
            ],
            _ => Seq::<(ImageRef, ImageMemoryBarrier)>::empty(),
        }) + spec_shader_read_barriers(us, i + 1)
    }
}

/// The depth-attachment barriers the updates record: each created
/// framebuffer's depth image enters its attachment state after its clear.
pub open spec fn spec_depth_barriers(us: Seq<ResourceUpdate>, i: int) -> Seq<
    (ImageRef, ImageMemoryBarrier),
>
    decreases us.len() - i,
{
    if i < 0 || i >= us.len() {
        Seq::empty()
    } else {
        (match us[i] {
            ResourceUpdate::CreateFramebuffer { id, .. } => seq![
                (ImageRef::FramebufferDepth(id), spec_to_depth_attachment_barrier()),
            ],
            _ => Seq::<(ImageRef, ImageMemoryBarrier)>::empty(),
        }) + spec_depth_barriers(us, i + 1)
    }
}

/// The color images the updates clear: each created framebuffer's color
/// target.
pub open spec fn spec_color_clears(us: Seq<ResourceUpdate>, i: int) -> Seq<ImageRef>
    decreases us.len() - i,
{
    if i < 0 || i >= us.len() {
        Seq::empty()
    } else {
        (match us[i] {
            ResourceUpdate::CreateFramebuffer { id, .. } => seq![ImageRef::FramebufferColor(id)],
            _ => Seq::<ImageRef>::empty(),
        }) + spec_color_clears(us, i + 1)
    }
}

/// The depth images the updates clear: each created framebuffer's depth
/// target.
pub open spec fn spec_depth_clears(us: Seq<ResourceUpdate>, i: int) -> Seq<ImageRef>
    decreases us.len() - i,
{
    if i < 0 || i >= us.len() {
        Seq::empty()
    } else {
        (match us[i] {
            ResourceUpdate::CreateFramebuffer { id, .. } => seq![ImageRef::FramebufferDepth(id)],
            _ => Seq::<ImageRef>::empty(),
        }) + spec_depth_clears(us, i + 1)
    }
}

/// No two updates free the same id of the same category.
pub open spec fn frees_distinct(us: Seq<ResourceUpdate>) -> bool {
    forall|j: int, k: int|
        0 <= j < k < us.len() ==> match (#[trigger] us[j], #[trigger] us[k]) {
            (
                ResourceUpdate::Free { id: id1, ty: ty1 },
                ResourceUpdate::Free { id: id2, ty: ty2 },
            ) => !(id1 == id2 && ty1 == ty2),
            _ => true,
        }
}

/// The byte payloads the updates pack into the staging buffer, in packing
/// order.
pub open spec fn spec_payload_bytes(us: Seq<ResourceUpdate>, i: int) -> Seq<Seq<u8>>
    decreases us.len() - i,
{
    if i < 0 || i >= us.len() {
        Seq::empty()
    } else {
        (match us[i] {
            ResourceUpdate::CreateTexture2D { bytes, .. } => seq![bytes@],
            ResourceUpdate::CreateMesh { data, .. } => seq![data.vertex_bytes@]
                + match data.indices {
                Some(ix) => seq![ix.bytes@],
                None => Seq::<Seq<u8>>::empty(),
            },
            ResourceUpdate::CreateInstances { data, .. } => seq![data.bytes@],
            ResourceUpdate::CreateUniform { data, .. } => seq![data@],
            _ => Seq::<Seq<u8>>::empty(),
        }) + spec_payload_bytes(us, i + 1)
    }
}

/// The staging destination of each packed payload, in packing order.
pub open spec fn spec_payload_dests(us: Seq<ResourceUpdate>, i: int) -> Seq<StagingDest>
    decreases us.len() - i,
{
    if i < 0 || i >= us.len() {
        Seq::empty()
    } else {
        (match us[i] {
            ResourceUpdate::CreateTexture2D { id, .. } => seq![
                StagingDest::Image(ImageRef::Texture(id)),
            ],
            ResourceUpdate::CreateMesh { id, data } => seq![StagingDest::MeshVertexBuffer(id)]
                + if data.indices is Some {
                seq![StagingDest::MeshIndexBuffer(id)]
            } else {
                Seq::<StagingDest>::empty()
            },
            ResourceUpdate::CreateInstances { id, .. } => seq![StagingDest::InstanceBuffer(id)],
            ResourceUpdate::CreateUniform { id, .. } => seq![StagingDest::UniformBuffer(id)],
            _ => Seq::<StagingDest>::empty(),
        }) + spec_payload_dests(us, i + 1)
    }
}

/// The updates only free resources their tables hold, and every id fits a
/// table index.
pub open spec fn updates_wf(us: Seq<ResourceUpdate>, b: BackendState) -> bool {
    forall|k: int|
        0 <= k < us.len() ==> match #[trigger] us[k] {
            ResourceUpdate::CreateShader { .. } => true,
            ResourceUpdate::CreateTexture2D { .. } => true,
            ResourceUpdate::CreateMesh { id, data } => data.n_vertices <= u32::MAX && (
            data.indices matches Some(ix) ==> ix.n <= u32::MAX),
            ResourceUpdate::CreateInstances { id, data } => data.n <= u32::MAX,
            ResourceUpdate::CreateUniform { .. } => true,
            ResourceUpdate::CreateFramebuffer { .. } => true,
            ResourceUpdate::CreateSampler { .. } => true,
            ResourceUpdate::Free { id, ty } => match ty {
                ResourceFreeType::Shader => b.pipelines.spec_get(id as int) is Some,
                ResourceFreeType::Texture2D => b.texture_2ds.spec_get(id as int) is Some,
                ResourceFreeType::Mesh => b.meshes.spec_get(id as int) is Some,
                ResourceFreeType::Instances => b.instances.spec_get(id as int) is Some,
                ResourceFreeType::Uniform => b.uniforms.spec_get(id as int) is Some,
                ResourceFreeType::Framebuffer => b.framebuffers.spec_get(id as int) is Some,
                ResourceFreeType::Sampler => b.samplers.spec_get(id as int) is Some,
            },
        }
}

/// Table lookup with out-of-range indices vacant.
pub open spec fn tab_get_opt<T>(s: Seq<Option<T>>, j: int) -> Option<T> {
    if 0 <= j < s.len() {
        s[j]
    } else {
        None
    }
}

/// The resource tables of the backend, as one mathematical value.
#[verifier::ext_equal]
pub struct BackendTables {
    pub pipelines: Seq<Option<GfxPipeline>>,
    pub texture_2ds: Seq<Option<GpuImage>>,
    pub samplers: Seq<Option<SamplerDefinition>>,
    pub meshes: Seq<Option<MeshRes>>,
    pub instances: Seq<Option<InstancesRes>>,
    pub uniforms: Seq<Option<GpuBuffer>>,
    pub framebuffers: Seq<Option<GpuFramebuffer>>,
}

/// The backend's current tables.
pub open spec fn spec_tables(b: BackendState) -> BackendTables {
    BackendTables {
        pipelines: b.pipelines@,
        texture_2ds: b.texture_2ds@,
        samplers: b.samplers@,
        meshes: b.meshes@,
        instances: b.instances@,
        uniforms: b.uniforms@,
        framebuffers: b.framebuffers@,
    }
}

/// A table after storing `v` at `id`, extending it with vacant slots as
/// needed.
pub open spec fn tab_insert<T>(s: Seq<Option<T>>, id: int, v: T) -> Seq<Option<T>> {
    Seq::new(
        if id + 1 > s.len() {
            (id + 1) as nat
        } else {
            s.len()
        },
        |j: int| if j == id {
            Some(v)
        } else if 0 <= j < s.len() {
            s[j]
        } else {
            None
        },
    )
}

/// A table after clearing the slot at `id`.
pub open spec fn tab_remove<T>(s: Seq<Option<T>>, id: int) -> Seq<Option<T>> {
    s.update(id, None)
}

/// The model pipeline a shader creation realizes.
pub open spec fn spec_created_pipeline(def: ShaderFullDefinition) -> GfxPipeline {
    GfxPipeline {
        material_slots: def.material_layouts@.len() as usize,
        n_variants: (crate::attribute::N_TEXTURE_FORMATS + 1) as usize,
    }
}

/// The model image a texture creation realizes: uploaded and left in its
/// sampled steady state.
pub open spec fn spec_created_texture(meta: Texture2DMeta) -> GpuImage {
    GpuImage {
        extent: UVec3 { x: meta.size.x, y: meta.size.y, z: 1 },
        format: ImageFormat::Format(meta.format),
        layout: ImageLayout::ShaderReadOnly,
        access_mask: ACCESS_SHADER_READ,
    }
}

/// The model framebuffer a creation realizes: its color image cleared and
/// left shader-readable, its depth image cleared and left in its
/// attachment state.
pub open spec fn spec_created_framebuffer(meta: Texture2DMeta) -> GpuFramebuffer {
    GpuFramebuffer {
        color: spec_created_texture(meta),
        depth: GpuImage {
            extent: UVec3 { x: meta.size.x, y: meta.size.y, z: 1 },
            format: ImageFormat::DepthStencil,
            layout: ImageLayout::DepthStencilAttachment,
            access_mask: ACCESS_DEPTH_STENCIL_ATTACHMENT_READ
                | ACCESS_DEPTH_STENCIL_ATTACHMENT_WRITE,
        },
        extent: meta.size,
        color_format_index: meta.format.spec_index() as usize,
    }
}

/// The model mesh a creation realizes.
pub open spec fn spec_created_mesh(data: MeshBytes) -> MeshRes {
    MeshRes {
        n_vertices: data.n_vertices as u32,
        has_indices: data.indices is Some,
        n_indices: match data.indices {
            Some(ix) => ix.n as u32,
            None => 0,
        },
        indices_are_u32: match data.indices {
            Some(ix) => ix.is_u32,
            None => false,
        },
    }
}

/// The model uniform buffer a creation realizes.
pub open spec fn spec_created_uniform(data: Seq<u8>) -> GpuBuffer {
    GpuBuffer {
        capacity: data.len() as usize,
        usage: BUFFER_USAGE_UNIFORM | BUFFER_USAGE_TRANSFER_DST,
        mem_kind: MemoryKind::PreferDevice,
    }
}

/// The tables after realizing one update: the matching table gains the
/// created model object at its id, or loses the freed id's entry.
pub open spec fn spec_update_step(t: BackendTables, u: ResourceUpdate) -> BackendTables {
    match u {
        ResourceUpdate::CreateShader { id, def } => BackendTables {
            pipelines: tab_insert(t.pipelines, id as int, spec_created_pipeline(*def)),
            ..t
        },
        ResourceUpdate::CreateTexture2D { id, meta, .. } => BackendTables {
            texture_2ds: tab_insert(t.texture_2ds, id as int, spec_created_texture(meta)),
            ..t
        },
        ResourceUpdate::CreateMesh { id, data } => BackendTables {
            meshes: tab_insert(t.meshes, id as int, spec_created_mesh(data)),
            ..t
        },
        ResourceUpdate::CreateInstances { id, data } => BackendTables {
            instances: tab_insert(t.instances, id as int, InstancesRes { n: data.n as u32 }),
            ..t
        },
        ResourceUpdate::CreateUniform { id, data } => BackendTables {
            uniforms: tab_insert(t.uniforms, id as int, spec_created_uniform(data@)),
            ..t
        },
        ResourceUpdate::CreateFramebuffer { id, meta } => BackendTables {
            framebuffers: tab_insert(t.framebuffers, id as int, spec_created_framebuffer(meta)),
            ..t
        },
        ResourceUpdate::CreateSampler { id, def } => BackendTables {
            samplers: tab_insert(t.samplers, id as int, def),
            ..t
        },
        ResourceUpdate::Free { id, ty } => match ty {
            ResourceFreeType::Shader => BackendTables {
                pipelines: tab_remove(t.pipelines, id as int),
                ..t
            },
            ResourceFreeType::Texture2D => BackendTables {
                texture_2ds: tab_remove(t.texture_2ds, id as int),
                ..t
            },
            ResourceFreeType::Mesh => BackendTables { meshes: tab_remove(t.meshes, id as int), ..t },
            ResourceFreeType::Instances => BackendTables {
                instances: tab_remove(t.instances, id as int),
                ..t
            },
            ResourceFreeType::Uniform => BackendTables {
                uniforms: tab_remove(t.uniforms, id as int),
                ..t
            },
            ResourceFreeType::Framebuffer => BackendTables {
                framebuffers: tab_remove(t.framebuffers, id as int),
                ..t
            },
            ResourceFreeType::Sampler => BackendTables {
                samplers: tab_remove(t.samplers, id as int),
                ..t
            },
        },
    }
}

/// The tables after realizing the updates from position `i` onward, in
/// order.
pub open spec fn spec_tables_after(us: Seq<ResourceUpdate>, i: int, t: BackendTables) -> BackendTables
    decreases us.len() - i,
{
    if i < 0 || i >= us.len() {
        t
    } else {
        spec_tables_after(us, i + 1, spec_update_step(t, us[i]))
    }
}

/// A table that satisfies the sparse-insert postconditions equals the
/// mathematical insert.
proof fn lemma_tab_insert_matches<T>(pre: Seq<Option<T>>, post: SparseVec<T>, id: int, v: T)
    requires
        0 <= id,
        post@.len() == (if id < pre.len() {
            pre.len() as int
        } else {
            id + 1
        }),
        post.spec_get(id) == Some(v),
        forall|j: int|
            0 <= j < post@.len() && j != id ==> post.spec_get(j) == tab_get_opt(pre, j),
    ensures
        post@ == tab_insert(pre, id, v),
{
    assert(post@ =~= tab_insert(pre, id, v)) by {
        assert forall|j: int|
            0 <= j < post@.len() implies post@[j] == tab_insert(pre, id, v)[j] by {
            if j == id {
                assert(post.spec_get(id) == Some(v));
            } else {
                assert(post.spec_get(j) == tab_get_opt(pre, j));
            }
        }
    }
}

/// Every texture image is in its sampled steady state.
pub open spec fn textures_steady(ts: Seq<Option<GpuImage>>) -> bool {
    forall|j: int|
        0 <= j < ts.len() && ts[j] is Some ==> (#[trigger] ts[j]).unwrap().layout
            == ImageLayout::ShaderReadOnly && ts[j].unwrap().access_mask == ACCESS_SHADER_READ
}

impl BackendState {
    /// Drains one frame's resource-update queue: realizes every creation
    /// (compiling shaders, allocating images and buffers, packing byte
    /// payloads into the staging plan at aligned offsets, and recording
    /// the transfer and steady-state barriers), and moves every freed
    /// resource into this parity's destroy queue.  A shader whose
    /// definition does not compile is fatal at registration time: the
    /// diagnostic is surfaced and no plan is produced.
    #[verifier::rlimit(100)]
    pub fn drain_updates(&mut self, updates: Vec<ResourceUpdate>) -> (r: Result<
        UpdatePlan,
        ShaderError,
    >)
        requires
            updates_wf(updates@, *old(self)),
            frees_distinct(updates@),
            spec_staging_after(updates@, 0, 0) <= usize::MAX,
            fbs_steady(old(self).framebuffers@),
            textures_steady(old(self).texture_2ds@),
            forall|k: int|
                0 <= k < updates@.len() ==> ((#[trigger] updates@[k]) matches
                    ResourceUpdate::CreateShader { def, .. } ==> spec_total_attrs(
                    def.material_layouts@,
                    0,
                ) + 1 <= usize::MAX && def.vertex_layout.attributes@.len()
                    + def.instance_layout.attributes@.len() < usize::MAX && def.partial.code@.len()
                    + 1 < usize::MAX),
        ensures
            r is Ok <==> (forall|k: int|
                0 <= k < updates@.len() ==> ((#[trigger] updates@[k]) matches
                    ResourceUpdate::CreateShader { def, .. } ==> shader_compiles(*def))),
            r matches Ok(plan) ==> {
                &&& plan.ops@.len() == updates@.len()
                &&& forall|k: int|
                    0 <= k < updates@.len() ==> op_matches(
                        #[trigger] updates@[k],
                        plan.ops@[k],
                    )
                &&& spec_tables(*final(self)) == spec_tables_after(
                    updates@,
                    0,
                    spec_tables(*old(self)),
                )
                &&& staging_wf(plan.staging_copies@, plan.staging_size as nat)
                &&& plan.staging_copies@.map_values(|c: StagingCopy| c.bytes@)
                    == spec_payload_bytes(updates@, 0)
                &&& plan.staging_copies@.map_values(|c: StagingCopy| c.dest)
                    == spec_payload_dests(updates@, 0)
                &&& final(self).spec_destroy_queue(old(self).even_frame).len() == old(
                    self,
                ).spec_destroy_queue(old(self).even_frame).len() + count_frees(updates@)
                &&& plan.transfer_dst_barriers@ == spec_transfer_barriers(updates@, 0)
                &&& plan.shader_read_barriers@ == spec_shader_read_barriers(updates@, 0)
                &&& plan.depth_attachment_barriers@ == spec_depth_barriers(updates@, 0)
                &&& plan.color_image_clears@ == spec_color_clears(updates@, 0)
                &&& plan.depth_image_clears@ == spec_depth_clears(updates@, 0)
            },
            old(self).spec_destroy_queue(old(self).even_frame).is_prefix_of(
                final(self).spec_destroy_queue(old(self).even_frame),
            ),
            final(self).spec_destroy_queue(!old(self).even_frame) == old(self).spec_destroy_queue(
                !old(self).even_frame,
            ),
            final(self).even_frame == old(self).even_frame,
            final(self).frame_even == old(self).frame_even,
            final(self).frame_odd == old(self).frame_odd,
            fbs_steady(final(self).framebuffers@),
            textures_steady(final(self).texture_2ds@),
    {
        let even = self.even_frame;
        let mut ops: Vec<PlanOp> = Vec::new();
        let mut staging_copies: Vec<StagingCopy> = Vec::new();
        let mut staging_size: usize = 0;
        let mut transfer_dst_barriers: Vec<(ImageRef, ImageMemoryBarrier)> = Vec::new();
        let mut shader_read_barriers: Vec<(ImageRef, ImageMemoryBarrier)> = Vec::new();
        let mut depth_attachment_barriers: Vec<(ImageRef, ImageMemoryBarrier)> = Vec::new();
        let mut color_image_clears: Vec<ImageRef> = Vec::new();
        let mut depth_image_clears: Vec<ImageRef> = Vec::new();
        let n = updates.len();
        let mut k: usize = 0;
        proof {
            assert(count_frees(updates@.take(0)) == 0) by {
                assert(updates@.take(0) =~= Seq::<ResourceUpdate>::empty());
            }
        }
        while k < n
            invariant
                k <= n,
                n == updates@.len(),
                updates_wf(updates@, *old(self)),
                frees_distinct(updates@),
                forall|j: int|
                    0 <= j < n ==> ((#[trigger] updates@[j]) matches
                        ResourceUpdate::CreateShader { def, .. } ==> spec_total_attrs(
                        def.material_layouts@,
                        0,
                    ) + 1 <= usize::MAX && def.vertex_layout.attributes@.len()
                        + def.instance_layout.attributes@.len() < usize::MAX
                        && def.partial.code@.len() + 1 < usize::MAX),
                forall|j: int|
                    0 <= j < k ==> ((#[trigger] updates@[j]) matches ResourceUpdate::CreateShader {
                        def,
                        ..
                    } ==> shader_compiles(*def)),
                spec_staging_after(updates@, 0, 0) <= usize::MAX,
                spec_staging_after(updates@, k as int, staging_size as nat) == spec_staging_after(
                    updates@,
                    0,
                    0,
                ),
                spec_tables_after(updates@, k as int, spec_tables(*self)) == spec_tables_after(
                    updates@,
                    0,
                    spec_tables(*old(self)),
                ),
                staging_wf(staging_copies@, staging_size as nat),
                staging_copies@.map_values(|c: StagingCopy| c.bytes@) + spec_payload_bytes(
                    updates@,
                    k as int,
                ) == spec_payload_bytes(updates@, 0),
                staging_copies@.map_values(|c: StagingCopy| c.dest) + spec_payload_dests(
                    updates@,
                    k as int,
                ) == spec_payload_dests(updates@, 0),
                ops@.len() == k,
                forall|j: int| 0 <= j < k ==> op_matches(#[trigger] updates@[j], ops@[j]),
                self.even_frame == old(self).even_frame,
                self.frame_even == old(self).frame_even,
                self.frame_odd == old(self).frame_odd,
                self.spec_destroy_queue(even).len() == old(self).spec_destroy_queue(even).len()
                    + count_frees(updates@.take(k as int)),
                old(self).spec_destroy_queue(even).is_prefix_of(self.spec_destroy_queue(even)),
                self.spec_destroy_queue(!even) == old(self).spec_destroy_queue(!even),
                even == old(self).even_frame,
                fbs_steady(self.framebuffers@),
                textures_steady(self.texture_2ds@),
                transfer_dst_barriers@ + spec_transfer_barriers(updates@, k as int)
                    == spec_transfer_barriers(updates@, 0),
                shader_read_barriers@ + spec_shader_read_barriers(updates@, k as int)
                    == spec_shader_read_barriers(updates@, 0),
                depth_attachment_barriers@ + spec_depth_barriers(updates@, k as int)
                    == spec_depth_barriers(updates@, 0),
                color_image_clears@ + spec_color_clears(updates@, k as int) == spec_color_clears(
                    updates@,
                    0,
                ),
                depth_image_clears@ + spec_depth_clears(updates@, k as int) == spec_depth_clears(
                    updates@,
                    0,
                ),
                forall|j: int|
                    k <= j < n ==> match #[trigger] updates@[j] {
                        ResourceUpdate::Free { id, ty } => match ty {
                            ResourceFreeType::Shader => self.pipelines.spec_get(id as int)
                                is Some,
                            ResourceFreeType::Texture2D => self.texture_2ds.spec_get(id as int)
                                is Some,
                            ResourceFreeType::Mesh => self.meshes.spec_get(id as int) is Some,
                            ResourceFreeType::Instances => self.instances.spec_get(id as int)
                                is Some,
                            ResourceFreeType::Uniform => self.uniforms.spec_get(id as int)
                                is Some,
                            ResourceFreeType::Framebuffer => self.framebuffers.spec_get(
                                id as int,
                            ) is Some,
                            ResourceFreeType::Sampler => self.samplers.spec_get(id as int)
                                is Some,
                        },
                        _ => true,
                    },
            decreases n - k,
        {
            proof {
                assert(updates@.take(k + 1).drop_last() =~= updates@.take(k as int));
                assert(updates@.take(k + 1).last() == updates@[k as int]);
                lemma_staging_after_monotonic(updates@, k + 1, spec_staging_step(
                    staging_size as nat,
                    updates@[k as int],
                ));
            }
            let ghost t_before = spec_tables(*self);
            match &updates[k] {
                ResourceUpdate::CreateShader { id, def } => {
                    let compiled = match build_pipeline(def) {
                        Ok(c) => c,
                        Err(e) => {
                            proof {
                                assert(updates@[k as int] matches ResourceUpdate::CreateShader {
                                    def: d2,
                                    ..
                                } && !shader_compiles(*d2));
                            }
                            return Err(e);
                        },
                    };
                    let slots = compiled.material_bindings.len();
                    let n_variants = compiled.n_variants;
                    proof {
                        assert(GfxPipeline { material_slots: slots, n_variants }
                            == spec_created_pipeline(**def));
                    }
                    self.pipelines.insert(
                        *id,
                        GfxPipeline { material_slots: slots, n_variants },
                    );
                    proof {
                        lemma_tab_insert_matches(
                            t_before.pipelines,
                            self.pipelines,
                            *id as int,
                            GfxPipeline { material_slots: slots, n_variants },
                        );
                    }
                    ops.push(PlanOp::Create(NativeCreate::Pipeline { id: *id, compiled }));
                },
                ResourceUpdate::CreateTexture2D { id, meta, bytes } => {
                    let mut texture = GpuImage::new(
                        UVec3 { x: meta.size.x, y: meta.size.y, z: 1 },
                        ImageFormat::Format(meta.format),
                    );
                    let b1 = texture.change_layout_mem_barrier(
                        ImageLayout::TransferDst,
                        ACCESS_TRANSFER_WRITE,
                    );
                    transfer_dst_barriers.push((ImageRef::Texture(*id), b1));
                    let b2 = texture.change_layout_mem_barrier(
                        ImageLayout::ShaderReadOnly,
                        ACCESS_SHADER_READ,
                    );
                    shader_read_barriers.push((ImageRef::Texture(*id), b2));
                    add_staging_payload(
                        &mut staging_copies,
                        &mut staging_size,
                        crate::util::copy_bytes(bytes),
                        StagingDest::Image(ImageRef::Texture(*id)),
                    );
                    let ghost ts_before = self.texture_2ds@;
                    proof {
                        assert(texture == spec_created_texture(*meta));
                    }
                    self.texture_2ds.insert(*id, texture);
                    proof {
                        lemma_tab_insert_matches(
                            t_before.texture_2ds,
                            self.texture_2ds,
                            *id as int,
                            spec_created_texture(*meta),
                        );
                        assert forall|j: int|
                            0 <= j < self.texture_2ds@.len() && self.texture_2ds@[j]
                                is Some implies (#[trigger] self.texture_2ds@[j]).unwrap().layout
                            == ImageLayout::ShaderReadOnly && self.texture_2ds@[j].unwrap(
                        ).access_mask == ACCESS_SHADER_READ by {
                            if j != *id {
                                assert(self.texture_2ds.spec_get(j) == tab_get_opt(ts_before, j));
                            }
                        }
                    }
                    ops.push(
                        PlanOp::Create(NativeCreate::Texture2D { id: *id, meta: *meta }),
                    );
                },
                ResourceUpdate::CreateSampler { id, def } => {
                    self.samplers.insert(*id, *def);
                    proof {
                        lemma_tab_insert_matches(t_before.samplers, self.samplers, *id as int, *def);
                    }
                    ops.push(PlanOp::Create(NativeCreate::Sampler { id: *id, def: *def }));
                },
                ResourceUpdate::CreateMesh { id, data } => {
                    let (has_indices, n_indices, indices_are_u32) = match &data.indices {
                        Some(ix) => (true, ix.n as u32, ix.is_u32),
                        None => (false, 0, false),
                    };
                    let res = MeshRes {
                        n_vertices: data.n_vertices as u32,
                        has_indices,
                        n_indices,
                        indices_are_u32,
                    };
                    add_staging_payload(
                        &mut staging_copies,
                        &mut staging_size,
                        crate::util::copy_bytes(&data.vertex_bytes),
                        StagingDest::MeshVertexBuffer(*id),
                    );
                    let index_size = match &data.indices {
                        Some(ix) => {
                            let sz = ix.bytes.len();
                            add_staging_payload(
                                &mut staging_copies,
                                &mut staging_size,
                                crate::util::copy_bytes(&ix.bytes),
                                StagingDest::MeshIndexBuffer(*id),
                            );
                            sz
                        },
                        None => 0,
                    };
                    proof {
                        assert(res == spec_created_mesh(*data));
                    }
                    self.meshes.insert(*id, res);
                    proof {
                        lemma_tab_insert_matches(t_before.meshes, self.meshes, *id as int, res);
                    }
                    ops.push(
                        PlanOp::Create(
                            NativeCreate::Mesh {
                                id: *id,
                                vertex_size: data.vertex_bytes.len(),
                                index_size,
                                has_indices,
                            },
                        ),
                    );
                },
                ResourceUpdate::CreateInstances { id, data } => {
                    add_staging_payload(
                        &mut staging_copies,
                        &mut staging_size,
                        crate::util::copy_bytes(&data.bytes),
                        StagingDest::InstanceBuffer(*id),
                    );
                    self.instances.insert(*id, InstancesRes { n: data.n as u32 });
                    proof {
                        lemma_tab_insert_matches(
                            t_before.instances,
                            self.instances,
                            *id as int,
                            InstancesRes { n: data.n as u32 },
                        );
                    }
                    ops.push(
                        PlanOp::Create(
                            NativeCreate::Instances { id: *id, size: data.bytes.len() },
                        ),
                    );
                },
                ResourceUpdate::CreateUniform { id, data } => {
                    add_staging_payload(
                        &mut staging_copies,
                        &mut staging_size,
                        crate::util::copy_bytes(data),
                        StagingDest::UniformBuffer(*id),
                    );
                    self.uniforms.insert(
                        *id,
                        GpuBuffer::new(
                            data.len(),
                            BUFFER_USAGE_UNIFORM | BUFFER_USAGE_TRANSFER_DST,
                            MemoryKind::PreferDevice,
                        ),
                    );
                    proof {
                        lemma_tab_insert_matches(
                            t_before.uniforms,
                            self.uniforms,
                            *id as int,
                            spec_created_uniform(data@),
                        );
                    }
                    ops.push(
                        PlanOp::Create(NativeCreate::UniformBuffer { id: *id, size: data.len() }),
                    );
                },
                ResourceUpdate::CreateFramebuffer { id, meta } => {
                    let extent3 = UVec3 { x: meta.size.x, y: meta.size.y, z: 1 };
                    let mut color = GpuImage::new(extent3, ImageFormat::Format(meta.format));
                    let cb1 = color.change_layout_mem_barrier(
                        ImageLayout::TransferDst,
                        ACCESS_TRANSFER_WRITE,
                    );
                    transfer_dst_barriers.push((ImageRef::FramebufferColor(*id), cb1));
                    color_image_clears.push(ImageRef::FramebufferColor(*id));
                    let cb2 = color.change_layout_mem_barrier(
                        ImageLayout::ShaderReadOnly,
                        ACCESS_SHADER_READ,
                    );
                    shader_read_barriers.push((ImageRef::FramebufferColor(*id), cb2));
                    let mut depth = GpuImage::new(extent3, ImageFormat::DepthStencil);
                    let db1 = depth.change_layout_mem_barrier(
                        ImageLayout::TransferDst,
                        ACCESS_TRANSFER_WRITE,
                    );
                    transfer_dst_barriers.push((ImageRef::FramebufferDepth(*id), db1));
                    depth_image_clears.push(ImageRef::FramebufferDepth(*id));
                    let db2 = depth.change_layout_mem_barrier(
                        ImageLayout::DepthStencilAttachment,
                        ACCESS_DEPTH_STENCIL_ATTACHMENT_READ | ACCESS_DEPTH_STENCIL_ATTACHMENT_WRITE,
                    );
                    depth_attachment_barriers.push((ImageRef::FramebufferDepth(*id), db2));
                    let ghost fbs_before = self.framebuffers@;
                    let fmt_index = meta.format.to_index();
                    proof {
                        assert(GpuFramebuffer {
                            color,
                            depth,
                            extent: meta.size,
                            color_format_index: fmt_index,
                        } == spec_created_framebuffer(*meta));
                    }
                    self.framebuffers.insert(
                        *id,
                        GpuFramebuffer {
                            color,
                            depth,
                            extent: meta.size,
                            color_format_index: fmt_index,
                        },
                    );
                    proof {
                        lemma_tab_insert_matches(
                            t_before.framebuffers,
                            self.framebuffers,
                            *id as int,
                            spec_created_framebuffer(*meta),
                        );
                        assert forall|j: int|
                            0 <= j < self.framebuffers@.len() && self.framebuffers@[j]
                                is Some implies (#[trigger] self.framebuffers@[j]).unwrap(
                        ).color.layout == ImageLayout::ShaderReadOnly && self.framebuffers@[
                            j
                        ].unwrap().color.access_mask == ACCESS_SHADER_READ by {
                            if j != *id {
                                assert(self.framebuffers.spec_get(j) == tab_get_opt(fbs_before, j));
                            }
                        }
                    }
                    ops.push(
                        PlanOp::Create(NativeCreate::Framebuffer { id: *id, meta: *meta }),
                    );
                },
                ResourceUpdate::Free { id, ty } => {
                    let parked = match ty {
                        ResourceFreeType::Shader => Destroyable::GfxPipeline(
                            self.pipelines.remove(*id).unwrap(),
                        ),
                        ResourceFreeType::Texture2D => Destroyable::Texture2D(
                            self.texture_2ds.remove(*id).unwrap(),
                        ),
                        ResourceFreeType::Mesh => Destroyable::Mesh(
                            self.meshes.remove(*id).unwrap(),
                        ),
                        ResourceFreeType::Instances => Destroyable::Instances(
                            self.instances.remove(*id).unwrap(),
                        ),
                        ResourceFreeType::Uniform => Destroyable::Uniform(
                            self.uniforms.remove(*id).unwrap(),
                        ),
                        ResourceFreeType::Framebuffer => Destroyable::FrameBuffer(
                            self.framebuffers.remove(*id).unwrap(),
                        ),
                        ResourceFreeType::Sampler => Destroyable::Sampler(
                            self.samplers.remove(*id).unwrap(),
                        ),
                    };
                    if even {
                        self.destroy_even.push(parked);
                    } else {
                        self.destroy_odd.push(parked);
                    }
                    ops.push(PlanOp::Free { ty: *ty, id: *id });
                },
            }
            proof {
                assert(spec_tables(*self) =~~= spec_update_step(t_before, updates@[k as int]));
                assert(spec_tables_after(updates@, k as int, t_before) == spec_tables_after(
                    updates@,
                    k + 1,
                    spec_update_step(t_before, updates@[k as int]),
                ));
                assert(spec_tables_after(updates@, k + 1, spec_tables(*self))
                    == spec_tables_after(updates@, 0, spec_tables(*old(self))));
            }
            k = k + 1;
            proof {
                assert(transfer_dst_barriers@ + spec_transfer_barriers(updates@, k as int)
                    =~= spec_transfer_barriers(updates@, 0));
                assert(shader_read_barriers@ + spec_shader_read_barriers(updates@, k as int)
                    =~= spec_shader_read_barriers(updates@, 0));
                assert(depth_attachment_barriers@ + spec_depth_barriers(updates@, k as int)
                    =~= spec_depth_barriers(updates@, 0));
                assert(color_image_clears@ + spec_color_clears(updates@, k as int)
                    =~= spec_color_clears(updates@, 0));
                assert(depth_image_clears@ + spec_depth_clears(updates@, k as int)
                    =~= spec_depth_clears(updates@, 0));
                assert(staging_copies@.map_values(|c: StagingCopy| c.bytes@)
                    + spec_payload_bytes(updates@, k as int) =~~= spec_payload_bytes(
                    updates@,
                    0,
                ));
                assert(staging_copies@.map_values(|c: StagingCopy| c.dest) + spec_payload_dests(
                    updates@,
                    k as int,
                ) =~= spec_payload_dests(updates@, 0));
            }
        }
        proof {
            assert(updates@.take(n as int) =~= updates@);
            assert(transfer_dst_barriers@ =~= spec_transfer_barriers(updates@, 0));
            assert(shader_read_barriers@ =~= spec_shader_read_barriers(updates@, 0));
            assert(depth_attachment_barriers@ =~= spec_depth_barriers(updates@, 0));
            assert(color_image_clears@ =~= spec_color_clears(updates@, 0));
            assert(depth_image_clears@ =~= spec_depth_clears(updates@, 0));
            assert(staging_copies@.map_values(|c: StagingCopy| c.bytes@) =~~= spec_payload_bytes(
                updates@,
                0,
            ));
            assert(staging_copies@.map_values(|c: StagingCopy| c.dest) =~= spec_payload_dests(
                updates@,
                0,
            ));
        }
        Ok(
            UpdatePlan {
                ops,
                staging_copies,
                staging_size,
                transfer_dst_barriers,
                shader_read_barriers,
                depth_attachment_barriers,
                color_image_clears,
                depth_image_clears,
            },
        )
    }
}

} // verus!

use crate::buffer::DescBufferInfo;
use crate::draw::{log_view, DrawCmd, DrawCmdView};
use crate::material::MaterialAttributeRefID;
use crate::material::MaterialAttributeRefIDInner;

verus! {

/// One descriptor write of a material's pre-written set.
#[derive(Clone, Copy, PartialEq, Eq, Structural, Debug)]
pub enum DescWrite {
    /// A sampled image: a texture or a framebuffer's color target.
    SampledImage { image: ImageRef },
    /// A sampler.
    Sampler { id: usize },
    /// A whole persistent uniform buffer.
    UniformBuffer { id: usize, info: DescBufferInfo },
    /// A byte range of this frame's uniform scratch buffer.
    FrameUniform { info: DescBufferInfo },
}

/// The descriptor writes of one material's bindings, in binding order.
pub open spec fn spec_desc_writes_for(
    attrs: Seq<MaterialAttributeRefID>,
    uniforms: Seq<Option<GpuBuffer>>,
    i: int,
) -> Seq<DescWrite>
    decreases attrs.len() - i,
{
    if i < 0 || i >= attrs.len() {
        Seq::empty()
    } else {
        let head = match attrs[i].inner {
            MaterialAttributeRefIDInner::Texture2D { id } => DescWrite::SampledImage {
                image: ImageRef::Texture(id),
            },
            MaterialAttributeRefIDInner::Sampler { id } => DescWrite::Sampler { id },
            MaterialAttributeRefIDInner::FramebufferColor { id } => DescWrite::SampledImage {
                image: ImageRef::FramebufferColor(id),
            },
            MaterialAttributeRefIDInner::FramebufferDepth { id } => DescWrite::SampledImage {
                image: ImageRef::FramebufferDepth(id),
            },
            MaterialAttributeRefIDInner::Uniform { id } => DescWrite::UniformBuffer {
                id,
                info: DescBufferInfo {
                    offset: 0,
                    range: tab_get_opt(uniforms, id as int).unwrap().capacity,
                },
            },
            MaterialAttributeRefIDInner::ImmediateUniform { start, len } =>
                DescWrite::FrameUniform { info: DescBufferInfo { offset: start, range: len } },
        };
        seq![head] + spec_desc_writes_for(attrs, uniforms, i + 1)
    }
}

/// The pre-written descriptor sets of one frame: one set per `SetMaterial`
/// entry of the log, in log order.
pub open spec fn spec_desc_sets(
    log: Seq<DrawCmdView>,
    uniforms: Seq<Option<GpuBuffer>>,
) -> Seq<Seq<DescWrite>>
    decreases log.len(),
{
    if log.len() == 0 {
        Seq::empty()
    } else {
        spec_desc_sets(log.drop_last(), uniforms) + match log.last() {
            DrawCmdView::SetMaterial { attributes, .. } => seq![
                spec_desc_writes_for(attributes, uniforms, 0),
            ],
            _ => Seq::empty(),
        }
    }
}

/// The log's material bindings only name persistent uniform buffers the
/// table holds, and never a framebuffer's depth target, which cannot be
/// sampled.
pub open spec fn log_desc_wf(log: Seq<DrawCmdView>, uniforms: Seq<Option<GpuBuffer>>) -> bool {
    forall|k: int|
        0 <= k < log.len() ==> ((#[trigger] log[k]) matches DrawCmdView::SetMaterial {
            attributes,
            ..
        } ==> forall|j: int|
            0 <= j < attributes.len() ==> match (#[trigger] attributes[j]).inner {
                MaterialAttributeRefIDInner::Uniform { id } => tab_get_opt(uniforms, id as int)
                    is Some,
                MaterialAttributeRefIDInner::FramebufferDepth { .. } => false,
                _ => true,
            })
}

/// Plans the descriptor writes of every material bind of the log: one
/// descriptor set per `SetMaterial` entry, holding one write per binding
/// (sampled image, sampler, or the named uniform buffer range), written
/// before replay so every set a bind consumes is ready.
pub fn plan_descriptor_sets(log: &Vec<DrawCmd>, uniforms: &SparseVec<GpuBuffer>) -> (r: Vec<
    Vec<DescWrite>,
>)
    requires
        log_desc_wf(log_view(log@), uniforms@),
    ensures
        r@.len() == spec_desc_sets(log_view(log@), uniforms@).len(),
        forall|k: int|
            0 <= k < r@.len() ==> (#[trigger] r@[k])@ == spec_desc_sets(
                log_view(log@),
                uniforms@,
            )[k],
{
    let ghost lv = log_view(log@);
    let mut r: Vec<Vec<DescWrite>> = Vec::new();
    let n = log.len();
    let mut k: usize = 0;
    proof {
        assert(lv.take(0) =~= Seq::<DrawCmdView>::empty());
    }
    while k < n
        invariant
            k <= n,
            n == log@.len(),
            lv == log_view(log@),
            log_desc_wf(lv, uniforms@),
            r@.len() == spec_desc_sets(lv.take(k as int), uniforms@).len(),
            forall|j: int|
                0 <= j < r@.len() ==> (#[trigger] r@[j])@ == spec_desc_sets(
                    lv.take(k as int),
                    uniforms@,
                )[j],
        decreases n - k,
    {
        proof {
            assert(lv.take(k + 1).drop_last() =~= lv.take(k as int));
            assert(lv.take(k + 1).last() == lv[k as int]);
            assert(lv[k as int] == log@[k as int]@);
        }
        match &log[k] {
            DrawCmd::SetMaterial { attributes, .. } => {
                let m = attributes.len();
                let mut writes: Vec<DescWrite> = Vec::new();
                let mut j: usize = 0;
                while j < m
                    invariant
                        j <= m,
                        m == attributes@.len(),
                        log_desc_wf(lv, uniforms@),
                        lv[k as int] matches DrawCmdView::SetMaterial { attributes: a2, .. }
                            && a2 == attributes@,
                        k < lv.len(),
                        spec_desc_writes_for(attributes@, uniforms@, 0) == writes@
                            + spec_desc_writes_for(attributes@, uniforms@, j as int),
                    decreases m - j,
                {
                    let w = match &attributes[j].inner {
                        MaterialAttributeRefIDInner::Texture2D { id } => DescWrite::SampledImage {
                            image: ImageRef::Texture(*id),
                        },
                        MaterialAttributeRefIDInner::Sampler { id } => DescWrite::Sampler {
                            id: *id,
                        },
                        MaterialAttributeRefIDInner::FramebufferColor { id } =>
                            DescWrite::SampledImage { image: ImageRef::FramebufferColor(*id) },
                        MaterialAttributeRefIDInner::FramebufferDepth { id } =>
                            DescWrite::SampledImage { image: ImageRef::FramebufferDepth(*id) },
                        MaterialAttributeRefIDInner::Uniform { id } => {
                            let buffer = uniforms.get(*id).unwrap();
                            DescWrite::UniformBuffer {
                                id: *id,
                                info: buffer.desc_whole_buffer_info(),
                            }
                        },
                        MaterialAttributeRefIDInner::ImmediateUniform { start, len } =>
                            DescWrite::FrameUniform {
                            info: DescBufferInfo { offset: *start, range: *len },
                        },
                    };
                    writes.push(w);
                    j = j + 1;
                    proof {
                        assert(spec_desc_writes_for(attributes@, uniforms@, 0) =~= writes@
                            + spec_desc_writes_for(attributes@, uniforms@, j as int));
                    }
                }
                r.push(writes);
            },
            _ => {},
        }
        k = k + 1;
        proof {
            assert(r@.len() == spec_desc_sets(lv.take(k as int), uniforms@).len());
            assert forall|j: int|
                0 <= j < r@.len() implies (#[trigger] r@[j])@ == spec_desc_sets(
                lv.take(k as int),
                uniforms@,
            )[j] by {
                if j < r@.len() - 1 {
                    assert(r@[j]@ == spec_desc_sets(lv.take(k - 1), uniforms@)[j]);
                }
            }
        }
    }
    proof {
        assert(lv.take(n as int) =~= lv);
    }
    r
}

} // verus!

verus! {

/// Deferred deletion across the double buffer: an object parked in one
/// parity's destroy queue survives the other parity's entire frame — the
/// parity flip at its frame's end, the other frame's begin (which drains
/// only its own queue), and the other frame's update drain (which only
/// appends to the queue of the frame being recorded) — and is drained
/// exactly when a frame of its own parity next begins, which happens only
/// after that parity's fence has signaled.  Each step's hypothesis is the
/// corresponding function's postcondition.
pub proof fn lemma_deferred_deletion(
    b0: BackendState,
    b1: BackendState,
    b2: BackendState,
    b3: BackendState,
    b4: BackendState,
)
    requires
        // b0: a frame of some parity has parked at least one freed object
        b0.spec_destroy_queue(b0.even_frame).len() > 0,
        // b1 = b0 after `end_frame`: the parity flips, queues untouched
        b1.even_frame == !b0.even_frame,
        b1.destroy_even == b0.destroy_even,
        b1.destroy_odd == b0.destroy_odd,
        // b2 = b1 after the other parity's `begin_frame`: only that
        // parity's queue is drained
        b2.even_frame == b1.even_frame,
        b2.spec_destroy_queue(b2.even_frame).len() == 0,
        b2.spec_destroy_queue(!b2.even_frame) == b1.spec_destroy_queue(!b1.even_frame),
        // b3 = b2 after that frame's `drain_updates` and
        // `fit_frame_buffers`: the recorded frame's queue may grow, the
        // other parity's queue is untouched
        b3.even_frame == b2.even_frame,
        b3.spec_destroy_queue(!b3.even_frame) == b2.spec_destroy_queue(!b2.even_frame),
        // b4 = b3 after its `end_frame` and the next `begin_frame`: the
        // parity flips back and that parity's queue is drained
        b4.even_frame == !b3.even_frame,
        b4.spec_destroy_queue(b4.even_frame).len() == 0,
    ensures
        // the parked objects are intact through the other parity's whole
        // frame...
        b3.spec_destroy_queue(b0.even_frame) == b0.spec_destroy_queue(b0.even_frame),
        b3.spec_destroy_queue(b0.even_frame).len() > 0,
        // ...and are drained exactly at the next frame of their own parity
        b4.even_frame == b0.even_frame,
        b4.spec_destroy_queue(b0.even_frame).len() == 0,
{
}

} // verus!
