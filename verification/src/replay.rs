//! Replay of the declarative draw-command log into an ordered description
//! of native calls: begin/end rendering passes, layout barriers, pipeline
//! and descriptor-set binds, vertex/index buffer binds, and draw calls.
//!
//! Replay is a state machine over the current canvas, the bound pipeline
//! variant and the next descriptor set.  A framebuffer canvas's color image
//! is moved from its shader-read steady state to color-attachment for the
//! duration of its pass and back when the pass closes, so it can be sampled
//! afterwards; the replayed barriers are exactly those state changes.

use vstd::prelude::*;

use crate::attribute::N_TEXTURE_FORMATS;
use crate::draw::{log_view, DrawCmd, DrawCmdView, MeshDrawCmdDescView};
use crate::geom::{ColorBits, UVec2};
use crate::gpu_texture::CanvasID;
use crate::image::{
    GpuImage, ImageLayout, ImageMemoryBarrier, ACCESS_COLOR_ATTACHMENT_READ,
    ACCESS_COLOR_ATTACHMENT_WRITE, ACCESS_SHADER_READ,
};
use crate::mesh::{InstancesDraw, MeshDraw};
use crate::util::SparseVec;

verus! {

/// A mesh resource realized on the GPU.
#[derive(Clone, Copy, PartialEq, Eq, Structural, Debug)]
pub struct MeshRes {
    pub n_vertices: u32,
    pub has_indices: bool,
    pub n_indices: u32,
    pub indices_are_u32: bool,
}

/// An instance-set resource realized on the GPU.
#[derive(Clone, Copy, PartialEq, Eq, Structural, Debug)]
pub struct InstancesRes {
    pub n: u32,
}

/// An off-screen framebuffer realized on the GPU: a color and a depth
/// image plus the pipeline-variant index of its color format.
#[derive(Clone, Copy, PartialEq, Eq, Structural, Debug)]
pub struct GpuFramebuffer {
    pub color: GpuImage,
    pub depth: GpuImage,
    pub extent: UVec2,
    pub color_format_index: usize,
}

/// Which image a barrier applies to.
#[derive(Clone, Copy, PartialEq, Eq, Structural, Debug)]
pub enum ImageRef {
    Texture(usize),
    FramebufferColor(usize),
    FramebufferDepth(usize),
    SwapchainColor(usize),
    SwapchainDepth,
}

/// Which buffer a vertex or index bind reads from.
#[derive(Clone, Copy, PartialEq, Eq, Structural, Debug)]
pub enum BufferRef {
    /// This frame's immediate-mode vertex scratch buffer.
    FrameVertex,
    /// This frame's immediate-mode index scratch buffer.
    FrameIndex,
    /// The vertex buffer of a persistent mesh resource.
    MeshVertex(usize),
    /// The index buffer of a persistent mesh resource.
    MeshIndex(usize),
    /// The buffer of a persistent instance resource.
    InstanceBuffer(usize),
}

/// One vertex-buffer bind: the buffer and a byte offset into it.
#[derive(Clone, Copy, PartialEq, Eq, Structural, Debug)]
pub struct VertexBufferBind {
    pub buffer: BufferRef,
    pub offset: usize,
}

/// One native call of the replayed command stream.
pub enum NativeCmd {
    /// Record a layout/access transition for an image.
    PipelineBarrier { image: ImageRef, barrier: ImageMemoryBarrier },
    /// Open a rendering pass on a canvas, clearing when a clear color was
    /// requested, else loading.
    BeginRendering { canvas: CanvasID, extent: UVec2, clear_color: Option<ColorBits> },
    /// Close the open rendering pass.
    EndRendering,
    /// Set the viewport to the canvas extent.
    SetViewport { extent: UVec2 },
    /// Set the scissor to the canvas extent.
    SetScissor { extent: UVec2 },
    /// Bind the pipeline variant matching the current canvas's format.
    BindPipeline { shader: usize, variant: usize },
    /// Bind the descriptor set pre-written for a material at a slot.
    BindDescriptorSet { slot: usize, set_index: usize },
    /// Write a draw call's push-constant bytes.
    PushConstants { bytes: Vec<u8> },
    /// Bind the vertex buffers of a draw, mesh source first, then the
    /// instance source, skipping sources with no attached data.
    BindVertexBuffers { mesh: Option<VertexBufferBind>, instances: Option<VertexBufferBind> },
    /// Bind an index buffer.
    BindIndexBuffer { buffer: BufferRef, offset: usize, is_u32: bool },
    /// Non-indexed draw.
    Draw { first_vertex: u32, n_vertices: u32, first_instance: u32, n_instances: u32 },
    /// Indexed draw.
    DrawIndexed { n_indices: u32, first_instance: u32, n_instances: u32 },
}

/// Mathematical form of a native call.
#[verifier::ext_equal]
pub enum NativeCmdView {
    PipelineBarrier { image: ImageRef, barrier: ImageMemoryBarrier },
    BeginRendering { canvas: CanvasID, extent: UVec2, clear_color: Option<ColorBits> },
    EndRendering,
    SetViewport { extent: UVec2 },
    SetScissor { extent: UVec2 },
    BindPipeline { shader: usize, variant: usize },
    BindDescriptorSet { slot: usize, set_index: usize },
    PushConstants { bytes: Seq<u8> },
    BindVertexBuffers { mesh: Option<VertexBufferBind>, instances: Option<VertexBufferBind> },
    BindIndexBuffer { buffer: BufferRef, offset: usize, is_u32: bool },
    Draw { first_vertex: u32, n_vertices: u32, first_instance: u32, n_instances: u32 },
    DrawIndexed { n_indices: u32, first_instance: u32, n_instances: u32 },
}

impl View for NativeCmd {
    type V = NativeCmdView;

    open spec fn view(&self) -> NativeCmdView {
        match self {
            NativeCmd::PipelineBarrier { image, barrier } => NativeCmdView::PipelineBarrier {
                image: *image,
                barrier: *barrier,
            },
            NativeCmd::BeginRendering { canvas, extent, clear_color } =>
                NativeCmdView::BeginRendering {
                canvas: *canvas,
                extent: *extent,
                clear_color: *clear_color,
            },
            NativeCmd::EndRendering => NativeCmdView::EndRendering,
            NativeCmd::SetViewport { extent } => NativeCmdView::SetViewport { extent: *extent },
            NativeCmd::SetScissor { extent } => NativeCmdView::SetScissor { extent: *extent },
            NativeCmd::BindPipeline { shader, variant } => NativeCmdView::BindPipeline {
                shader: *shader,
                variant: *variant,
            },
            NativeCmd::BindDescriptorSet { slot, set_index } => NativeCmdView::BindDescriptorSet {
                slot: *slot,
                set_index: *set_index,
            },
            NativeCmd::PushConstants { bytes } => NativeCmdView::PushConstants { bytes: bytes@ },
            NativeCmd::BindVertexBuffers { mesh, instances } => NativeCmdView::BindVertexBuffers {
                mesh: *mesh,
                instances: *instances,
            },
            NativeCmd::BindIndexBuffer { buffer, offset, is_u32 } =>
                NativeCmdView::BindIndexBuffer {
                buffer: *buffer,
                offset: *offset,
                is_u32: *is_u32,
            },
            NativeCmd::Draw { first_vertex, n_vertices, first_instance, n_instances } =>
                NativeCmdView::Draw {
                first_vertex: *first_vertex,
                n_vertices: *n_vertices,
                first_instance: *first_instance,
                n_instances: *n_instances,
            },
            NativeCmd::DrawIndexed { n_indices, first_instance, n_instances } =>
                NativeCmdView::DrawIndexed {
                n_indices: *n_indices,
                first_instance: *first_instance,
                n_instances: *n_instances,
            },
        }
    }
}

/// The native stream as a sequence of mathematical entries.
pub open spec fn native_view(s: Seq<NativeCmd>) -> Seq<NativeCmdView> {
    s.map_values(|c: NativeCmd| c@)
}

/// Appending one call appends its mathematical form.
pub broadcast proof fn lemma_native_view_push(s: Seq<NativeCmd>, c: NativeCmd)
    ensures
        #[trigger] native_view(s.push(c)) == native_view(s).push(c@),
{
    assert(native_view(s.push(c)) =~~= native_view(s).push(c@));
}

/// The access mask of a color attachment being rendered to.
pub open spec fn spec_attachment_access() -> u32 {
    ACCESS_COLOR_ATTACHMENT_WRITE | ACCESS_COLOR_ATTACHMENT_READ
}

/// The barrier moving a framebuffer color image from its shader-read steady
/// state to color-attachment.
pub open spec fn spec_to_attachment_barrier() -> ImageMemoryBarrier {
    ImageMemoryBarrier {
        old_layout: ImageLayout::ShaderReadOnly,
        new_layout: ImageLayout::ColorAttachment,
        src_access_mask: ACCESS_SHADER_READ,
        dst_access_mask: spec_attachment_access(),
    }
}

/// The barrier moving a framebuffer color image back to shader-read so it
/// can be sampled after its pass.
pub open spec fn spec_to_shader_read_barrier() -> ImageMemoryBarrier {
    ImageMemoryBarrier {
        old_layout: ImageLayout::ColorAttachment,
        new_layout: ImageLayout::ShaderReadOnly,
        src_access_mask: spec_attachment_access(),
        dst_access_mask: ACCESS_SHADER_READ,
    }
}

/// Replay state: the open canvas (if any), the pipeline-variant index of
/// its format, and how many descriptor sets have been passed.
pub struct ReplayState {
    pub target: Option<CanvasID>,
    pub format_i: usize,
    pub desc_i: int,
}

/// The tables replay resolves ids against, plus this frame's acquired
/// swapchain image (if any) and the swapchain extent.
pub struct ReplayEnv {
    pub framebuffers: Seq<Option<GpuFramebuffer>>,
    pub meshes: Seq<Option<MeshRes>>,
    pub instances: Seq<Option<InstancesRes>>,
    pub swapchain_image: Option<usize>,
    pub swapchain_extent: UVec2,
}

/// Table lookup with out-of-range indices vacant.
pub open spec fn tab_get<T>(s: Seq<Option<T>>, id: int) -> Option<T> {
    if 0 <= id < s.len() {
        s[id]
    } else {
        None
    }
}

/// The native calls that close the open pass, if one is open: end the
/// rendering pass and move a framebuffer canvas's color image back to
/// shader-read.
pub open spec fn spec_close_pass(st: ReplayState) -> Seq<NativeCmdView> {
    match st.target {
        None => Seq::empty(),
        Some(CanvasID::Screen) => seq![NativeCmdView::EndRendering],
        Some(CanvasID::Framebuffer(fid)) => seq![
            NativeCmdView::EndRendering,
            NativeCmdView::PipelineBarrier {
                image: ImageRef::FramebufferColor(fid),
                barrier: spec_to_shader_read_barrier(),
            },
        ],
    }
}

/// One step of replay: the native calls emitted for one log entry and the
/// state afterwards.
pub open spec fn spec_replay_step(st: ReplayState, cmd: DrawCmdView, env: ReplayEnv) -> (
    ReplayState,
    Seq<NativeCmdView>,
) {
    match cmd {
        DrawCmdView::SetCanvas { id, clear_color } => {
            if st.target == Some(id) {
                (st, Seq::empty())
            } else {
                let closing = spec_close_pass(st);
                match id {
                    CanvasID::Screen => {
                        if env.swapchain_image is Some {
                            (
                                ReplayState {
                                    target: Some(CanvasID::Screen),
                                    format_i: N_TEXTURE_FORMATS,
                                    desc_i: st.desc_i,
                                },
                                closing + seq![
                                    NativeCmdView::BeginRendering {
                                        canvas: CanvasID::Screen,
                                        extent: env.swapchain_extent,
                                        clear_color,
                                    },
                                    NativeCmdView::SetViewport { extent: env.swapchain_extent },
                                    NativeCmdView::SetScissor { extent: env.swapchain_extent },
                                ],
                            )
                        } else {
                            (
                                ReplayState { target: None, format_i: st.format_i, desc_i: st.desc_i },
                                closing,
                            )
                        }
                    },
                    CanvasID::Framebuffer(fid) => {
                        let fb = tab_get(env.framebuffers, fid as int).unwrap();
                        (
                            ReplayState {
                                target: Some(CanvasID::Framebuffer(fid)),
                                format_i: fb.color_format_index,
                                desc_i: st.desc_i,
                            },
                            closing + seq![
                                NativeCmdView::PipelineBarrier {
                                    image: ImageRef::FramebufferColor(fid),
                                    barrier: spec_to_attachment_barrier(),
                                },
                                NativeCmdView::BeginRendering {
                                    canvas: CanvasID::Framebuffer(fid),
                                    extent: fb.extent,
                                    clear_color,
                                },
                                NativeCmdView::SetViewport { extent: fb.extent },
                                NativeCmdView::SetScissor { extent: fb.extent },
                            ],
                        )
                    },
                }
            }
        },
        DrawCmdView::SetShader { id } => {
            if st.target is Some {
                (
                    st,
                    seq![NativeCmdView::BindPipeline { shader: id, variant: st.format_i }],
                )
            } else {
                (st, Seq::empty())
            }
        },
        DrawCmdView::SetMaterial { attributes, slot } => {
            let st2 = ReplayState { target: st.target, format_i: st.format_i, desc_i: st.desc_i + 1 };
            if st.target is Some {
                (
                    st2,
                    seq![
                        NativeCmdView::BindDescriptorSet {
                            slot,
                            set_index: st.desc_i as usize,
                        },
                    ],
                )
            } else {
                (st2, Seq::empty())
            }
        },
        DrawCmdView::DrawMesh(desc) => {
            if st.target is Some {
                (st, spec_draw_cmds(desc, env))
            } else {
                (st, Seq::empty())
            }
        },
    }
}

/// The native calls of one mesh draw: push constants, vertex-buffer binds
/// resolved from the mesh and instance sources, and the draw call itself,
/// indexed or not.
pub open spec fn spec_draw_cmds(desc: MeshDrawCmdDescView, env: ReplayEnv) -> Seq<NativeCmdView> {
    let mesh_bind = match desc.mesh {
        MeshDraw::Range { .. } => None,
        MeshDraw::Immediate(imd) => Some(
            VertexBufferBind { buffer: BufferRef::FrameVertex, offset: imd.start },
        ),
        MeshDraw::Resource(id) => Some(
            VertexBufferBind { buffer: BufferRef::MeshVertex(id), offset: 0 },
        ),
    };
    let inst_bind = match desc.instances {
        InstancesDraw::Range { .. } => None,
        InstancesDraw::Immediate(iid) => Some(
            VertexBufferBind { buffer: BufferRef::FrameVertex, offset: iid.start },
        ),
        InstancesDraw::Resource(id) => Some(
            VertexBufferBind { buffer: BufferRef::InstanceBuffer(id), offset: 0 },
        ),
    };
    let inst_range: (u32, u32) = match desc.instances {
        InstancesDraw::Range { start, end } => (start, end),
        InstancesDraw::Immediate(iid) => (0, iid.n),
        InstancesDraw::Resource(id) => (0, tab_get(env.instances, id as int).unwrap().n),
    };
    let head = seq![
        NativeCmdView::PushConstants { bytes: desc.push },
        NativeCmdView::BindVertexBuffers { mesh: mesh_bind, instances: inst_bind },
    ];
    let n_instances = (inst_range.1 - inst_range.0) as u32;
    match desc.mesh {
        MeshDraw::Range { start, end } => head + seq![
            NativeCmdView::Draw {
                first_vertex: start,
                n_vertices: (end - start) as u32,
                first_instance: inst_range.0,
                n_instances,
            },
        ],
        MeshDraw::Immediate(imd) => {
            match imd.indices {
                Some(ix) => head + seq![
                    NativeCmdView::BindIndexBuffer {
                        buffer: BufferRef::FrameIndex,
                        offset: ix.start,
                        is_u32: ix.is_u32,
                    },
                    NativeCmdView::DrawIndexed {
                        n_indices: ix.n,
                        first_instance: inst_range.0,
                        n_instances,
                    },
                ],
                None => head + seq![
                    NativeCmdView::Draw {
                        first_vertex: 0,
                        n_vertices: imd.n,
                        first_instance: inst_range.0,
                        n_instances,
                    },
                ],
            }
        },
        MeshDraw::Resource(id) => {
            let m = tab_get(env.meshes, id as int).unwrap();
            if m.has_indices {
                head + seq![
                    NativeCmdView::BindIndexBuffer {
                        buffer: BufferRef::MeshIndex(id),
                        offset: 0,
                        is_u32: m.indices_are_u32,
                    },
                    NativeCmdView::DrawIndexed {
                        n_indices: m.n_indices,
                        first_instance: inst_range.0,
                        n_instances,
                    },
                ]
            } else {
                head + seq![
                    NativeCmdView::Draw {
                        first_vertex: 0,
                        n_vertices: m.n_vertices,
                        first_instance: inst_range.0,
                        n_instances,
                    },
                ]
            }
        },
    }
}

/// Replay of a whole log from an initial state: the state after every
/// entry, and every native call emitted.
pub open spec fn spec_replay_fold(log: Seq<DrawCmdView>, st: ReplayState, env: ReplayEnv) -> (
    ReplayState,
    Seq<NativeCmdView>,
)
    decreases log.len(),
{
    if log.len() == 0 {
        (st, Seq::empty())
    } else {
        let prev = spec_replay_fold(log.drop_last(), st, env);
        let step = spec_replay_step(prev.0, log.last(), env);
        (step.0, prev.1 + step.1)
    }
}

/// The initial replay state: no canvas, no sets passed; the variant index
/// is the swapchain's until a canvas sets it.
pub open spec fn spec_replay_init() -> ReplayState {
    ReplayState { target: None, format_i: N_TEXTURE_FORMATS, desc_i: 0 }
}

/// The full native stream of one log: every step's emissions, then the
/// calls closing the last open pass.
pub open spec fn spec_replay(log: Seq<DrawCmdView>, env: ReplayEnv) -> Seq<NativeCmdView> {
    let folded = spec_replay_fold(log, spec_replay_init(), env);
    folded.1 + spec_close_pass(folded.0)
}

/// The log only names resources its environment holds, and its explicit
/// index ranges are well formed.
pub open spec fn log_wf(log: Seq<DrawCmdView>, env: ReplayEnv) -> bool {
    forall|k: int|
        0 <= k < log.len() ==> match #[trigger] log[k] {
            DrawCmdView::SetCanvas { id, .. } => match id {
                CanvasID::Screen => true,
                CanvasID::Framebuffer(fid) => tab_get(env.framebuffers, fid as int) is Some,
            },
            DrawCmdView::SetShader { id } => true,
            DrawCmdView::SetMaterial { .. } => true,
            DrawCmdView::DrawMesh(desc) => {
                &&& match desc.mesh {
                    MeshDraw::Range { start, end } => start <= end,
                    MeshDraw::Immediate(_) => true,
                    MeshDraw::Resource(id) => tab_get(env.meshes, id as int) is Some,
                }
                &&& match desc.instances {
                    InstancesDraw::Range { start, end } => start <= end,
                    InstancesDraw::Immediate(_) => true,
                    InstancesDraw::Resource(id) => tab_get(env.instances, id as int) is Some,
                }
            },
        }
}

} // verus!

verus! {

/// `fb` with its color image moved to the given layout and access.
pub open spec fn fb_with_color_state(fb: GpuFramebuffer, layout: ImageLayout, access: u32) -> GpuFramebuffer {
    GpuFramebuffer {
        color: GpuImage { layout, access_mask: access, ..fb.color },
        ..fb
    }
}

/// Every framebuffer color image is in its shader-read steady state.
pub open spec fn fbs_steady(fbs: Seq<Option<GpuFramebuffer>>) -> bool {
    forall|j: int|
        0 <= j < fbs.len() && fbs[j] is Some ==> (#[trigger] fbs[j]).unwrap().color.layout
            == ImageLayout::ShaderReadOnly && fbs[j].unwrap().color.access_mask
            == ACCESS_SHADER_READ
}

/// The framebuffer table while a pass is open: the open framebuffer
/// canvas's color image is in the color-attachment state, everything else
/// is in its steady state.
pub open spec fn fbs_during(fbs: Seq<Option<GpuFramebuffer>>, target: Option<CanvasID>) -> Seq<
    Option<GpuFramebuffer>,
> {
    match target {
        Some(CanvasID::Framebuffer(fid)) => fbs.update(
            fid as int,
            Some(
                fb_with_color_state(
                    fbs[fid as int].unwrap(),
                    ImageLayout::ColorAttachment,
                    spec_attachment_access(),
                ),
            ),
        ),
        _ => fbs,
    }
}

/// A replay state's open framebuffer canvas exists in the table.
pub open spec fn target_wf(target: Option<CanvasID>, fbs: Seq<Option<GpuFramebuffer>>) -> bool {
    target matches Some(CanvasID::Framebuffer(fid)) ==> tab_get(fbs, fid as int) is Some
}

/// Closes the open pass, if any: ends the rendering pass and returns a
/// framebuffer canvas's color image to its shader-read steady state.
fn close_pass(
    out: &mut Vec<NativeCmd>,
    framebuffers: &mut SparseVec<GpuFramebuffer>,
    target: Option<CanvasID>,
    Ghost(env_fbs): Ghost<Seq<Option<GpuFramebuffer>>>,
)
    requires
        target_wf(target, env_fbs),
        old(framebuffers)@ == fbs_during(env_fbs, target),
        fbs_steady(env_fbs),
    ensures
        native_view(final(out)@) == native_view(old(out)@) + spec_close_pass(
            ReplayState { target, format_i: 0, desc_i: 0 },
        ),
        final(framebuffers)@ == env_fbs,
{
    match target {
        None => {
            proof {
                assert(native_view(out@) =~= native_view(old(out)@) + spec_close_pass(
                    ReplayState { target, format_i: 0, desc_i: 0 },
                ));
            }
        },
        Some(CanvasID::Screen) => {
            out.push(NativeCmd::EndRendering);
            proof {
                assert(native_view(out@) =~= native_view(old(out)@) + spec_close_pass(
                    ReplayState { target, format_i: 0, desc_i: 0 },
                ));
            }
        },
        Some(CanvasID::Framebuffer(fid)) => {
            out.push(NativeCmd::EndRendering);
            let fb = framebuffers.get_mut(fid);
            let barrier = fb.color.change_layout_mem_barrier(
                ImageLayout::ShaderReadOnly,
                ACCESS_SHADER_READ,
            );
            out.push(
                NativeCmd::PipelineBarrier { image: ImageRef::FramebufferColor(fid), barrier },
            );
            proof {
                assert(native_view(out@) =~~= native_view(old(out)@) + spec_close_pass(
                    ReplayState { target, format_i: 0, desc_i: 0 },
                ));
                assert(framebuffers@ =~= env_fbs);
            }
        },
    }
}

/// Emits the native calls of one mesh draw: push constants, resolved
/// vertex-buffer binds, and the indexed or non-indexed draw call.
fn emit_draw(
    out: &mut Vec<NativeCmd>,
    desc: &crate::draw::MeshDrawCmdDesc,
    meshes: &SparseVec<MeshRes>,
    instances: &SparseVec<InstancesRes>,
    Ghost(env): Ghost<ReplayEnv>,
)
    requires
        env.meshes == meshes@,
        env.instances == instances@,
        match desc.mesh {
            MeshDraw::Range { start, end } => start <= end,
            MeshDraw::Immediate(_) => true,
            MeshDraw::Resource(id) => tab_get(env.meshes, id as int) is Some,
        },
        match desc.instances {
            InstancesDraw::Range { start, end } => start <= end,
            InstancesDraw::Immediate(_) => true,
            InstancesDraw::Resource(id) => tab_get(env.instances, id as int) is Some,
        },
    ensures
        native_view(final(out)@) == native_view(old(out)@) + spec_draw_cmds(desc@, env),
{
    out.push(NativeCmd::PushConstants { bytes: crate::util::copy_bytes(&desc.push) });
    let mesh_bind = match &desc.mesh {
        MeshDraw::Range { .. } => None,
        MeshDraw::Immediate(imd) => Some(
            VertexBufferBind { buffer: BufferRef::FrameVertex, offset: imd.start },
        ),
        MeshDraw::Resource(id) => Some(
            VertexBufferBind { buffer: BufferRef::MeshVertex(*id), offset: 0 },
        ),
    };
    let inst_bind = match &desc.instances {
        InstancesDraw::Range { .. } => None,
        InstancesDraw::Immediate(iid) => Some(
            VertexBufferBind { buffer: BufferRef::FrameVertex, offset: iid.start },
        ),
        InstancesDraw::Resource(id) => Some(
            VertexBufferBind { buffer: BufferRef::InstanceBuffer(*id), offset: 0 },
        ),
    };
    out.push(NativeCmd::BindVertexBuffers { mesh: mesh_bind, instances: inst_bind });
    let (first_instance, inst_end): (u32, u32) = match &desc.instances {
        InstancesDraw::Range { start, end } => (*start, *end),
        InstancesDraw::Immediate(iid) => (0, iid.n),
        InstancesDraw::Resource(id) => (0, instances.get(*id).unwrap().n),
    };
    let n_instances = inst_end - first_instance;
    match &desc.mesh {
        MeshDraw::Range { start, end } => {
            out.push(
                NativeCmd::Draw {
                    first_vertex: *start,
                    n_vertices: *end - *start,
                    first_instance,
                    n_instances,
                },
            );
        },
        MeshDraw::Immediate(imd) => {
            match &imd.indices {
                Some(ix) => {
                    out.push(
                        NativeCmd::BindIndexBuffer {
                            buffer: BufferRef::FrameIndex,
                            offset: ix.start,
                            is_u32: ix.is_u32,
                        },
                    );
                    out.push(
                        NativeCmd::DrawIndexed {
                            n_indices: ix.n,
                            first_instance,
                            n_instances,
                        },
                    );
                },
                None => {
                    out.push(
                        NativeCmd::Draw {
                            first_vertex: 0,
                            n_vertices: imd.n,
                            first_instance,
                            n_instances,
                        },
                    );
                },
            }
        },
        MeshDraw::Resource(id) => {
            let m = meshes.get(*id).unwrap();
            if m.has_indices {
                out.push(
                    NativeCmd::BindIndexBuffer {
                        buffer: BufferRef::MeshIndex(*id),
                        offset: 0,
                        is_u32: m.indices_are_u32,
                    },
                );
                out.push(
                    NativeCmd::DrawIndexed {
                        n_indices: m.n_indices,
                        first_instance,
                        n_instances,
                    },
                );
            } else {
                out.push(
                    NativeCmd::Draw {
                        first_vertex: 0,
                        n_vertices: m.n_vertices,
                        first_instance,
                        n_instances,
                    },
                );
            }
        },
    }
    proof {
        assert(native_view(out@) =~~= native_view(old(out)@) + spec_draw_cmds(desc@, env));
    }
}

/// Replays the frame's draw-command log into the ordered native-call
/// stream.  Consumes one pre-written descriptor set per `SetMaterial`
/// entry; leaves every framebuffer color image back in its shader-read
/// steady state.
#[verifier::rlimit(60)]
pub fn replay_draw_commands(
    log: &Vec<DrawCmd>,
    framebuffers: &mut SparseVec<GpuFramebuffer>,
    meshes: &SparseVec<MeshRes>,
    instances: &SparseVec<InstancesRes>,
    swapchain_image: Option<usize>,
    swapchain_extent: UVec2,
) -> (out: Vec<NativeCmd>)
    requires
        fbs_steady(old(framebuffers)@),
        log_wf(
            log_view(log@),
            ReplayEnv {
                framebuffers: old(framebuffers)@,
                meshes: meshes@,
                instances: instances@,
                swapchain_image,
                swapchain_extent,
            },
        ),
    ensures
        final(framebuffers)@ == old(framebuffers)@,
        native_view(out@) == spec_replay(
            log_view(log@),
            ReplayEnv {
                framebuffers: old(framebuffers)@,
                meshes: meshes@,
                instances: instances@,
                swapchain_image,
                swapchain_extent,
            },
        ),
{
    broadcast use lemma_native_view_push;

    let ghost env = ReplayEnv {
        framebuffers: old(framebuffers)@,
        meshes: meshes@,
        instances: instances@,
        swapchain_image,
        swapchain_extent,
    };
    let ghost lv = log_view(log@);
    let mut out: Vec<NativeCmd> = Vec::new();
    let mut target: Option<CanvasID> = None;
    let mut format_i: usize = N_TEXTURE_FORMATS;
    let mut desc_i: usize = 0;
    let n = log.len();
    let mut k: usize = 0;
    proof {
        assert(lv.take(0) =~= Seq::<DrawCmdView>::empty());
    }
    while k < n
        invariant
            k <= n,
            n == log@.len(),
            lv == log_view(log@),
            log_wf(lv, env),
            env.framebuffers == old(framebuffers)@,
            env.meshes == meshes@,
            env.instances == instances@,
            env.swapchain_image == swapchain_image,
            env.swapchain_extent == swapchain_extent,
            fbs_steady(env.framebuffers),
            target_wf(target, env.framebuffers),
            framebuffers@ == fbs_during(env.framebuffers, target),
            desc_i <= k,
            spec_replay_fold(lv.take(k as int), spec_replay_init(), env).0 == (ReplayState {
                target,
                format_i,
                desc_i: desc_i as int,
            }),
            native_view(out@) == spec_replay_fold(lv.take(k as int), spec_replay_init(), env).1,
        decreases n - k,
    {
        proof {
            assert(lv.take(k + 1).drop_last() =~= lv.take(k as int));
            assert(lv.take(k + 1).last() == lv[k as int]);
            assert(lv[k as int] == log@[k as int]@);
        }
        let ghost st_before = ReplayState { target, format_i, desc_i: desc_i as int };
        match &log[k] {
            DrawCmd::SetCanvas { id, clear_color } => {
                let same = match target {
                    Some(t) => t == *id,
                    None => false,
                };
                if same {
                    proof {
                        assert(native_view(out@) =~~= spec_replay_fold(
                            lv.take(k as int),
                            spec_replay_init(),
                            env,
                        ).1 + spec_replay_step(st_before, lv[k as int], env).1);
                    }
                }
                if !same {
                    close_pass(&mut out, framebuffers, target, Ghost(env.framebuffers));
                    proof {
                        assert(spec_close_pass(ReplayState { target, format_i: 0, desc_i: 0 })
                            =~~= spec_close_pass(st_before));
                        assert(native_view(out@) =~~= spec_replay_fold(
                            lv.take(k as int),
                            spec_replay_init(),
                            env,
                        ).1 + spec_close_pass(st_before));
                    }
                    match id {
                        CanvasID::Screen => {
                            match swapchain_image {
                                Some(_) => {
                                    let ghost out_ac = out@;
                                    let cmd_b = NativeCmd::BeginRendering {
                                        canvas: CanvasID::Screen,
                                        extent: swapchain_extent,
                                        clear_color: *clear_color,
                                    };
                                    let ghost vb = cmd_b@;
                                    out.push(cmd_b);
                                    let cmd_v = NativeCmd::SetViewport { extent: swapchain_extent };
                                    let ghost vv = cmd_v@;
                                    out.push(cmd_v);
                                    let cmd_s = NativeCmd::SetScissor { extent: swapchain_extent };
                                    let ghost vs = cmd_s@;
                                    out.push(cmd_s);
                                    target = Some(CanvasID::Screen);
                                    format_i = N_TEXTURE_FORMATS;
                                    proof {
                                        assert(native_view(out@) =~~= native_view(out_ac).push(
                                            vb,
                                        ).push(vv).push(vs));
                                        let step = spec_replay_step(
                                            st_before,
                                            lv[k as int],
                                            env,
                                        );
                                        assert(step.1 =~~= spec_close_pass(st_before) + seq![
                                            NativeCmdView::BeginRendering {
                                                canvas: CanvasID::Screen,
                                                extent: env.swapchain_extent,
                                                clear_color: *clear_color,
                                            },
                                            NativeCmdView::SetViewport {
                                                extent: env.swapchain_extent,
                                            },
                                            NativeCmdView::SetScissor {
                                                extent: env.swapchain_extent,
                                            },
                                        ]);
                                        assert(native_view(out@) =~~= spec_replay_fold(
                                            lv.take(k as int),
                                            spec_replay_init(),
                                            env,
                                        ).1 + spec_replay_step(st_before, lv[k as int], env).1);
                                    }
                                },
                                None => {
                                    target = None;
                                    proof {
                                        assert(native_view(out@) =~~= spec_replay_fold(
                                            lv.take(k as int),
                                            spec_replay_init(),
                                            env,
                                        ).1 + spec_replay_step(st_before, lv[k as int], env).1);
                                    }
                                },
                            }
                        },
                        CanvasID::Framebuffer(fid) => {
                            let fb = framebuffers.get_mut(*fid);
                            let barrier = fb.color.change_layout_mem_barrier(
                                ImageLayout::ColorAttachment,
                                ACCESS_COLOR_ATTACHMENT_WRITE | ACCESS_COLOR_ATTACHMENT_READ,
                            );
                            let extent = fb.extent;
                            let fmt = fb.color_format_index;
                            let ghost out_ac = out@;
                            let cmd_p = NativeCmd::PipelineBarrier {
                                image: ImageRef::FramebufferColor(*fid),
                                barrier,
                            };
                            let ghost vp = cmd_p@;
                            out.push(cmd_p);
                            let cmd_b = NativeCmd::BeginRendering {
                                canvas: CanvasID::Framebuffer(*fid),
                                extent,
                                clear_color: *clear_color,
                            };
                            let ghost vb = cmd_b@;
                            out.push(cmd_b);
                            let cmd_v = NativeCmd::SetViewport { extent };
                            let ghost vv = cmd_v@;
                            out.push(cmd_v);
                            let cmd_s = NativeCmd::SetScissor { extent };
                            let ghost vs = cmd_s@;
                            out.push(cmd_s);
                            target = Some(CanvasID::Framebuffer(*fid));
                            format_i = fmt;
                            proof {
                                assert(native_view(out@) =~~= native_view(out_ac).push(vp).push(
                                    vb,
                                ).push(vv).push(vs));
                                assert(framebuffers@ =~= fbs_during(env.framebuffers, target));
                                assert(native_view(out@) =~~= spec_replay_fold(
                                    lv.take(k as int),
                                    spec_replay_init(),
                                    env,
                                ).1 + spec_replay_step(st_before, lv[k as int], env).1);
                            }
                        },
                    }
                }
            },
            DrawCmd::SetShader { id } => {
                if target.is_some() {
                    out.push(NativeCmd::BindPipeline { shader: *id, variant: format_i });
                }
                proof {
                    assert(native_view(out@) =~~= spec_replay_fold(
                        lv.take(k as int),
                        spec_replay_init(),
                        env,
                    ).1 + spec_replay_step(st_before, lv[k as int], env).1);
                }
            },
            DrawCmd::SetMaterial { slot, .. } => {
                if target.is_some() {
                    out.push(NativeCmd::BindDescriptorSet { slot: *slot, set_index: desc_i });
                }
                desc_i = desc_i + 1;
                proof {
                    assert(native_view(out@) =~~= spec_replay_fold(
                        lv.take(k as int),
                        spec_replay_init(),
                        env,
                    ).1 + spec_replay_step(st_before, lv[k as int], env).1);
                }
            },
            DrawCmd::DrawMesh(desc) => {
                if target.is_some() {
                    emit_draw(&mut out, desc, meshes, instances, Ghost(env));
                }
                proof {
                    assert(native_view(out@) =~~= spec_replay_fold(
                        lv.take(k as int),
                        spec_replay_init(),
                        env,
                    ).1 + spec_replay_step(st_before, lv[k as int], env).1);
                }
            },
        }
        k = k + 1;
        proof {
            assert(spec_replay_fold(lv.take(k as int), spec_replay_init(), env).0 == (ReplayState {
                target,
                format_i,
                desc_i: desc_i as int,
            }));
            assert(native_view(out@) =~~= spec_replay_fold(
                lv.take(k as int),
                spec_replay_init(),
                env,
            ).1);
        }
    }
    proof {
        assert(lv.take(n as int) =~= lv);
    }
    close_pass(&mut out, framebuffers, target, Ghost(env.framebuffers));
    proof {
        assert(native_view(out@) =~~= spec_replay(lv, env));
    }
    out
}

} // verus!

verus! {

/// A barrier is one of the two framebuffer color transitions.
pub open spec fn is_fb_transition(b: ImageMemoryBarrier) -> bool {
    b == spec_to_attachment_barrier() || b == spec_to_shader_read_barrier()
}

proof fn lemma_close_pass_barriers(st: ReplayState)
    ensures
        forall|i: int|
            0 <= i < spec_close_pass(st).len() ==> ((#[trigger] spec_close_pass(st)[i]) matches
                NativeCmdView::PipelineBarrier { barrier, .. } ==> is_fb_transition(barrier)),
{
}

proof fn lemma_draw_cmds_no_barriers(desc: MeshDrawCmdDescView, env: ReplayEnv)
    ensures
        forall|i: int|
            0 <= i < spec_draw_cmds(desc, env).len() ==> !((#[trigger] spec_draw_cmds(desc, env)[i])
                is PipelineBarrier),
{
}

proof fn lemma_step_barriers(st: ReplayState, cmd: DrawCmdView, env: ReplayEnv)
    ensures
        forall|i: int|
            0 <= i < spec_replay_step(st, cmd, env).1.len() ==> ((#[trigger] spec_replay_step(
                st,
                cmd,
                env,
            ).1[i]) matches NativeCmdView::PipelineBarrier { barrier, .. } ==> is_fb_transition(
                barrier,
            )),
{
    lemma_close_pass_barriers(st);
    match cmd {
        DrawCmdView::DrawMesh(desc) => {
            lemma_draw_cmds_no_barriers(desc, env);
        },
        _ => {},
    }
}

proof fn lemma_fold_barriers(log: Seq<DrawCmdView>, st: ReplayState, env: ReplayEnv)
    ensures
        forall|i: int|
            0 <= i < spec_replay_fold(log, st, env).1.len() ==> ((#[trigger] spec_replay_fold(
                log,
                st,
                env,
            ).1[i]) matches NativeCmdView::PipelineBarrier { barrier, .. } ==> is_fb_transition(
                barrier,
            )),
    decreases log.len(),
{
    if log.len() > 0 {
        lemma_fold_barriers(log.drop_last(), st, env);
        lemma_step_barriers(spec_replay_fold(log.drop_last(), st, env).0, log.last(), env);
    }
}

/// Every barrier the replayed stream records is one of the two framebuffer
/// color transitions, and each moves the image to a different (layout,
/// access) pair than the one it starts from: replay never emits a barrier
/// that re-establishes the state the previous barrier for that image left
/// it in.
pub proof fn lemma_replay_barriers_change_state(log: Seq<DrawCmdView>, env: ReplayEnv)
    ensures
        forall|i: int|
            0 <= i < spec_replay(log, env).len() ==> ((#[trigger] spec_replay(log, env)[i]) matches
                NativeCmdView::PipelineBarrier { barrier, .. } ==> is_fb_transition(barrier) && !(
                barrier.old_layout == barrier.new_layout && barrier.src_access_mask
                    == barrier.dst_access_mask)),
{
    let folded = spec_replay_fold(log, spec_replay_init(), env);
    lemma_fold_barriers(log, spec_replay_init(), env);
    lemma_close_pass_barriers(folded.0);
}

} // verus!

verus! {

/// Every opening of a framebuffer pass in `s` comes immediately after the
/// barrier that put that framebuffer's color image into the
/// color-attachment state.
pub open spec fn begins_preceded(s: Seq<NativeCmdView>) -> bool {
    forall|i: int|
        0 <= i < s.len() ==> ((#[trigger] s[i]) matches NativeCmdView::BeginRendering {
            canvas: CanvasID::Framebuffer(fid),
            ..
        } ==> i >= 1 && s[i - 1] == (NativeCmdView::PipelineBarrier {
            image: ImageRef::FramebufferColor(fid),
            barrier: spec_to_attachment_barrier(),
        }))
}

/// A sequence never starts with a framebuffer pass opening.
pub open spec fn no_leading_fb_begin(s: Seq<NativeCmdView>) -> bool {
    s.len() > 0 ==> !(s[0] matches NativeCmdView::BeginRendering {
        canvas: CanvasID::Framebuffer(_),
        ..
    })
}

proof fn lemma_begins_preceded_concat(a: Seq<NativeCmdView>, b: Seq<NativeCmdView>)
    requires
        begins_preceded(a),
        begins_preceded(b),
        no_leading_fb_begin(b),
    ensures
        begins_preceded(a + b),
{
    assert forall|i: int|
        0 <= i < (a + b).len() implies (((#[trigger] (a + b)[i])) matches NativeCmdView::BeginRendering {
        canvas: CanvasID::Framebuffer(fid),
        ..
    } ==> i >= 1 && (a + b)[i - 1] == (NativeCmdView::PipelineBarrier {
        image: ImageRef::FramebufferColor(fid),
        barrier: spec_to_attachment_barrier(),
    })) by {
        if i < a.len() {
            assert((a + b)[i] == a[i]);
            if i >= 1 {
                assert((a + b)[i - 1] == a[i - 1]);
            }
        } else if i == a.len() {
            assert((a + b)[i] == b[0]);
        } else {
            assert((a + b)[i] == b[i - a.len()]);
            assert((a + b)[i - 1] == b[i - a.len() - 1]);
        }
    }
}

proof fn lemma_step_begins_preceded(st: ReplayState, cmd: DrawCmdView, env: ReplayEnv)
    ensures
        begins_preceded(spec_replay_step(st, cmd, env).1),
        no_leading_fb_begin(spec_replay_step(st, cmd, env).1),
{
    let out = spec_replay_step(st, cmd, env).1;
    match cmd {
        DrawCmdView::SetCanvas { id, clear_color } => {
            if st.target == Some(id) {
            } else {
                let closing = spec_close_pass(st);
                match id {
                    CanvasID::Screen => {},
                    CanvasID::Framebuffer(fid) => {
                        assert forall|i: int|
                            0 <= i < out.len() implies (((#[trigger] out[i])) matches
                            NativeCmdView::BeginRendering {
                            canvas: CanvasID::Framebuffer(f2),
                            ..
                        } ==> i >= 1 && out[i - 1] == (NativeCmdView::PipelineBarrier {
                            image: ImageRef::FramebufferColor(f2),
                            barrier: spec_to_attachment_barrier(),
                        })) by {
                            if i < closing.len() {
                                assert(out[i] == closing[i]);
                            }
                        }
                    },
                }
            }
        },
        DrawCmdView::SetShader { .. } => {},
        DrawCmdView::SetMaterial { .. } => {},
        DrawCmdView::DrawMesh(desc) => {
            lemma_draw_cmds_no_barriers(desc, env);
            assert forall|i: int| 0 <= i < out.len() implies !((#[trigger] out[i]) matches
                NativeCmdView::BeginRendering { .. }) by {}
        },
    }
}

proof fn lemma_fold_begins_preceded(log: Seq<DrawCmdView>, st: ReplayState, env: ReplayEnv)
    ensures
        begins_preceded(spec_replay_fold(log, st, env).1),
        no_leading_fb_begin(spec_replay_fold(log, st, env).1),
    decreases log.len(),
{
    if log.len() > 0 {
        lemma_fold_begins_preceded(log.drop_last(), st, env);
        let prev = spec_replay_fold(log.drop_last(), st, env);
        lemma_step_begins_preceded(prev.0, log.last(), env);
        lemma_begins_preceded_concat(prev.1, spec_replay_step(prev.0, log.last(), env).1);
    }
}

/// Rendering into a framebuffer canvas always happens under a compatible
/// image state: in the replayed stream, every pass opened on a framebuffer
/// canvas is immediately preceded by the barrier that establishes its
/// color image's color-attachment state.
pub proof fn lemma_replay_pass_preceded_by_transition(log: Seq<DrawCmdView>, env: ReplayEnv)
    ensures
        begins_preceded(spec_replay(log, env)),
{
    let folded = spec_replay_fold(log, spec_replay_init(), env);
    lemma_fold_begins_preceded(log, spec_replay_init(), env);
    assert(forall|i: int|
        0 <= i < spec_close_pass(folded.0).len() ==> !((#[trigger] spec_close_pass(folded.0)[i])
            matches NativeCmdView::BeginRendering { .. }));
    lemma_begins_preceded_concat(folded.1, spec_close_pass(folded.0));
}

} // verus!

use vstd::seq_lib::*;

verus! {

/// Whether a call is a barrier for the color image of framebuffer `fid`.
pub open spec fn is_fb_color_barrier(c: NativeCmdView, fid: usize) -> bool {
    c matches NativeCmdView::PipelineBarrier { image: ImageRef::FramebufferColor(f2), .. }
        && f2 == fid
}

/// The barriers recorded for one framebuffer's color image, in order.
pub open spec fn fb_color_barriers(s: Seq<NativeCmdView>, fid: usize) -> Seq<NativeCmdView> {
    s.filter(|c: NativeCmdView| is_fb_color_barrier(c, fid))
}

/// The barriers for one framebuffer's color image strictly alternate: a
/// transition to the color-attachment state, then back to shader-read,
/// then to color-attachment again, and so on.
pub open spec fn alternating_fb(bs: Seq<NativeCmdView>, fid: usize) -> bool {
    forall|i: int|
        0 <= i < bs.len() ==> (#[trigger] bs[i]) == (NativeCmdView::PipelineBarrier {
            image: ImageRef::FramebufferColor(fid),
            barrier: if i % 2 == 0 {
                spec_to_attachment_barrier()
            } else {
                spec_to_shader_read_barrier()
            },
        })
}

proof fn lemma_step_fb_barriers(st: ReplayState, cmd: DrawCmdView, env: ReplayEnv, fid: usize)
    requires
        st.target matches Some(CanvasID::Framebuffer(f)) ==> tab_get(
            env.framebuffers,
            f as int,
        ) is Some,
    ensures
        ({
            let step = spec_replay_step(st, cmd, env);
            let bars = fb_color_barriers(step.1, fid);
            &&& (st.target == Some(CanvasID::Framebuffer(fid)) && step.0.target != Some(
                CanvasID::Framebuffer(fid),
            )) ==> bars =~= seq![
                NativeCmdView::PipelineBarrier {
                    image: ImageRef::FramebufferColor(fid),
                    barrier: spec_to_shader_read_barrier(),
                },
            ]
            &&& (st.target != Some(CanvasID::Framebuffer(fid)) && step.0.target == Some(
                CanvasID::Framebuffer(fid),
            )) ==> bars =~= seq![
                NativeCmdView::PipelineBarrier {
                    image: ImageRef::FramebufferColor(fid),
                    barrier: spec_to_attachment_barrier(),
                },
            ]
            &&& (st.target == Some(CanvasID::Framebuffer(fid)) <==> step.0.target == Some(
                CanvasID::Framebuffer(fid),
            )) ==> bars =~= Seq::<NativeCmdView>::empty()
        }),
{
    reveal_with_fuel(Seq::<NativeCmdView>::filter, 8);
    let step = spec_replay_step(st, cmd, env);
    match cmd {
        DrawCmdView::SetCanvas { id, clear_color } => {
            if st.target == Some(id) {
            } else {
                let closing = spec_close_pass(st);
                broadcast use Seq::filter_distributes_over_add;

                assert(fb_color_barriers(closing, fid) =~= (
                if st.target == Some(CanvasID::Framebuffer(fid)) {
                    seq![
                        NativeCmdView::PipelineBarrier {
                            image: ImageRef::FramebufferColor(fid),
                            barrier: spec_to_shader_read_barrier(),
                        },
                    ]
                } else {
                    Seq::<NativeCmdView>::empty()
                }));
            }
        },
        DrawCmdView::SetShader { .. } => {},
        DrawCmdView::SetMaterial { .. } => {},
        DrawCmdView::DrawMesh(desc) => {
            lemma_draw_cmds_no_barriers(desc, env);
            assert(fb_color_barriers(step.1, fid) =~= Seq::<NativeCmdView>::empty()) by {
                lemma_filter_all_false(step.1, fid);
            }
        },
    }
}

proof fn lemma_filter_all_false(s: Seq<NativeCmdView>, fid: usize)
    requires
        forall|i: int| 0 <= i < s.len() ==> !is_fb_color_barrier(#[trigger] s[i], fid),
    ensures
        fb_color_barriers(s, fid) == Seq::<NativeCmdView>::empty(),
    decreases s.len(),
{
    reveal(Seq::filter);
    if s.len() > 0 {
        lemma_filter_all_false(s.drop_last(), fid);
    }
}

} // verus!

verus! {

proof fn lemma_fold_fb_alternate(log: Seq<DrawCmdView>, env: ReplayEnv, fid: usize)
    requires
        log_wf(log, env),
    ensures
        ({
            let folded = spec_replay_fold(log, spec_replay_init(), env);
            let bars = fb_color_barriers(folded.1, fid);
            &&& alternating_fb(bars, fid)
            &&& (folded.0.target == Some(CanvasID::Framebuffer(fid)) <==> bars.len() % 2 == 1)
            &&& target_wf(folded.0.target, env.framebuffers)
        }),
    decreases log.len(),
{
    broadcast use Seq::filter_distributes_over_add;

    if log.len() == 0 {
        reveal(Seq::filter);
    } else {
        lemma_fold_fb_alternate(log.drop_last(), env, fid);
        assert(log_wf(log.drop_last(), env)) by {
            assert(forall|k: int|
                0 <= k < log.drop_last().len() ==> log.drop_last()[k] == log[k]);
        }
        let prev2 = spec_replay_fold(log.drop_last(), spec_replay_init(), env);
        let step = spec_replay_step(prev2.0, log.last(), env);
        lemma_step_fb_barriers(prev2.0, log.last(), env, fid);
        assert(target_wf(step.0.target, env.framebuffers)) by {
            match log.last() {
                DrawCmdView::SetCanvas { id, .. } => {
                    assert(log[log.len() - 1] == log.last());
                },
                _ => {},
            }
        }
        let bars_prev = fb_color_barriers(prev2.1, fid);
        let bars_step = fb_color_barriers(step.1, fid);
        assert(fb_color_barriers(prev2.1 + step.1, fid) == bars_prev + bars_step);
        assert forall|i: int|
            0 <= i < (bars_prev + bars_step).len() implies (#[trigger] (bars_prev + bars_step)[i])
            == (NativeCmdView::PipelineBarrier {
            image: ImageRef::FramebufferColor(fid),
            barrier: if i % 2 == 0 {
                spec_to_attachment_barrier()
            } else {
                spec_to_shader_read_barrier()
            },
        }) by {
            if i < bars_prev.len() {
                assert((bars_prev + bars_step)[i] == bars_prev[i]);
            } else {
                assert((bars_prev + bars_step)[i] == bars_step[i - bars_prev.len()]);
            }
        }
    }
}

/// For every framebuffer, the barriers the whole replayed stream records
/// for its color image strictly alternate between the transition into the
/// color-attachment state and the transition back to shader-read: no two
/// consecutive barriers for one image ever establish the identical
/// (layout, access) pair.
pub proof fn lemma_replay_fb_barriers_alternate(log: Seq<DrawCmdView>, env: ReplayEnv, fid: usize)
    requires
        log_wf(log, env),
    ensures
        alternating_fb(fb_color_barriers(spec_replay(log, env), fid), fid),
{
    broadcast use Seq::filter_distributes_over_add;

    lemma_fold_fb_alternate(log, env, fid);
    let folded = spec_replay_fold(log, spec_replay_init(), env);
    let closing = spec_close_pass(folded.0);
    reveal_with_fuel(Seq::<NativeCmdView>::filter, 8);
    let bars_prev = fb_color_barriers(folded.1, fid);
    let bars_close = fb_color_barriers(closing, fid);
    assert(bars_close =~= (if folded.0.target == Some(CanvasID::Framebuffer(fid)) {
        seq![
            NativeCmdView::PipelineBarrier {
                image: ImageRef::FramebufferColor(fid),
                barrier: spec_to_shader_read_barrier(),
            },
        ]
    } else {
        Seq::<NativeCmdView>::empty()
    }));
    assert(fb_color_barriers(folded.1 + closing, fid) == bars_prev + bars_close);
    assert forall|i: int|
        0 <= i < (bars_prev + bars_close).len() implies (#[trigger] (bars_prev + bars_close)[i])
        == (NativeCmdView::PipelineBarrier {
        image: ImageRef::FramebufferColor(fid),
        barrier: if i % 2 == 0 {
            spec_to_attachment_barrier()
        } else {
            spec_to_shader_read_barrier()
        },
    }) by {
        if i < bars_prev.len() {
            assert((bars_prev + bars_close)[i] == bars_prev[i]);
        } else {
            assert((bars_prev + bars_close)[i] == bars_close[i - bars_prev.len()]);
        }
    }
}

} // verus!
