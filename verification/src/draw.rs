//! The declarative draw-command log and the state-deduplicated API that
//! appends to it.
//!
//! A shader configuration's `draw` call appends at most one `SetShader`, one
//! `SetMaterial` per slot whose bound material changed, and exactly one
//! `DrawMesh`: binds that would re-establish the current state are not
//! logged.

use vstd::prelude::*;

use crate::geom::ColorBits;
use crate::gfx::GfxFrameData;
use crate::gpu_texture::CanvasID;
use crate::material::{MaterialAttributeRefID, MaterialRaw, MAX_MATERIALS};
use crate::mesh::{GPUInstances, GPUMesh, InstancesDraw, MeshDraw};

verus! {

/// Fixed byte budget of one draw call's push-constant blob.
pub const PUSH_CONSTANT_SIZE: usize = 128;

/// One mesh draw: vertex and instance sources plus the padded push-constant
/// bytes.
pub struct MeshDrawCmdDesc {
    pub mesh: MeshDraw,
    pub instances: InstancesDraw,
    pub push: Vec<u8>,
}

/// One entry of the per-frame draw-command log.
pub enum DrawCmd {
    SetCanvas { id: CanvasID, clear_color: Option<ColorBits> },
    SetShader { id: usize },
    SetMaterial { attributes: Vec<MaterialAttributeRefID>, slot: usize },
    DrawMesh(MeshDrawCmdDesc),
}

/// Mathematical form of a mesh draw entry.
#[verifier::ext_equal]
pub struct MeshDrawCmdDescView {
    pub mesh: MeshDraw,
    pub instances: InstancesDraw,
    pub push: Seq<u8>,
}

/// Mathematical form of a log entry: vectors become sequences so that log
/// contents can be compared extensionally.
#[verifier::ext_equal]
pub enum DrawCmdView {
    SetCanvas { id: CanvasID, clear_color: Option<ColorBits> },
    SetShader { id: usize },
    SetMaterial { attributes: Seq<MaterialAttributeRefID>, slot: usize },
    DrawMesh(MeshDrawCmdDescView),
}

impl View for MeshDrawCmdDesc {
    type V = MeshDrawCmdDescView;

    open spec fn view(&self) -> MeshDrawCmdDescView {
        MeshDrawCmdDescView { mesh: self.mesh, instances: self.instances, push: self.push@ }
    }
}

impl View for DrawCmd {
    type V = DrawCmdView;

    open spec fn view(&self) -> DrawCmdView {
        match self {
            DrawCmd::SetCanvas { id, clear_color } => DrawCmdView::SetCanvas {
                id: *id,
                clear_color: *clear_color,
            },
            DrawCmd::SetShader { id } => DrawCmdView::SetShader { id: *id },
            DrawCmd::SetMaterial { attributes, slot } => DrawCmdView::SetMaterial {
                attributes: attributes@,
                slot: *slot,
            },
            DrawCmd::DrawMesh(desc) => DrawCmdView::DrawMesh(
                MeshDrawCmdDescView {
                    mesh: desc.mesh,
                    instances: desc.instances,
                    push: desc.push@,
                },
            ),
        }
    }
}

/// The log as a sequence of mathematical entries.
pub open spec fn log_view(s: Seq<DrawCmd>) -> Seq<DrawCmdView> {
    s.map_values(|c: DrawCmd| c@)
}

/// The `SetMaterial` entries a draw appends for the given materials, given
/// the ids currently bound per slot: one entry for each slot whose bound id
/// differs from the requested material's id.
pub open spec fn material_cmds(materials: Seq<MaterialRaw>, bound: Seq<usize>) -> Seq<DrawCmdView>
    decreases materials.len(),
{
    if materials.len() == 0 {
        Seq::empty()
    } else {
        let k = materials.len() - 1;
        material_cmds(materials.drop_last(), bound) + if bound[k] != materials[k].id {
            seq![
                DrawCmdView::SetMaterial {
                    attributes: materials[k].attributes@,
                    slot: k as usize,
                },
            ]
        } else {
            Seq::empty()
        }
    }
}

/// The per-slot bound ids after a draw with the given materials.
pub open spec fn bound_after(materials: Seq<MaterialRaw>, bound: Seq<usize>) -> Seq<usize> {
    Seq::new(bound.len(), |k: int| if k < materials.len() {
        materials[k].id
    } else {
        bound[k]
    })
}

/// The push-constant bytes padded with zeros to the fixed budget.
pub open spec fn padded_push(push: Seq<u8>) -> Seq<u8> {
    push + Seq::new((PUSH_CONSTANT_SIZE - push.len()) as nat, |i: int| 0u8)
}

/// Copies a binding list; the elements are plain values.
fn copy_refs(v: &Vec<MaterialAttributeRefID>) -> (r: Vec<MaterialAttributeRefID>)
    ensures
        r@ == v@,
{
    let mut out: Vec<MaterialAttributeRefID> = Vec::new();
    let mut i: usize = 0;
    while i < v.len()
        invariant
            i <= v@.len(),
            out@ == v@.take(i as int),
        decreases v@.len() - i,
    {
        out.push(v[i]);
        proof {
            assert(v@.take(i + 1) == v@.take(i as int).push(v@[i as int]));
        }
        i = i + 1;
    }
    proof {
        assert(v@.take(v@.len() as int) == v@);
    }
    out
}

/// A shader plus the material instances to draw with, one per slot.
pub struct ShaderCfg {
    pub shader: usize,
    pub materials: Vec<MaterialRaw>,
}

impl ShaderCfg {
    /// Appends the commands for one draw call to the frame's log: a
    /// `SetShader` only when the bound pipeline differs, a `SetMaterial`
    /// only for slots whose bound material differs, and one `DrawMesh`
    /// carrying the padded push-constant bytes.
    pub fn draw(
        &self,
        frame: &mut GfxFrameData,
        mesh: &GPUMesh,
        instances: &GPUInstances,
        push: &[u8],
    )
        requires
            old(frame).wf(),
            self.materials@.len() <= MAX_MATERIALS,
            push@.len() <= PUSH_CONSTANT_SIZE,
        ensures
            final(frame).wf(),
            log_view(final(frame).draw_cmd_queue@) == log_view(old(frame).draw_cmd_queue@) + (
            if old(frame).current_pipeline != self.shader {
                seq![DrawCmdView::SetShader { id: self.shader }]
            } else {
                Seq::empty()
            }) + material_cmds(self.materials@, old(frame).current_material_ids@) + seq![
                DrawCmdView::DrawMesh(
                    MeshDrawCmdDescView {
                        mesh: match mesh.inner {
                            crate::mesh::GPUMeshInner::Range { start, end } => MeshDraw::Range {
                                start,
                                end,
                            },
                            crate::mesh::GPUMeshInner::Immediate(d) => MeshDraw::Immediate(d),
                            crate::mesh::GPUMeshInner::Resource { id, .. } => MeshDraw::Resource(
                                id,
                            ),
                        },
                        instances: match instances.inner {
                            crate::mesh::GPUInstancesInner::Range { start, end } =>
                                InstancesDraw::Range { start, end },
                            crate::mesh::GPUInstancesInner::Immediate(d) =>
                                InstancesDraw::Immediate(d),
                            crate::mesh::GPUInstancesInner::Resource { id, .. } =>
                                InstancesDraw::Resource(id),
                        },
                        push: padded_push(push@),
                    },
                ),
            ],
            final(frame).current_pipeline == self.shader,
            final(frame).current_material_ids@ == bound_after(
                self.materials@,
                old(frame).current_material_ids@,
            ),
            final(frame).resource_update_queue == old(frame).resource_update_queue,
            final(frame).vertices == old(frame).vertices,
            final(frame).indices == old(frame).indices,
            final(frame).uniforms == old(frame).uniforms,
            final(frame).next_id == old(frame).next_id,
    {
        let ghost old_log = log_view(old(frame).draw_cmd_queue@);
        let ghost old_bound = old(frame).current_material_ids@;
        let ghost shader_part: Seq<DrawCmdView> = if old(frame).current_pipeline != self.shader {
            seq![DrawCmdView::SetShader { id: self.shader }]
        } else {
            Seq::empty()
        };

        // set shader
        if frame.current_pipeline != self.shader {
            frame.current_pipeline = self.shader;
            frame.draw_cmd_queue.push(DrawCmd::SetShader { id: self.shader });
        }
        proof {
            assert(log_view(frame.draw_cmd_queue@) =~~= old_log + shader_part);
        }

        // set materials
        let n = self.materials.len();
        let mut slot: usize = 0;
        while slot < n
            invariant
                slot <= n,
                n == self.materials@.len(),
                n <= MAX_MATERIALS,
                frame.wf(),
                log_view(frame.draw_cmd_queue@) == old_log + shader_part + material_cmds(
                    self.materials@.take(slot as int),
                    old_bound,
                ),
                frame.current_material_ids@ == bound_after(
                    self.materials@.take(slot as int),
                    old_bound,
                ),
                frame.current_pipeline == self.shader,
                frame.resource_update_queue == old(frame).resource_update_queue,
                frame.vertices == old(frame).vertices,
                frame.indices == old(frame).indices,
                frame.uniforms == old(frame).uniforms,
                frame.next_id == old(frame).next_id,
            decreases n - slot,
        {
            let ghost s = slot as int;
            proof {
                assert(self.materials@.take(s + 1).drop_last() == self.materials@.take(s));
                assert(self.materials@.take(s + 1).last() == self.materials@[s]);
                assert(bound_after(self.materials@.take(s), old_bound)[s] == old_bound[s]);
                assert(material_cmds(self.materials@.take(s + 1), old_bound) == material_cmds(
                    self.materials@.take(s),
                    old_bound,
                ) + if old_bound[s] != self.materials@[s].id {
                    seq![
                        DrawCmdView::SetMaterial {
                            attributes: self.materials@[s].attributes@,
                            slot: s as usize,
                        },
                    ]
                } else {
                    Seq::empty()
                });
            }
            let m = &self.materials[slot];
            let ghost q_before = frame.draw_cmd_queue@;
            let ghost cmd_view = DrawCmdView::SetMaterial {
                attributes: self.materials@[s].attributes@,
                slot: slot,
            };
            if frame.current_material_ids[slot] != m.id {
                let cmd = DrawCmd::SetMaterial { attributes: copy_refs(&m.attributes), slot };
                proof {
                    assert(cmd@ == cmd_view);
                }
                frame.draw_cmd_queue.push(cmd);
                proof {
                    assert(frame.draw_cmd_queue@.last()@ == cmd_view);
                    assert(log_view(frame.draw_cmd_queue@) =~~= log_view(q_before).push(cmd_view));
                }
                frame.current_material_ids.set(slot, m.id);
            }
            proof {
                assert(log_view(frame.draw_cmd_queue@) =~~= old_log + shader_part + material_cmds(
                    self.materials@.take(s + 1),
                    old_bound,
                ));
                assert(frame.current_material_ids@ =~~= bound_after(
                    self.materials@.take(s + 1),
                    old_bound,
                ));
            }
            slot = slot + 1;
        }
        proof {
            assert(self.materials@.take(n as int) == self.materials@);
        }

        // pad the push constants to the fixed budget and log the draw
        let mut cmd_push: Vec<u8> = Vec::new();
        let mut i: usize = 0;
        while i < push.len()
            invariant
                i <= push@.len(),
                cmd_push@ == push@.take(i as int),
            decreases push@.len() - i,
        {
            cmd_push.push(push[i]);
            proof {
                assert(push@.take(i + 1) == push@.take(i as int).push(push@[i as int]));
            }
            i = i + 1;
        }
        proof {
            assert(push@.take(push@.len() as int) == push@);
        }
        while cmd_push.len() < PUSH_CONSTANT_SIZE
            invariant
                push@.len() <= cmd_push@.len() <= PUSH_CONSTANT_SIZE,
                cmd_push@.take(push@.len() as int) == push@,
                forall|j: int| push@.len() <= j < cmd_push@.len() ==> cmd_push@[j] == 0u8,
            decreases PUSH_CONSTANT_SIZE - cmd_push@.len(),
        {
            cmd_push.push(0);
            proof {
                assert(cmd_push@.take(push@.len() as int) == cmd_push@.drop_last().take(
                    push@.len() as int,
                ));
            }
        }
        proof {
            assert(cmd_push@ =~~= padded_push(push@));
        }
        frame.draw_cmd_queue.push(
            DrawCmd::DrawMesh(
                MeshDrawCmdDesc { mesh: mesh.draw(), instances: instances.draw(), push: cmd_push },
            ),
        );
        proof {
            assert(log_view(frame.draw_cmd_queue@) =~~= old_log + shader_part + material_cmds(
                self.materials@,
                old_bound,
            ) + seq![
                DrawCmdView::DrawMesh(
                    MeshDrawCmdDescView {
                        mesh: match mesh.inner {
                            crate::mesh::GPUMeshInner::Range { start, end } => MeshDraw::Range {
                                start,
                                end,
                            },
                            crate::mesh::GPUMeshInner::Immediate(d) => MeshDraw::Immediate(d),
                            crate::mesh::GPUMeshInner::Resource { id, .. } => MeshDraw::Resource(
                                id,
                            ),
                        },
                        instances: match instances.inner {
                            crate::mesh::GPUInstancesInner::Range { start, end } =>
                                InstancesDraw::Range { start, end },
                            crate::mesh::GPUInstancesInner::Immediate(d) =>
                                InstancesDraw::Immediate(d),
                            crate::mesh::GPUInstancesInner::Resource { id, .. } =>
                                InstancesDraw::Resource(id),
                        },
                        push: padded_push(push@),
                    },
                ),
            ]);
        }
    }
}

} // verus!
