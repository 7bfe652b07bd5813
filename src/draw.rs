//! The draw of one instanced entity: which bind groups go where, and which
//! draw call is issued.
use vstd::prelude::*;
use crate::cull::{MeshBufferInfo, RenderMeshInfo};
use crate::resources::{GpuDrawIndexedIndirect, InstanceBuffer};

verus! {

/// Bind-group slots of the instanced draw: view, view binding array, mesh,
/// material, instance uniform.
pub const VIEW_GROUP: u32 = 0;
pub const VIEW_BINDING_ARRAY_GROUP: u32 = 1;
pub const MESH_GROUP: u32 = 2;
pub const MATERIAL_GROUP: u32 = 3;
pub const INSTANCE_UNIFORM_GROUP: u32 = 4;

/// The draw call for one entity. Every draw reads the mesh's vertices from
/// vertex buffer slot 0 and the instance records from `instance_buffer` at
/// slot 1.
#[derive(Clone, Copy, Debug, PartialEq, Eq, Structural)]
pub enum DrawCommand {
    /// Something the draw needs is not there this frame.
    Skip,
    /// Indexed draw whose parameters the GPU reads from the indirect record.
    DrawIndexedIndirect { instance_buffer: u64, indirect_buffer: u64, indirect_offset: u64 },
    /// Indexed draw of all `instance_count` instances.
    DrawIndexed {
        instance_buffer: u64,
        first_index: u32,
        index_count: u32,
        base_vertex: i32,
        instance_count: u32,
    },
    /// Non-indexed draw of the mesh's vertex range for all `instance_count` instances.
    Draw { instance_buffer: u64, vertex_start: u32, vertex_end: u32, instance_count: u32 },
}

/// The draw for an entity: nothing without an instance buffer and a mesh on
/// the GPU; with an indirect record, an indexed-indirect draw (which needs an
/// indexed mesh whose indices are placed); otherwise a direct draw of the
/// whole instance buffer, indexed or not as the mesh is.
pub open spec fn draw_for(
    instances: Option<InstanceBuffer>,
    indirect: Option<GpuDrawIndexedIndirect>,
    mesh: Option<RenderMeshInfo>,
) -> DrawCommand {
    match (instances, mesh) {
        (Some(b), Some(m)) => match m.buffer_info {
            MeshBufferInfo::Indexed { count } => match m.first_index {
                None => DrawCommand::Skip,
                Some(first) => match indirect {
                    Some(ind) => DrawCommand::DrawIndexedIndirect {
                        instance_buffer: b.buffer,
                        indirect_buffer: ind.buffer,
                        indirect_offset: ind.offset,
                    },
                    None => DrawCommand::DrawIndexed {
                        instance_buffer: b.buffer,
                        first_index: first,
                        index_count: count,
                        base_vertex: #[verifier::truncate] (m.vertex_start as i32),
                        instance_count: #[verifier::truncate] (b.length as u32),
                    },
                },
            },
            MeshBufferInfo::NonIndexed => DrawCommand::Draw {
                instance_buffer: b.buffer,
                vertex_start: m.vertex_start,
                vertex_end: m.vertex_end,
                instance_count: #[verifier::truncate] (b.length as u32),
            },
        },
        _ => DrawCommand::Skip,
    }
}

/// The render command that issues the draw call.
#[derive(Clone, Copy, Debug, PartialEq, Eq, Structural)]
pub struct DrawInstancedMaterialMesh;

/// The render command that binds the combined material group.
#[derive(Clone, Copy, Debug, PartialEq, Eq, Structural)]
pub struct SetInstancedMaterialBindGroup {
    pub slot: u32,
}

/// The render command that binds the instance-uniform group.
#[derive(Clone, Copy, Debug, PartialEq, Eq, Structural)]
pub struct SetInstancedMaterialInstanceUniformsBindGroup {
    pub slot: u32,
}

impl DrawInstancedMaterialMesh {
    /// Chooses the draw call of one entity.
    pub fn render(
        instances: Option<InstanceBuffer>,
        indirect: Option<GpuDrawIndexedIndirect>,
        mesh: Option<RenderMeshInfo>,
    ) -> (r: DrawCommand)
        ensures
            r == draw_for(instances, indirect, mesh),
    {
        draw_command(instances, indirect, mesh)
    }
}

fn draw_command(
    instances: Option<InstanceBuffer>,
    indirect: Option<GpuDrawIndexedIndirect>,
    mesh: Option<RenderMeshInfo>,
) -> (r: DrawCommand)
    ensures
        r == draw_for(instances, indirect, mesh),
{
    let (b, m) = match (instances, mesh) {
        (Some(b), Some(m)) => (b, m),
        _ => {
            return DrawCommand::Skip;
        },
    };
    match m.buffer_info {
        MeshBufferInfo::Indexed { count } => match m.first_index {
            None => DrawCommand::Skip,
            Some(first) => match indirect {
                Some(ind) => DrawCommand::DrawIndexedIndirect {
                    instance_buffer: b.buffer,
                    indirect_buffer: ind.buffer,
                    indirect_offset: ind.offset,
                },
                None => DrawCommand::DrawIndexed {
                    instance_buffer: b.buffer,
                    first_index: first,
                    index_count: count,
                    base_vertex: #[verifier::truncate] (m.vertex_start as i32),
                    instance_count: #[verifier::truncate] (b.length as u32),
                },
            },
        },
        MeshBufferInfo::NonIndexed => DrawCommand::Draw {
            instance_buffer: b.buffer,
            vertex_start: m.vertex_start,
            vertex_end: m.vertex_end,
            instance_count: #[verifier::truncate] (b.length as u32),
        },
    }
}

/// Whether a bind group was set for the draw or the draw is skipped.
#[derive(Clone, Copy, Debug, PartialEq, Eq, Structural)]
pub enum BindOutcome {
    /// Bind `group` at `slot`.
    Bind { slot: u32, group: u64 },
    Skip,
}

impl SetInstancedMaterialBindGroup {
    /// Binds the entity's combined material group, once prepared.
    pub fn render(&self, prepared: Option<u64>) -> (r: BindOutcome)
        ensures
            r == (match prepared {
                Some(g) => BindOutcome::Bind { slot: self.slot, group: g },
                None => BindOutcome::Skip,
            }),
    {
        match prepared {
            Some(g) => BindOutcome::Bind { slot: self.slot, group: g },
            None => BindOutcome::Skip,
        }
    }
}

impl SetInstancedMaterialInstanceUniformsBindGroup {
    /// Binds the entity's instance-uniform group, once prepared.
    pub fn render(&self, prepared: Option<u64>) -> (r: BindOutcome)
        ensures
            r == (match prepared {
                Some(g) => BindOutcome::Bind { slot: self.slot, group: g },
                None => BindOutcome::Skip,
            }),
    {
        match prepared {
            Some(g) => BindOutcome::Bind { slot: self.slot, group: g },
            None => BindOutcome::Skip,
        }
    }
}

/// The render commands of an instanced draw, with their slots.
pub fn draw_instanced_material() -> (r: (
    SetInstancedMaterialBindGroup,
    SetInstancedMaterialInstanceUniformsBindGroup,
    DrawInstancedMaterialMesh,
))
    ensures
        r.0.slot == MATERIAL_GROUP,
        r.1.slot == INSTANCE_UNIFORM_GROUP,
{
    (
        SetInstancedMaterialBindGroup { slot: MATERIAL_GROUP },
        SetInstancedMaterialInstanceUniformsBindGroup { slot: INSTANCE_UNIFORM_GROUP },
        DrawInstancedMaterialMesh,
    )
}

} // verus!
