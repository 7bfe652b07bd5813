//! Preparation of the compute culling pass: the shared camera uniform and,
//! per entity opted into GPU culling, the source, output, indirect-args and
//! LOD buffers the pass binds at slots 0 to 3.
//!
//! The functions here state what one frame of preparation does to the
//! [`ResourcesView`] and which commands it hands to the GPU; the executable
//! side lives on [`crate::resources::InstancedResources`].
use vstd::prelude::*;
use crate::gpu::{GpuOp, ResourceError, apply_ops};
use crate::layout::{
    DrawIndexedIndirectArgs, InstanceData, LodCullData, ONE_F32_BITS, INSTANCE_COUNT_OFFSET, u32_le,
    words_le, instances_bytes,
};
use crate::components::InstanceMaterialData;
use crate::resources::{
    CullResources, GlobalCullBuffer, GpuDrawIndexedIndirect, InstanceBuffer, InstanceLodBuffer,
    InstancedComputeSourceBuffer, ResourcesView,
};

verus! {

/// Threads per workgroup of the culling shader.
pub const WORKGROUP_SIZE: u32 = 64;

/// How a mesh's vertices are drawn.
#[derive(Clone, Copy, Debug, PartialEq, Eq, Structural)]
pub enum MeshBufferInfo {
    /// Through an index buffer of `count` indices.
    Indexed { count: u32 },
    /// Straight from the vertex buffer.
    NonIndexed,
}

/// Where a mesh lives in the shared vertex and index slabs.
#[derive(Clone, Copy, Debug, PartialEq, Eq, Structural)]
pub struct RenderMeshInfo {
    pub buffer_info: MeshBufferInfo,
    /// First and one-past-last vertex of the mesh in its vertex slab.
    pub vertex_start: u32,
    pub vertex_end: u32,
    /// First index of the mesh in its index slab, once allocated.
    pub first_index: Option<u32>,
}

impl RenderMeshInfo {
    /// The mesh can be drawn indirectly: it is indexed and its indices are placed.
    pub open spec fn drawable_indexed(self) -> bool {
        self.buffer_info is Indexed && self.first_index is Some
    }

    /// The indirect record for this mesh with `instance_count` instances.
    pub open spec fn indirect_args(self, instance_count: u32) -> DrawIndexedIndirectArgs {
        DrawIndexedIndirectArgs {
            index_count: self.buffer_info->Indexed_count,
            instance_count,
            first_index: self.first_index->Some_0,
            base_vertex: #[verifier::truncate] (self.vertex_start as i32),
            first_instance: 0,
        }
    }

    pub fn is_drawable_indexed(&self) -> (r: bool)
        ensures
            r == self.drawable_indexed(),
    {
        match (self.buffer_info, self.first_index) {
            (MeshBufferInfo::Indexed { .. }, Some(_)) => true,
            _ => false,
        }
    }

    /// Builds the indirect record for this mesh with `instance_count` instances.
    pub fn make_indirect_args(&self, instance_count: u32) -> (r: DrawIndexedIndirectArgs)
        requires
            self.drawable_indexed(),
        ensures
            r == self.indirect_args(instance_count),
    {
        let index_count = match self.buffer_info {
            MeshBufferInfo::Indexed { count } => count,
            MeshBufferInfo::NonIndexed => 0,
        };
        let first_index = match self.first_index {
            Some(f) => f,
            None => 0,
        };
        DrawIndexedIndirectArgs {
            index_count,
            instance_count,
            first_index,
            base_vertex: #[verifier::truncate] (self.vertex_start as i32),
            first_instance: 0,
        }
    }
}

/// Workgroups that cover `n` instances: `ceil(n / 64)`.
pub open spec fn workgroups_for(n: nat) -> nat {
    (n + 63) / 64
}

/// Workgroups that cover `count` instances.
pub fn workgroup_count(count: u32) -> (r: u32)
    ensures
        r == workgroups_for(count as nat),
        r * 64 >= count,
        count > 0 ==> (r - 1) * 64 < count,
{
    let size = WORKGROUP_SIZE as u64;
    let r = (count as u64 + size - 1) / size;
    r as u32
}

/// One camera as the culling pass needs it: whether it renders this frame,
/// and its world position (float bit patterns).
#[derive(Clone, Copy, Debug, PartialEq, Eq)]
pub struct ViewInfo {
    pub active: bool,
    pub position: [u32; 3],
}

/// The first active view, if any.
pub open spec fn first_active(views: Seq<ViewInfo>) -> Option<ViewInfo>
    decreases views.len(),
{
    if views.len() == 0 {
        None
    } else if views[0].active {
        Some(views[0])
    } else {
        first_active(views.skip(1))
    }
}

/// The camera uniform's bytes for a view.
pub open spec fn camera_bytes(v: ViewInfo) -> Seq<u8> {
    words_le(seq![v.position@[0], v.position@[1], v.position@[2], ONE_F32_BITS])
}

/// What the camera-uniform step did.
#[derive(Clone, Copy, Debug, PartialEq, Eq, Structural)]
pub enum GlobalCullStatus {
    /// No active view: nothing written, culling is skipped this frame.
    NoActiveView,
    /// The existing uniform was overwritten in place.
    Written,
    /// The uniform was created (first frame with a camera).
    Created,
}

pub struct GlobalCullStep {
    pub state: ResourcesView,
    pub status: Result<GlobalCullStatus, ResourceError>,
    pub ops: Seq<GpuOp>,
}

/// The camera uniform for one frame: the first active view's position, with
/// a fourth component of `1.0`, written into the one shared buffer, which is
/// created once and never recreated.
pub open spec fn global_cull_step(s: ResourcesView, views: Seq<ViewInfo>) -> GlobalCullStep {
    match first_active(views) {
        None => GlobalCullStep {
            state: s,
            status: Ok(GlobalCullStatus::NoActiveView),
            ops: Seq::empty(),
        },
        Some(v) => match s.global_cull {
            Some(g) => GlobalCullStep {
                state: s,
                status: Ok(GlobalCullStatus::Written),
                ops: seq![GpuOp::Write { id: g.buffer, offset: 0, contents: camera_bytes(v) }],
            },
            None => if s.next_id == u64::MAX {
                GlobalCullStep { state: s, status: Err(ResourceError::OutOfBufferIds), ops: Seq::empty() }
            } else {
                GlobalCullStep {
                    state: ResourcesView {
                        next_id: (s.next_id + 1) as u64,
                        global_cull: Some(GlobalCullBuffer { buffer: s.next_id }),
                        ..s
                    },
                    status: Ok(GlobalCullStatus::Created),
                    ops: seq![GpuOp::CreateWithData { id: s.next_id, contents: camera_bytes(v) }],
                }
            },
        },
    }
}

/// What the per-entity step did.
#[derive(Clone, Copy, Debug, PartialEq, Eq, Structural)]
pub enum CullStatus {
    /// The entity has no instances: nothing to do.
    NoInstances,
    /// The mesh is not on the GPU yet: deferred to a later frame.
    MeshNotReady,
    /// The mesh is not indexed (or its indices are not placed): indirect
    /// culling cannot draw it.
    NotIndexed,
    /// The buffers sized for this count were kept; the indirect record was
    /// reseeded and the LOD uniform rewritten.
    Refreshed,
    /// New buffers were allocated for a new count.
    Allocated,
}

pub struct CullEntityStep {
    pub state: ResourcesView,
    pub status: Result<CullStatus, ResourceError>,
    pub ops: Seq<GpuOp>,
}

/// Resources ready for dispatch after this status.
pub open spec fn is_prepared(status: Result<CullStatus, ResourceError>) -> bool {
    status == Ok::<CullStatus, ResourceError>(CullStatus::Refreshed) || status == Ok::<
        CullStatus,
        ResourceError,
    >(CullStatus::Allocated)
}

/// Releases the four buffers of an entity's culling resources.
pub open spec fn release_ops(c: CullResources) -> Seq<GpuOp> {
    seq![
        GpuOp::Destroy { id: c.source.buffer },
        GpuOp::Destroy { id: c.output.buffer },
        GpuOp::Destroy { id: c.indirect.buffer },
        GpuOp::Destroy { id: c.lod.buffer },
    ]
}

/// The resources allocated from id `n` on for `count` instances.
pub open spec fn fresh_cull_resources(n: u64, count: nat) -> CullResources {
    CullResources {
        source: InstancedComputeSourceBuffer { buffer: n, count: count as u32 },
        output: InstanceBuffer { buffer: (n + 1) as u64, length: count as usize },
        indirect: GpuDrawIndexedIndirect { buffer: (n + 2) as u64, offset: 0 },
        lod: InstanceLodBuffer { buffer: (n + 3) as u64 },
    }
}

/// One frame of culling preparation for entity `e`:
/// no instances, no mesh on the GPU or a mesh that is not indexed leave
/// everything as it was; an entity whose source buffer holds as many records
/// keeps its buffers, gets its indirect record reseeded with
/// `instance_count = 0` and its LOD uniform rewritten; any other gets four
/// fresh buffers (source filled with the records, output of the same size,
/// seeded indirect record, LOD uniform), and its former ones are released.
pub open spec fn cull_entity_step(
    s: ResourcesView,
    e: u64,
    records: Seq<InstanceData>,
    mesh: Option<RenderMeshInfo>,
    lod: LodCullData,
) -> CullEntityStep {
    let count = records.len();
    if count == 0 {
        CullEntityStep { state: s, status: Ok(CullStatus::NoInstances), ops: Seq::empty() }
    } else if mesh is None {
        CullEntityStep { state: s, status: Ok(CullStatus::MeshNotReady), ops: Seq::empty() }
    } else if !mesh->Some_0.drawable_indexed() {
        CullEntityStep { state: s, status: Ok(CullStatus::NotIndexed), ops: Seq::empty() }
    } else {
        let args = mesh->Some_0.indirect_args(0);
        if s.cull.contains_key(e) && s.cull[e].source.count == count {
            let c = s.cull[e];
            CullEntityStep {
                state: s,
                status: Ok(CullStatus::Refreshed),
                ops: seq![
                    GpuOp::Write { id: c.indirect.buffer, offset: 0, contents: args.bytes() },
                    GpuOp::Write { id: c.lod.buffer, offset: 0, contents: lod.bytes() },
                ],
            }
        } else if s.next_id > u64::MAX - 4 {
            CullEntityStep { state: s, status: Err(ResourceError::OutOfBufferIds), ops: Seq::empty() }
        } else {
            let n = s.next_id;
            let creates = seq![
                GpuOp::CreateWithData { id: n, contents: instances_bytes(records) },
                GpuOp::Create { id: (n + 1) as u64, size: 32 * count },
                GpuOp::CreateWithData { id: (n + 2) as u64, contents: args.bytes() },
                GpuOp::CreateWithData { id: (n + 3) as u64, contents: lod.bytes() },
            ];
            CullEntityStep {
                state: ResourcesView {
                    next_id: (n + 4) as u64,
                    cull: s.cull.insert(e, fresh_cull_resources(n, count)),
                    ..s
                },
                status: Ok(CullStatus::Allocated),
                ops: if s.cull.contains_key(e) {
                    release_ops(s.cull[e]) + creates
                } else {
                    creates
                },
            }
        }
    }
}

/// One compute dispatch: the entity whose bind group goes to slot 0, and the
/// number of workgroups.
#[derive(Clone, Copy, Debug, PartialEq, Eq, Structural)]
pub struct Dispatch {
    pub entity: u64,
    pub workgroups: u32,
}

/// An entity opted into GPU culling, as one frame sees it.
#[derive(Clone, Debug)]
pub struct CullEntityInput {
    pub entity: u64,
    pub data: InstanceMaterialData,
    pub mesh: Option<RenderMeshInfo>,
    /// World transform, column-major float bit patterns.
    pub world_from_local: [u32; 16],
}

/// [`CullEntityInput`] as values.
pub struct CullInputView {
    pub entity: u64,
    pub records: Seq<InstanceData>,
    pub mesh: Option<RenderMeshInfo>,
    pub lod: LodCullData,
}

impl View for CullEntityInput {
    type V = CullInputView;

    open spec fn view(&self) -> CullInputView {
        CullInputView {
            entity: self.entity,
            records: self.data.instances@,
            mesh: self.mesh,
            lod: LodCullData {
                visibility_range: self.data.visibility_range,
                world_from_local: self.world_from_local,
            },
        }
    }
}

pub open spec fn input_views(inputs: Seq<CullEntityInput>) -> Seq<CullInputView> {
    inputs.map_values(|x: CullEntityInput| x@)
}

/// Outcome of one frame of culling preparation.
pub struct CullFrameStep {
    pub state: ResourcesView,
    pub global: Result<GlobalCullStatus, ResourceError>,
    pub statuses: Seq<Result<CullStatus, ResourceError>>,
    pub ops: Seq<GpuOp>,
    pub dispatches: Seq<Dispatch>,
}

/// The entity steps of a frame, in order; each entity's failure stays its own.
pub open spec fn entities_step(s: ResourcesView, inputs: Seq<CullInputView>) -> CullFrameStep
    decreases inputs.len(),
{
    if inputs.len() == 0 {
        CullFrameStep {
            state: s,
            global: Ok(GlobalCullStatus::Written),
            statuses: Seq::empty(),
            ops: Seq::empty(),
            dispatches: Seq::empty(),
        }
    } else {
        let prev = entities_step(s, inputs.drop_last());
        let x = inputs.last();
        let st = cull_entity_step(prev.state, x.entity, x.records, x.mesh, x.lod);
        CullFrameStep {
            state: st.state,
            global: prev.global,
            statuses: prev.statuses.push(st.status),
            ops: prev.ops + st.ops,
            dispatches: if is_prepared(st.status) {
                prev.dispatches.push(
                    Dispatch { entity: x.entity, workgroups: workgroups_for(x.records.len()) as u32 },
                )
            } else {
                prev.dispatches
            },
        }
    }
}

/// One frame of culling preparation: the camera uniform first, then every
/// entity. Without an active view (or when the camera uniform cannot be
/// created) the whole pass is skipped: no entity is touched and nothing is
/// dispatched.
pub open spec fn culling_frame_step(
    s: ResourcesView,
    views: Seq<ViewInfo>,
    inputs: Seq<CullInputView>,
) -> CullFrameStep {
    let g = global_cull_step(s, views);
    if g.status is Err || g.status == Ok::<GlobalCullStatus, ResourceError>(
        GlobalCullStatus::NoActiveView,
    ) {
        CullFrameStep {
            state: g.state,
            global: g.status,
            statuses: Seq::empty(),
            ops: g.ops,
            dispatches: Seq::empty(),
        }
    } else {
        let f = entities_step(g.state, inputs);
        CullFrameStep {
            state: f.state,
            global: g.status,
            statuses: f.statuses,
            ops: g.ops + f.ops,
            dispatches: f.dispatches,
        }
    }
}

/// The slots of an entity's compute bind group: source, output, indirect
/// record and LOD uniform at 0 to 3.
pub open spec fn compute_bind_group(c: CullResources) -> Seq<(u32, u64)> {
    seq![(0u32, c.source.buffer), (1u32, c.output.buffer), (2u32, c.indirect.buffer), (3u32, c.lod.buffer)]
}

impl CullResources {
    /// The entries of the entity's compute bind group.
    pub fn bind_group_entries(&self) -> (r: Vec<(u32, u64)>)
        ensures
            r@ == compute_bind_group(*self),
    {
        let r = vec![
            (0u32, self.source.buffer),
            (1u32, self.output.buffer),
            (2u32, self.indirect.buffer),
            (3u32, self.lod.buffer),
        ];
        assert(r@ =~= compute_bind_group(*self));
        r
    }
}

/// After a preparation that readied the entity, its indirect record holds
/// the seeded record and its LOD uniform the LOD data.
proof fn lemma_prepared_memory(
    s: ResourcesView,
    mem: Map<u64, Seq<u8>>,
    e: u64,
    records: Seq<InstanceData>,
    mesh: Option<RenderMeshInfo>,
    lod: LodCullData,
)
    requires
        s.wf(),
        s.cull_memory_agrees(mem),
        records.len() <= u32::MAX,
        is_prepared(cull_entity_step(s, e, records, mesh, lod).status),
    ensures
        ({
            let st = cull_entity_step(s, e, records, mesh, lod);
            let after = apply_ops(mem, st.ops);
            let c = st.state.cull[e];
            &&& st.state.cull.contains_key(e)
            &&& c.source.count == records.len()
            &&& after.contains_key(c.indirect.buffer)
            &&& after.contains_key(c.lod.buffer)
            &&& after[c.indirect.buffer] == mesh->Some_0.indirect_args(0).bytes()
            &&& after[c.lod.buffer] == lod.bytes()
        }),
{
    let st = cull_entity_step(s, e, records, mesh, lod);
    let args = mesh->Some_0.indirect_args(0);
    args.lemma_instance_count_bytes();
    crate::layout::lemma_words_le_len(lod.words());
    if s.cull.contains_key(e) && s.cull[e].source.count == records.len() {
        let c = s.cull[e];
        crate::gpu::lemma_apply_ops_two(mem, st.ops[0], st.ops[1]);
        crate::gpu::lemma_write_range_whole(mem[c.indirect.buffer], args.bytes());
        let m1 = crate::gpu::apply_op(mem, st.ops[0]);
        crate::gpu::lemma_write_range_whole(m1[c.lod.buffer], lod.bytes());
    } else {
        let n = s.next_id;
        let creates = seq![
            GpuOp::CreateWithData { id: n, contents: instances_bytes(records) },
            GpuOp::Create { id: (n + 1) as u64, size: 32 * records.len() },
            GpuOp::CreateWithData { id: (n + 2) as u64, contents: args.bytes() },
            GpuOp::CreateWithData { id: (n + 3) as u64, contents: lod.bytes() },
        ];
        let released = if s.cull.contains_key(e) {
            release_ops(s.cull[e])
        } else {
            Seq::empty()
        };
        assert(st.ops == released + creates);
        crate::gpu::lemma_apply_ops_concat(mem, released, creates);
        crate::gpu::lemma_apply_ops_four(
            apply_ops(mem, released),
            creates[0],
            creates[1],
            creates[2],
            creates[3],
        );
    }
}

/// Right after an entity's culling resources are prepared, and before any
/// dispatch, its indirect record holds `instance_count == 0`, together with the
/// mesh's index count, first index and base vertex.
pub proof fn law_indirect_args_seeded(
    s: ResourcesView,
    mem: Map<u64, Seq<u8>>,
    e: u64,
    records: Seq<InstanceData>,
    mesh: Option<RenderMeshInfo>,
    lod: LodCullData,
)
    requires
        s.wf(),
        s.cull_memory_agrees(mem),
        records.len() <= u32::MAX,
        is_prepared(cull_entity_step(s, e, records, mesh, lod).status),
    ensures
        ({
            let st = cull_entity_step(s, e, records, mesh, lod);
            let after = apply_ops(mem, st.ops);
            let id = st.state.cull[e].indirect.buffer;
            &&& st.state.cull.contains_key(e)
            &&& after.contains_key(id)
            &&& after[id] == mesh->Some_0.indirect_args(0).bytes()
            &&& after[id].subrange(INSTANCE_COUNT_OFFSET as int, INSTANCE_COUNT_OFFSET + 4)
                == u32_le(0)
        }),
{
    lemma_prepared_memory(s, mem, e, records, mesh, lod);
    mesh->Some_0.indirect_args(0).lemma_instance_count_bytes();
}

/// Preparing an unchanged entity a second time allocates nothing, keeps the
/// state, and leaves GPU memory byte for byte as the first preparation did.
pub proof fn law_cull_preparation_idempotent(
    s: ResourcesView,
    mem: Map<u64, Seq<u8>>,
    e: u64,
    records: Seq<InstanceData>,
    mesh: Option<RenderMeshInfo>,
    lod: LodCullData,
)
    requires
        s.wf(),
        s.cull_memory_agrees(mem),
        records.len() <= u32::MAX,
        is_prepared(cull_entity_step(s, e, records, mesh, lod).status),
    ensures
        ({
            let first = cull_entity_step(s, e, records, mesh, lod);
            let second = cull_entity_step(first.state, e, records, mesh, lod);
            let m1 = apply_ops(mem, first.ops);
            &&& second.status == Ok::<CullStatus, ResourceError>(CullStatus::Refreshed)
            &&& second.state == first.state
            &&& apply_ops(m1, second.ops) == m1
        }),
{
    let first = cull_entity_step(s, e, records, mesh, lod);
    let second = cull_entity_step(first.state, e, records, mesh, lod);
    let m1 = apply_ops(mem, first.ops);
    lemma_prepared_memory(s, mem, e, records, mesh, lod);
    let c = first.state.cull[e];
    crate::gpu::lemma_apply_ops_two(m1, second.ops[0], second.ops[1]);
    crate::gpu::lemma_write_range_whole(m1[c.indirect.buffer], mesh->Some_0.indirect_args(0).bytes());
    let m2 = crate::gpu::apply_op(m1, second.ops[0]);
    assert(m2 =~= m1);
    crate::gpu::lemma_write_range_whole(m1[c.lod.buffer], lod.bytes());
    assert(crate::gpu::apply_op(m2, second.ops[1]) =~= m1);
}

/// With no active camera view, a frame of culling preparation writes
/// nothing (in particular no camera uniform), changes no state and
/// dispatches nothing, and reports the missing view rather than an error.
pub proof fn law_no_camera_no_culling(
    s: ResourcesView,
    views: Seq<ViewInfo>,
    inputs: Seq<CullInputView>,
)
    requires
        forall|i: int| 0 <= i < views.len() ==> !(#[trigger] views[i]).active,
    ensures
        ({
            let f = culling_frame_step(s, views, inputs);
            &&& f.global == Ok::<GlobalCullStatus, ResourceError>(GlobalCullStatus::NoActiveView)
            &&& f.state == s
            &&& f.ops.len() == 0
            &&& f.statuses.len() == 0
            &&& f.dispatches.len() == 0
        }),
{
    lemma_no_active_view(views);
}

pub proof fn lemma_no_active_view(views: Seq<ViewInfo>)
    requires
        forall|i: int| 0 <= i < views.len() ==> !(#[trigger] views[i]).active,
    ensures
        first_active(views) is None,
    decreases views.len(),
{
    if views.len() > 0 {
        assert(!views[0].active);
        assert forall|i: int| 0 <= i < views.skip(1).len() implies !(#[trigger] views.skip(1)[i]).active by {
            assert(views.skip(1)[i] == views[i + 1]);
        }
        lemma_no_active_view(views.skip(1));
    }
}

} // verus!
