//! Per-renderer state: which GPU buffers each drawable entity owns.
//!
//! Every GPU buffer is a derived cache of CPU-side instance data. The state
//! records, per entity, the buffers handed out for it and what they were
//! sized for, and decides each frame between writing in place and
//! allocating anew.
use vstd::prelude::*;
use crate::gpu::{GpuCommand, GpuOp, ResourceError, ops_of};
use crate::layout::{
    CameraCullData, InstanceData, InstanceUniforms, LodCullData, ONE_F32_BITS, instances_bytes,
    encode_instances,
};
use crate::pipeline::INSTANCE_BINDING_INDEX;
use crate::cull::{
    CullEntityInput, CullStatus, Dispatch, GlobalCullStatus, RenderMeshInfo, ViewInfo,
    camera_bytes, cull_entity_step, culling_frame_step, entities_step, first_active,
    fresh_cull_resources, global_cull_step, input_views, release_ops, workgroup_count,
};
use std::collections::HashMap;

verus! {

broadcast use vstd::std_specs::hash::group_hash_axioms;

/// The vertex/storage buffer that holds an entity's instance records, and how
/// many records it was sized for.
#[derive(Clone, Copy, Debug, PartialEq, Eq, Structural)]
pub struct InstanceBuffer {
    pub buffer: u64,
    pub length: usize,
}

/// The buffer holding an entity's indexed indirect-draw record.
#[derive(Clone, Copy, Debug, PartialEq, Eq, Structural)]
pub struct GpuDrawIndexedIndirect {
    pub buffer: u64,
    pub offset: u64,
}

/// The buffer holding an entity's [`crate::layout::InstanceUniforms`].
#[derive(Clone, Copy, Debug, PartialEq, Eq, Structural)]
pub struct InstanceUniformBuffer {
    pub buffer: u64,
}

/// The buffer holding an entity's [`crate::layout::LodCullData`].
#[derive(Clone, Copy, Debug, PartialEq, Eq, Structural)]
pub struct InstanceLodBuffer {
    pub buffer: u64,
}

/// The storage buffer the culling pass reads, and the record count it holds.
#[derive(Clone, Copy, Debug, PartialEq, Eq, Structural)]
pub struct InstancedComputeSourceBuffer {
    pub buffer: u64,
    pub count: u32,
}

/// Everything the culling pass needs for one entity.
#[derive(Clone, Copy, Debug, PartialEq, Eq, Structural)]
pub struct CullResources {
    pub source: InstancedComputeSourceBuffer,
    pub output: InstanceBuffer,
    pub indirect: GpuDrawIndexedIndirect,
    pub lod: InstanceLodBuffer,
}

/// The camera uniform shared by every culling dispatch of a frame.
#[derive(Clone, Copy, Debug, PartialEq, Eq, Structural)]
pub struct GlobalCullBuffer {
    pub buffer: u64,
}

/// The state as a mathematical value; maps are keyed by entity.
pub struct ResourcesView {
    pub next_id: u64,
    pub instance_buffers: Map<u64, InstanceBuffer>,
    pub indirect_buffers: Map<u64, GpuDrawIndexedIndirect>,
    pub uniform_buffers: Map<u64, InstanceUniformBuffer>,
    pub cull: Map<u64, CullResources>,
    pub global_cull: Option<GlobalCullBuffer>,
}

impl ResourcesView {
    /// Every buffer id in use was handed out before `next_id`.
    pub open spec fn wf(self) -> bool {
        &&& forall|e: u64| #[trigger]
            self.instance_buffers.contains_key(e) ==> self.instance_buffers[e].buffer
                < self.next_id
        &&& forall|e: u64| #[trigger]
            self.indirect_buffers.contains_key(e) ==> self.indirect_buffers[e].buffer
                < self.next_id
        &&& forall|e: u64| #[trigger]
            self.uniform_buffers.contains_key(e) ==> self.uniform_buffers[e].buffer
                < self.next_id
        &&& forall|e: u64| #[trigger]
            self.cull.contains_key(e) ==> {
                let c = self.cull[e];
                &&& c.source.buffer < self.next_id
                &&& c.output.buffer < self.next_id
                &&& c.indirect.buffer < self.next_id
                &&& c.lod.buffer < self.next_id
                &&& c.source.buffer != c.output.buffer
                &&& c.source.buffer != c.indirect.buffer
                &&& c.source.buffer != c.lod.buffer
                &&& c.output.buffer != c.indirect.buffer
                &&& c.output.buffer != c.lod.buffer
                &&& c.indirect.buffer != c.lod.buffer
            }
        &&& self.global_cull matches Some(g) ==> g.buffer < self.next_id
    }

    /// GPU memory holds a full indirect record and LOD uniform for every
    /// entity with culling resources.
    pub open spec fn cull_memory_agrees(self, mem: Map<u64, Seq<u8>>) -> bool {
        forall|e: u64| #[trigger]
            self.cull.contains_key(e) ==> {
                let c = self.cull[e];
                &&& mem.contains_key(c.indirect.buffer)
                &&& mem[c.indirect.buffer].len() == 20
                &&& mem.contains_key(c.lod.buffer)
                &&& mem[c.lod.buffer].len() == 80
            }
    }

    /// GPU memory agrees with what the state says each instance buffer holds.
    pub open spec fn instance_memory_agrees(self, mem: Map<u64, Seq<u8>>) -> bool {
        forall|e: u64| #[trigger]
            self.instance_buffers.contains_key(e) ==> {
                let b = self.instance_buffers[e];
                &&& mem.contains_key(b.buffer)
                &&& mem[b.buffer].len() == 32 * b.length
            }
    }
}

/// Outcome of one instance-buffer preparation: the new state and the commands.
pub struct InstanceBufferStep {
    pub state: ResourcesView,
    pub ops: Result<Seq<GpuOp>, ResourceError>,
}

/// One frame of instance-buffer preparation for entity `e` with `records`:
/// a buffer sized for as many records is overwritten in place; otherwise a
/// buffer of exactly `32 * records.len()` bytes is allocated under a fresh
/// id and filled, and the one it replaces is released.
pub open spec fn instance_buffer_step(
    s: ResourcesView,
    e: u64,
    records: Seq<InstanceData>,
) -> InstanceBufferStep {
    if s.instance_buffers.contains_key(e) && s.instance_buffers[e].length == records.len() {
        InstanceBufferStep {
            state: s,
            ops: Ok(
                seq![
                    GpuOp::Write {
                        id: s.instance_buffers[e].buffer,
                        offset: 0,
                        contents: instances_bytes(records),
                    },
                ],
            ),
        }
    } else if s.next_id == u64::MAX {
        InstanceBufferStep { state: s, ops: Err(ResourceError::OutOfBufferIds) }
    } else {
        let fresh = InstanceBuffer { buffer: s.next_id, length: records.len() as usize };
        let create = GpuOp::CreateWithData { id: s.next_id, contents: instances_bytes(records) };
        InstanceBufferStep {
            state: ResourcesView {
                next_id: (s.next_id + 1) as u64,
                instance_buffers: s.instance_buffers.insert(e, fresh),
                ..s
            },
            ops: Ok(
                if s.instance_buffers.contains_key(e) {
                    seq![GpuOp::Destroy { id: s.instance_buffers[e].buffer }, create]
                } else {
                    seq![create]
                },
            ),
        }
    }
}

/// The GPU buffers owned by the drawables of one renderer.
pub struct InstancedResources {
    next_id: u64,
    instance_buffers: HashMap<u64, InstanceBuffer>,
    indirect_buffers: HashMap<u64, GpuDrawIndexedIndirect>,
    uniform_buffers: HashMap<u64, InstanceUniformBuffer>,
    cull: HashMap<u64, CullResources>,
    global_cull: Option<GlobalCullBuffer>,
}

impl View for InstancedResources {
    type V = ResourcesView;

    closed spec fn view(&self) -> ResourcesView {
        ResourcesView {
            next_id: self.next_id,
            instance_buffers: self.instance_buffers@,
            indirect_buffers: self.indirect_buffers@,
            uniform_buffers: self.uniform_buffers@,
            cull: self.cull@,
            global_cull: self.global_cull,
        }
    }
}

/// The result of an operation as values.
pub open spec fn result_ops(r: Result<Vec<GpuCommand>, ResourceError>) -> Result<
    Seq<GpuOp>,
    ResourceError,
> {
    match r {
        Ok(v) => Ok(ops_of(v@)),
        Err(e) => Err(e),
    }
}

impl InstancedResources {
    /// No buffers yet; ids are handed out from 0.
    pub fn new() -> (r: InstancedResources)
        ensures
            r@.wf(),
            r@.next_id == 0,
            r@.instance_buffers.is_empty(),
            r@.indirect_buffers.is_empty(),
            r@.uniform_buffers.is_empty(),
            r@.cull.is_empty(),
            r@.global_cull is None,
    {
        InstancedResources {
            next_id: 0,
            instance_buffers: HashMap::new(),
            indirect_buffers: HashMap::new(),
            uniform_buffers: HashMap::new(),
            cull: HashMap::new(),
            global_cull: None,
        }
    }

    /// No buffers yet; ids are handed out from `first_id` on, so that several
    /// states can share one id space without overlap.
    pub fn starting_at(first_id: u64) -> (r: InstancedResources)
        ensures
            r@.wf(),
            r@.next_id == first_id,
            r@.instance_buffers.is_empty(),
            r@.indirect_buffers.is_empty(),
            r@.uniform_buffers.is_empty(),
            r@.cull.is_empty(),
            r@.global_cull is None,
    {
        InstancedResources {
            next_id: first_id,
            instance_buffers: HashMap::new(),
            indirect_buffers: HashMap::new(),
            uniform_buffers: HashMap::new(),
            cull: HashMap::new(),
            global_cull: None,
        }
    }

    /// The instance buffer of `entity`, if it has one.
    pub fn instance_buffer(&self, entity: u64) -> (r: Option<InstanceBuffer>)
        ensures
            r == (if self@.instance_buffers.contains_key(entity) {
                Some(self@.instance_buffers[entity])
            } else {
                None
            }),
    {
        match self.instance_buffers.get(&entity) {
            Some(b) => Some(*b),
            None => None,
        }
    }

    /// Makes sure `entity` has an instance buffer holding `records`: writes
    /// in place when the buffer was sized for as many records, allocates a
    /// new one otherwise.
    pub fn prepare_instance_buffer(&mut self, entity: u64, records: &[InstanceData]) -> (r:
        Result<Vec<GpuCommand>, ResourceError>)
        requires
            old(self)@.wf(),
        ensures
            final(self)@.wf(),
            final(self)@ == instance_buffer_step(old(self)@, entity, records@).state,
            result_ops(r) == instance_buffer_step(old(self)@, entity, records@).ops,
    {
        let existing = self.instance_buffer(entity);
        let contents = encode_instances(records);
        match existing {
            Some(b) => {
                if b.length == records.len() {
                    let cmd = GpuCommand::Write { id: b.buffer, offset: 0, contents };
                    let mut out: Vec<GpuCommand> = Vec::new();
                    out.push(cmd);
                    assert(ops_of(out@) =~= instance_buffer_step(old(self)@, entity, records@).ops->Ok_0);
                    return Ok(out);
                }
            },
            None => {},
        }
        if self.next_id == u64::MAX {
            return Err(ResourceError::OutOfBufferIds);
        }
        let id = self.next_id;
        let mut out: Vec<GpuCommand> = Vec::new();
        match existing {
            Some(b) => {
                out.push(GpuCommand::Destroy { id: b.buffer });
            },
            None => {},
        }
        out.push(GpuCommand::CreateWithData { id, contents });
        self.instance_buffers.insert(entity, InstanceBuffer { buffer: id, length: records.len() });
        self.next_id = id + 1;
        proof {
            let st = instance_buffer_step(old(self)@, entity, records@);
            assert(self@.instance_buffers =~= st.state.instance_buffers);
            assert(ops_of(out@) =~= st.ops->Ok_0);
        }
        Ok(out)
    }
}

impl InstancedResources {
    /// The culling resources of `entity`, if it has any.
    pub fn cull_resources(&self, entity: u64) -> (r: Option<CullResources>)
        ensures
            r == (if self@.cull.contains_key(entity) {
                Some(self@.cull[entity])
            } else {
                None
            }),
    {
        match self.cull.get(&entity) {
            Some(c) => Some(*c),
            None => None,
        }
    }

    /// The shared camera uniform, once created.
    pub fn global_cull_buffer(&self) -> (r: Option<GlobalCullBuffer>)
        ensures
            r == self@.global_cull,
    {
        self.global_cull
    }

    /// Writes the camera uniform for this frame from the first active view.
    pub fn prepare_global_cull_buffer(&mut self, views: &[ViewInfo]) -> (r: (
        Result<GlobalCullStatus, ResourceError>,
        Vec<GpuCommand>,
    ))
        requires
            old(self)@.wf(),
        ensures
            final(self)@.wf(),
            final(self)@ == global_cull_step(old(self)@, views@).state,
            r.0 == global_cull_step(old(self)@, views@).status,
            ops_of(r.1@) == global_cull_step(old(self)@, views@).ops,
    {
        let found = find_first_active(views);
        let mut out: Vec<GpuCommand> = Vec::new();
        match found {
            None => {
                assert(ops_of(out@) =~= Seq::<GpuOp>::empty());
                (Ok(GlobalCullStatus::NoActiveView), out)
            },
            Some(v) => {
                let data = CameraCullData::from_position(v.position);
                let contents = data.as_bytes();
                assert(contents@ == camera_bytes(v)) by {
                    assert(data.view_pos@ =~= seq![v.position@[0], v.position@[1], v.position@[2], ONE_F32_BITS]);
                }
                match self.global_cull {
                    Some(g) => {
                        out.push(GpuCommand::Write { id: g.buffer, offset: 0, contents });
                        assert(ops_of(out@) =~= global_cull_step(old(self)@, views@).ops);
                        (Ok(GlobalCullStatus::Written), out)
                    },
                    None => {
                        if self.next_id == u64::MAX {
                            assert(ops_of(out@) =~= Seq::<GpuOp>::empty());
                            return (Err(ResourceError::OutOfBufferIds), out);
                        }
                        let id = self.next_id;
                        out.push(GpuCommand::CreateWithData { id, contents });
                        self.global_cull = Some(GlobalCullBuffer { buffer: id });
                        self.next_id = id + 1;
                        assert(ops_of(out@) =~= global_cull_step(old(self)@, views@).ops);
                        (Ok(GlobalCullStatus::Created), out)
                    },
                }
            },
        }
    }

    /// Prepares the culling resources of one entity for this frame.
    pub fn prepare_cull_entity(
        &mut self,
        entity: u64,
        records: &[InstanceData],
        mesh: Option<RenderMeshInfo>,
        lod: &LodCullData,
    ) -> (r: (Result<CullStatus, ResourceError>, Vec<GpuCommand>))
        requires
            old(self)@.wf(),
            records@.len() <= u32::MAX,
        ensures
            final(self)@.wf(),
            final(self)@ == cull_entity_step(old(self)@, entity, records@, mesh, *lod).state,
            r.0 == cull_entity_step(old(self)@, entity, records@, mesh, *lod).status,
            ops_of(r.1@) == cull_entity_step(old(self)@, entity, records@, mesh, *lod).ops,
    {
        let ghost st = cull_entity_step(old(self)@, entity, records@, mesh, *lod);
        let mut out: Vec<GpuCommand> = Vec::new();
        assert(ops_of(out@) =~= Seq::<GpuOp>::empty());
        let count = records.len();
        if count == 0 {
            return (Ok(CullStatus::NoInstances), out);
        }
        let m = match mesh {
            Some(m) => m,
            None => {
                return (Ok(CullStatus::MeshNotReady), out);
            },
        };
        if !m.is_drawable_indexed() {
            return (Ok(CullStatus::NotIndexed), out);
        }
        let args = m.make_indirect_args(0);
        let existing = self.cull_resources(entity);
        match existing {
            Some(c) => {
                if c.source.count as usize == count {
                    out.push(GpuCommand::Write { id: c.indirect.buffer, offset: 0, contents: args.as_bytes() });
                    out.push(GpuCommand::Write { id: c.lod.buffer, offset: 0, contents: lod.as_bytes() });
                    assert(ops_of(out@) =~= st.ops);
                    return (Ok(CullStatus::Refreshed), out);
                }
            },
            None => {},
        }
        if self.next_id > u64::MAX - 4 {
            return (Err(ResourceError::OutOfBufferIds), out);
        }
        let n = self.next_id;
        match existing {
            Some(c) => {
                out.push(GpuCommand::Destroy { id: c.source.buffer });
                out.push(GpuCommand::Destroy { id: c.output.buffer });
                out.push(GpuCommand::Destroy { id: c.indirect.buffer });
                out.push(GpuCommand::Destroy { id: c.lod.buffer });
            },
            None => {},
        }
        out.push(GpuCommand::CreateWithData { id: n, contents: encode_instances(records) });
        out.push(GpuCommand::Create { id: n + 1, size: 32 * count as u64 });
        out.push(GpuCommand::CreateWithData { id: n + 2, contents: args.as_bytes() });
        out.push(GpuCommand::CreateWithData { id: n + 3, contents: lod.as_bytes() });
        let fresh = CullResources {
            source: InstancedComputeSourceBuffer { buffer: n, count: count as u32 },
            output: InstanceBuffer { buffer: n + 1, length: count },
            indirect: GpuDrawIndexedIndirect { buffer: n + 2, offset: 0 },
            lod: InstanceLodBuffer { buffer: n + 3 },
        };
        self.cull.insert(entity, fresh);
        self.next_id = n + 4;
        proof {
            assert(fresh == fresh_cull_resources(n, records@.len()));
            assert(self@.cull =~= st.state.cull);
            assert(ops_of(out@) =~= st.ops);
        }
        (Ok(CullStatus::Allocated), out)
    }

    /// One frame of culling preparation: the camera uniform, then each entity
    /// in order. Returns the commands to run and the dispatches to make.
    pub fn prepare_instanced_material_compute_resources(&mut self, views: &[ViewInfo], inputs: &[CullEntityInput]) -> (r:
        CullFrame)
        requires
            old(self)@.wf(),
            forall|i: int| 0 <= i < inputs@.len() ==> #[trigger] inputs@[i].data.instances@.len() <= u32::MAX,
        ensures
            final(self)@.wf(),
            ({
                let st = culling_frame_step(old(self)@, views@, input_views(inputs@));
                &&& final(self)@ == st.state
                &&& r.global == st.global
                &&& r.statuses@ == st.statuses
                &&& ops_of(r.commands@) == st.ops
                &&& r.dispatches@ == st.dispatches
            }),
    {
        let (global, mut commands) = self.prepare_global_cull_buffer(views);
        let mut statuses: Vec<Result<CullStatus, ResourceError>> = Vec::new();
        let mut dispatches: Vec<Dispatch> = Vec::new();
        let skip = match global {
            Ok(GlobalCullStatus::NoActiveView) => true,
            Err(_) => true,
            _ => false,
        };
        if skip {
            return CullFrame { global, statuses, commands, dispatches };
        }
        let ghost s0 = self@;
        let ghost g_ops = ops_of(commands@);
        let ghost vs = input_views(inputs@);
        let mut i: usize = 0;
        while i < inputs.len()
            invariant
                i <= inputs@.len(),
                vs == input_views(inputs@),
                forall|j: int| 0 <= j < inputs@.len() ==> #[trigger] inputs@[j].data.instances@.len() <= u32::MAX,
                self@.wf(),
                ({
                    let f = entities_step(s0, vs.take(i as int));
                    &&& self@ == f.state
                    &&& statuses@ == f.statuses
                    &&& ops_of(commands@) == g_ops + f.ops
                    &&& dispatches@ == f.dispatches
                }),
            decreases inputs@.len() - i,
        {
            let x = &inputs[i];
            let lod = LodCullData {
                visibility_range: x.data.visibility_range,
                world_from_local: x.world_from_local,
            };
            let ghost before = ops_of(commands@);
            let (status, cmds) = self.prepare_cull_entity(x.entity, x.data.records(), x.mesh, &lod);
            let ghost cmds_v = cmds@;
            let mut cmds = cmds;
            commands.append(&mut cmds);
            proof {
                assert(ops_of(commands@) =~= before + ops_of(cmds_v));
            }
            let prepared = match status {
                Ok(CullStatus::Refreshed) => true,
                Ok(CullStatus::Allocated) => true,
                _ => false,
            };
            if prepared {
                let n = x.data.len() as u32;
                dispatches.push(Dispatch { entity: x.entity, workgroups: workgroup_count(n) });
            }
            statuses.push(status);
            proof {
                let t = vs.take(i as int + 1);
                assert(t.drop_last() =~= vs.take(i as int));
                assert(t.last() == inputs@[i as int]@);
                assert(lod == inputs@[i as int]@.lod);
                let f = entities_step(s0, t);
                assert(ops_of(commands@) =~= g_ops + f.ops);
            }
            i = i + 1;
        }
        proof {
            assert(vs.take(i as int) =~= vs);
        }
        CullFrame { global, statuses, commands, dispatches }
    }

    /// Releases everything held for a despawned entity.
    pub fn evict(&mut self, entity: u64) -> (r: Vec<GpuCommand>)
        requires
            old(self)@.wf(),
        ensures
            final(self)@.wf(),
            final(self)@ == evict_step(old(self)@, entity).state,
            ops_of(r@) == evict_step(old(self)@, entity).ops,
    {
        let mut out: Vec<GpuCommand> = Vec::new();
        let ghost o0 = ops_of(out@);
        match self.instance_buffers.remove(&entity) {
            Some(b) => out.push(GpuCommand::Destroy { id: b.buffer }),
            None => {},
        }
        match self.indirect_buffers.remove(&entity) {
            Some(b) => out.push(GpuCommand::Destroy { id: b.buffer }),
            None => {},
        }
        match self.uniform_buffers.remove(&entity) {
            Some(b) => out.push(GpuCommand::Destroy { id: b.buffer }),
            None => {},
        }
        match self.cull.remove(&entity) {
            Some(c) => {
                out.push(GpuCommand::Destroy { id: c.source.buffer });
                out.push(GpuCommand::Destroy { id: c.output.buffer });
                out.push(GpuCommand::Destroy { id: c.indirect.buffer });
                out.push(GpuCommand::Destroy { id: c.lod.buffer });
            },
            None => {},
        }
        proof {
            let st = evict_step(old(self)@, entity);
            assert(self@.instance_buffers =~= st.state.instance_buffers);
            assert(self@.indirect_buffers =~= st.state.indirect_buffers);
            assert(self@.uniform_buffers =~= st.state.uniform_buffers);
            assert(self@.cull =~= st.state.cull);
            assert(ops_of(out@) =~= st.ops);
        }
        out
    }
}

impl InstancedResources {
    /// The buffers the draw of `entity` reads: for a GPU-culled entity the
    /// culling output and its indirect record, otherwise its instance buffer
    /// and, if it has one, its indirect record.
    pub fn draw_buffers(&self, entity: u64, gpu_cull: bool) -> (r: (
        Option<InstanceBuffer>,
        Option<GpuDrawIndexedIndirect>,
    ))
        ensures
            r == draw_buffers_of(self@, entity, gpu_cull),
    {
        if gpu_cull {
            match self.cull.get(&entity) {
                Some(c) => (Some(c.output), Some(c.indirect)),
                None => (None, None),
            }
        } else {
            let b = match self.instance_buffers.get(&entity) {
                Some(b) => Some(*b),
                None => None,
            };
            let i = match self.indirect_buffers.get(&entity) {
                Some(i) => Some(*i),
                None => None,
            };
            (b, i)
        }
    }

    /// Writes (or creates) the indirect record of an entity drawn without GPU
    /// culling: the mesh's indexed range and the whole instance buffer.
    pub fn prepare_indirect_draw_buffer(&mut self, entity: u64, mesh: Option<RenderMeshInfo>) -> (r:
        Result<Vec<GpuCommand>, ResourceError>)
        requires
            old(self)@.wf(),
        ensures
            final(self)@.wf(),
            final(self)@ == indirect_draw_step(old(self)@, entity, mesh).state,
            result_ops(r) == indirect_draw_step(old(self)@, entity, mesh).ops,
    {
        let mut out: Vec<GpuCommand> = Vec::new();
        assert(ops_of(out@) =~= Seq::<GpuOp>::empty());
        let b = match self.instance_buffers.get(&entity) {
            Some(b) => *b,
            None => {
                return Ok(out);
            },
        };
        let m = match mesh {
            Some(m) => m,
            None => {
                return Ok(out);
            },
        };
        if !m.is_drawable_indexed() {
            return Ok(out);
        }
        let args = m.make_indirect_args(#[verifier::truncate] (b.length as u32));
        let contents = args.as_bytes();
        match self.indirect_buffers.get(&entity) {
            Some(i) => {
                out.push(GpuCommand::Write { id: i.buffer, offset: 0, contents });
                assert(ops_of(out@) =~= indirect_draw_step(old(self)@, entity, mesh).ops->Ok_0);
                Ok(out)
            },
            None => {
                if self.next_id == u64::MAX {
                    return Err(ResourceError::OutOfBufferIds);
                }
                let id = self.next_id;
                out.push(GpuCommand::CreateWithData { id, contents });
                self.indirect_buffers.insert(entity, GpuDrawIndexedIndirect { buffer: id, offset: 0 });
                self.next_id = id + 1;
                proof {
                    let st = indirect_draw_step(old(self)@, entity, mesh);
                    assert(self@.indirect_buffers =~= st.state.indirect_buffers);
                    assert(ops_of(out@) =~= st.ops->Ok_0);
                }
                Ok(out)
            },
        }
    }

    /// Writes (or creates) the instance uniform of an entity and lists the
    /// entries of its combined material group: the material's own bindings,
    /// then the uniform at the reserved slot.
    pub fn prepare_instanced_bind_group(
        &mut self,
        entity: u64,
        uniforms: &InstanceUniforms,
        material_bindings: &[(u32, u64)],
    ) -> (r: Result<(Vec<GpuCommand>, Vec<(u32, u64)>), ResourceError>)
        requires
            old(self)@.wf(),
        ensures
            final(self)@.wf(),
            final(self)@ == uniform_step(old(self)@, entity, *uniforms, material_bindings@).state,
            match r {
                Ok((cmds, entries)) => {
                    let st = uniform_step(old(self)@, entity, *uniforms, material_bindings@);
                    &&& st.ops == Ok::<Seq<GpuOp>, ResourceError>(ops_of(cmds@))
                    &&& entries@ == st.entries
                },
                Err(e) => uniform_step(old(self)@, entity, *uniforms, material_bindings@).ops
                    == Err::<Seq<GpuOp>, ResourceError>(e),
            },
    {
        let contents = uniforms.as_bytes();
        let mut out: Vec<GpuCommand> = Vec::new();
        let id = match self.uniform_buffers.get(&entity) {
            Some(u) => {
                out.push(GpuCommand::Write { id: u.buffer, offset: 0, contents });
                u.buffer
            },
            None => {
                if self.next_id == u64::MAX {
                    return Err(ResourceError::OutOfBufferIds);
                }
                let id = self.next_id;
                out.push(GpuCommand::CreateWithData { id, contents });
                self.uniform_buffers.insert(entity, InstanceUniformBuffer { buffer: id });
                self.next_id = id + 1;
                id
            },
        };
        let mut entries = vstd::slice::slice_to_vec(material_bindings);
        entries.push((INSTANCE_BINDING_INDEX, id));
        proof {
            let st = uniform_step(old(self)@, entity, *uniforms, material_bindings@);
            assert(self@.uniform_buffers =~= st.state.uniform_buffers);
            assert(ops_of(out@) =~= st.ops->Ok_0);
        }
        Ok((out, entries))
    }
}

/// The buffers the draw of entity `e` reads.
pub open spec fn draw_buffers_of(s: ResourcesView, e: u64, gpu_cull: bool) -> (
    Option<InstanceBuffer>,
    Option<GpuDrawIndexedIndirect>,
) {
    if gpu_cull {
        if s.cull.contains_key(e) {
            (Some(s.cull[e].output), Some(s.cull[e].indirect))
        } else {
            (None, None)
        }
    } else {
        (
            if s.instance_buffers.contains_key(e) {
                Some(s.instance_buffers[e])
            } else {
                None
            },
            if s.indirect_buffers.contains_key(e) {
                Some(s.indirect_buffers[e])
            } else {
                None
            },
        )
    }
}

pub struct ResourceStep {
    pub state: ResourcesView,
    pub ops: Result<Seq<GpuOp>, ResourceError>,
}

/// The indirect record of an entity drawn without GPU culling: nothing
/// without an instance buffer or an indexed mesh whose indices are placed;
/// otherwise the mesh's index range with `instance_count` equal to the
/// instance buffer's length, written in place or into a new buffer.
pub open spec fn indirect_draw_step(s: ResourcesView, e: u64, mesh: Option<RenderMeshInfo>) -> ResourceStep {
    if !s.instance_buffers.contains_key(e) || mesh is None || !mesh->Some_0.drawable_indexed() {
        ResourceStep { state: s, ops: Ok(Seq::empty()) }
    } else {
        let args = mesh->Some_0.indirect_args(s.instance_buffers[e].length as u32);
        if s.indirect_buffers.contains_key(e) {
            ResourceStep {
                state: s,
                ops: Ok(seq![GpuOp::Write { id: s.indirect_buffers[e].buffer, offset: 0, contents: args.bytes() }]),
            }
        } else if s.next_id == u64::MAX {
            ResourceStep { state: s, ops: Err(ResourceError::OutOfBufferIds) }
        } else {
            ResourceStep {
                state: ResourcesView {
                    next_id: (s.next_id + 1) as u64,
                    indirect_buffers: s.indirect_buffers.insert(
                        e,
                        GpuDrawIndexedIndirect { buffer: s.next_id, offset: 0 },
                    ),
                    ..s
                },
                ops: Ok(seq![GpuOp::CreateWithData { id: s.next_id, contents: args.bytes() }]),
            }
        }
    }
}

pub struct UniformStep {
    pub state: ResourcesView,
    pub ops: Result<Seq<GpuOp>, ResourceError>,
    pub entries: Seq<(u32, u64)>,
}

/// The instance uniform of entity `e`, written in place once its buffer
/// exists, and the combined group's entries.
pub open spec fn uniform_step(
    s: ResourcesView,
    e: u64,
    u: InstanceUniforms,
    material_bindings: Seq<(u32, u64)>,
) -> UniformStep {
    if s.uniform_buffers.contains_key(e) {
        let id = s.uniform_buffers[e].buffer;
        UniformStep {
            state: s,
            ops: Ok(seq![GpuOp::Write { id, offset: 0, contents: u.bytes() }]),
            entries: material_bindings.push((INSTANCE_BINDING_INDEX, id)),
        }
    } else if s.next_id == u64::MAX {
        UniformStep { state: s, ops: Err(ResourceError::OutOfBufferIds), entries: Seq::empty() }
    } else {
        let id = s.next_id;
        UniformStep {
            state: ResourcesView {
                next_id: (s.next_id + 1) as u64,
                uniform_buffers: s.uniform_buffers.insert(e, InstanceUniformBuffer { buffer: id }),
                ..s
            },
            ops: Ok(seq![GpuOp::CreateWithData { id, contents: u.bytes() }]),
            entries: material_bindings.push((INSTANCE_BINDING_INDEX, id)),
        }
    }
}

/// The first active view.
pub fn find_first_active(views: &[ViewInfo]) -> (r: Option<ViewInfo>)
    ensures
        r == first_active(views@),
{
    let mut i: usize = 0;
    assert(views@.skip(0) =~= views@);
    while i < views.len()
        invariant
            i <= views@.len(),
            first_active(views@) == first_active(views@.skip(i as int)),
        decreases views@.len() - i,
    {
        assert(views@.skip(i as int)[0] == views@[i as int]);
        if views[i].active {
            return Some(views[i]);
        }
        assert(views@.skip(i as int).skip(1) =~= views@.skip(i as int + 1));
        i = i + 1;
    }
    assert(views@.skip(i as int).len() == 0);
    None
}

/// What one frame of culling preparation hands back.
pub struct CullFrame {
    pub global: Result<GlobalCullStatus, ResourceError>,
    pub statuses: Vec<Result<CullStatus, ResourceError>>,
    pub commands: Vec<GpuCommand>,
    pub dispatches: Vec<Dispatch>,
}

pub struct EvictStep {
    pub state: ResourcesView,
    pub ops: Seq<GpuOp>,
}

/// Destroying an entity releases every buffer held for it and forgets it,
/// so no cache grows with entities that are gone.
pub open spec fn evict_step(s: ResourcesView, e: u64) -> EvictStep {
    let a = if s.instance_buffers.contains_key(e) {
        seq![GpuOp::Destroy { id: s.instance_buffers[e].buffer }]
    } else {
        Seq::empty()
    };
    let b = if s.indirect_buffers.contains_key(e) {
        seq![GpuOp::Destroy { id: s.indirect_buffers[e].buffer }]
    } else {
        Seq::empty()
    };
    let c = if s.uniform_buffers.contains_key(e) {
        seq![GpuOp::Destroy { id: s.uniform_buffers[e].buffer }]
    } else {
        Seq::empty()
    };
    let d = if s.cull.contains_key(e) {
        release_ops(s.cull[e])
    } else {
        Seq::empty()
    };
    EvictStep {
        state: ResourcesView {
            instance_buffers: s.instance_buffers.remove(e),
            indirect_buffers: s.indirect_buffers.remove(e),
            uniform_buffers: s.uniform_buffers.remove(e),
            cull: s.cull.remove(e),
            ..s
        },
        ops: a + b + c + d,
    }
}

/// Two consecutive frames with equal instance counts: the second keeps the
/// entity's buffer handle, and the buffer then holds exactly the encoding of
/// the latest records.
pub proof fn law_equal_counts_reuse_buffer(
    s: ResourcesView,
    mem: Map<u64, Seq<u8>>,
    e: u64,
    first: Seq<InstanceData>,
    second: Seq<InstanceData>,
)
    requires
        s.wf(),
        s.instance_memory_agrees(mem),
        s.next_id < u64::MAX,
        first.len() == second.len(),
        first.len() <= usize::MAX,
    ensures
        ({
            let f1 = instance_buffer_step(s, e, first);
            let f2 = instance_buffer_step(f1.state, e, second);
            let mem1 = crate::gpu::apply_ops(mem, f1.ops->Ok_0);
            let mem2 = crate::gpu::apply_ops(mem1, f2.ops->Ok_0);
            &&& f1.ops is Ok
            &&& f2.ops is Ok
            &&& f2.state.instance_buffers[e] == f1.state.instance_buffers[e]
            &&& mem2[f2.state.instance_buffers[e].buffer] == instances_bytes(second)
        }),
{
    let f1 = instance_buffer_step(s, e, first);
    let f2 = instance_buffer_step(f1.state, e, second);
    let mem1 = crate::gpu::apply_ops(mem, f1.ops->Ok_0);
    let b = f1.state.instance_buffers[e];
    crate::layout::lemma_instances_bytes_len(first);
    crate::layout::lemma_instances_bytes_len(second);
    if s.instance_buffers.contains_key(e) && s.instance_buffers[e].length == first.len() {
        crate::gpu::lemma_apply_ops_one(mem, f1.ops->Ok_0[0]);
    } else if s.instance_buffers.contains_key(e) {
        crate::gpu::lemma_apply_ops_two(mem, f1.ops->Ok_0[0], f1.ops->Ok_0[1]);
    } else {
        crate::gpu::lemma_apply_ops_one(mem, f1.ops->Ok_0[0]);
    }
    assert(mem1.contains_key(b.buffer));
    assert(mem1[b.buffer].len() == 32 * second.len());
    crate::gpu::lemma_apply_ops_one(mem1, f2.ops->Ok_0[0]);
    crate::gpu::lemma_write_range_whole(mem1[b.buffer], instances_bytes(second));
}

/// Two consecutive frames with different instance counts: after the second
/// the entity's buffer handle differs from the first one's, and the buffer
/// holds exactly `32 * m` bytes for the `m` latest records.
pub proof fn law_changed_count_reallocates_buffer(
    s: ResourcesView,
    mem: Map<u64, Seq<u8>>,
    e: u64,
    first: Seq<InstanceData>,
    second: Seq<InstanceData>,
)
    requires
        s.wf(),
        s.next_id < u64::MAX - 1,
        first.len() != second.len(),
        first.len() <= usize::MAX,
        second.len() <= usize::MAX,
    ensures
        ({
            let f1 = instance_buffer_step(s, e, first);
            let f2 = instance_buffer_step(f1.state, e, second);
            let mem1 = crate::gpu::apply_ops(mem, f1.ops->Ok_0);
            let mem2 = crate::gpu::apply_ops(mem1, f2.ops->Ok_0);
            &&& f1.ops is Ok
            &&& f2.ops is Ok
            &&& f2.state.instance_buffers[e].buffer != f1.state.instance_buffers[e].buffer
            &&& mem2[f2.state.instance_buffers[e].buffer].len() == 32 * second.len()
        }),
{
    let f1 = instance_buffer_step(s, e, first);
    let f2 = instance_buffer_step(f1.state, e, second);
    let mem1 = crate::gpu::apply_ops(mem, f1.ops->Ok_0);
    crate::layout::lemma_instances_bytes_len(second);
    assert(f1.state.instance_buffers[e].buffer < f1.state.next_id) by {
        if s.instance_buffers.contains_key(e) && s.instance_buffers[e].length == first.len() {
        } else {
        }
    }
    crate::gpu::lemma_apply_ops_two(mem1, f2.ops->Ok_0[0], f2.ops->Ok_0[1]);
}

} // verus!
