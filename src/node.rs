//! The render-graph node that runs the culling pass, and the pipeline it uses.
//!
//! The pipeline compiles asynchronously in the host's pipeline cache. The node
//! polls it every frame and dispatches nothing until it is ready; once ready,
//! one compute pass dispatches every entity prepared this frame.
use vstd::prelude::*;
use crate::cull::Dispatch;
use crate::layout::{CAMERA_CULL_DATA_SIZE, INDIRECT_ARGS_SIZE, INSTANCE_DATA_SIZE, LOD_CULL_DATA_SIZE};
use crate::pipeline::{BindingType, BuiltinShader, LayoutEntry, SHADER_STAGE_COMPUTE};

verus! {

/// What the host pipeline cache reports for a queued pipeline.
#[derive(Clone, Copy, Debug, PartialEq, Eq, Structural)]
pub enum CachedPipelineState {
    Queued,
    Creating,
    Compiled,
    Failed,
}

/// Whether the culling pipeline can be used.
#[derive(Clone, Copy, Debug, PartialEq, Eq, Structural)]
pub enum NodeState {
    /// Initial state, and the state while compilation is pending or failed.
    Loading,
    /// The pipeline compiled; the node dispatches every frame.
    Ready,
}

/// The state after one poll: `Loading` turns `Ready` once a queued pipeline
/// reports success; nothing else changes the state.
pub open spec fn node_transition(
    state: NodeState,
    pipeline_id: Option<u64>,
    cache: CachedPipelineState,
) -> NodeState {
    if state == NodeState::Loading && pipeline_id is Some && cache == CachedPipelineState::Compiled {
        NodeState::Ready
    } else {
        state
    }
}

/// The dispatches of one frame: none unless the node is ready, the compiled
/// pipeline can be fetched and the camera uniform exists; otherwise each
/// prepared entity in turn, its group at slot 0 and the camera group at slot 1.
pub open spec fn node_run(
    state: NodeState,
    pipeline_available: bool,
    camera_bound: bool,
    prepared: Seq<Dispatch>,
) -> Option<Seq<Dispatch>> {
    if state == NodeState::Ready && pipeline_available && camera_bound {
        Some(prepared)
    } else {
        None
    }
}

/// The render-graph node of the culling pass.
#[derive(Clone, Copy, Debug, PartialEq, Eq, Structural)]
pub struct InstancedComputeNode {
    pub state: NodeState,
}

impl InstancedComputeNode {
    pub fn new() -> (r: InstancedComputeNode)
        ensures
            r.state == NodeState::Loading,
    {
        InstancedComputeNode { state: NodeState::Loading }
    }

    /// Polls the pipeline cache once.
    pub fn update(&mut self, pipeline_id: Option<u64>, cache: CachedPipelineState)
        ensures
            final(self).state == node_transition(old(self).state, pipeline_id, cache),
    {
        if let NodeState::Loading = self.state {
            if pipeline_id.is_some() {
                if let CachedPipelineState::Compiled = cache {
                    self.state = NodeState::Ready;
                }
            }
        }
    }

    /// The compute pass of this frame, if one runs: the dispatches in order.
    pub fn run(&self, pipeline_available: bool, camera_bound: bool, prepared: &[Dispatch]) -> (r:
        Option<Vec<Dispatch>>)
        ensures
            match r {
                Some(v) => node_run(self.state, pipeline_available, camera_bound, prepared@)
                    == Some(v@),
                None => node_run(self.state, pipeline_available, camera_bound, prepared@) is None,
            },
    {
        match self.state {
            NodeState::Loading => None,
            NodeState::Ready => {
                if pipeline_available && camera_bound {
                    Some(vstd::slice::slice_to_vec(prepared))
                } else {
                    None
                }
            },
        }
    }
}

/// A node never leaves `Ready`, and in `Loading` a pipeline that reports an
/// error or is still compiling keeps it there.
pub proof fn law_node_state_machine(
    state: NodeState,
    pipeline_id: Option<u64>,
    cache: CachedPipelineState,
)
    ensures
        state == NodeState::Ready ==> node_transition(state, pipeline_id, cache) == NodeState::Ready,
        cache != CachedPipelineState::Compiled ==> node_transition(state, pipeline_id, cache) == state,
        pipeline_id is None ==> node_transition(state, pipeline_id, cache) == state,
{
}

/// The culling pipeline: its two bind-group layouts and, once queued, the
/// pipeline-cache id.
#[derive(Clone, Debug)]
pub struct InstancedComputePipeline {
    pub entity_layout: Vec<LayoutEntry>,
    pub global_layout: Vec<LayoutEntry>,
    pub pipeline_id: Option<u64>,
}

/// Group 0, one per entity: source records (read-only storage), output
/// records (storage), the indirect record (storage) and the LOD uniform.
pub open spec fn compute_entity_layout() -> Seq<LayoutEntry> {
    seq![
        LayoutEntry {
            binding: 0,
            visibility: SHADER_STAGE_COMPUTE,
            ty: BindingType::Storage { read_only: true },
            min_binding_size: Some(INSTANCE_DATA_SIZE),
        },
        LayoutEntry {
            binding: 1,
            visibility: SHADER_STAGE_COMPUTE,
            ty: BindingType::Storage { read_only: false },
            min_binding_size: Some(INSTANCE_DATA_SIZE),
        },
        LayoutEntry {
            binding: 2,
            visibility: SHADER_STAGE_COMPUTE,
            ty: BindingType::Storage { read_only: false },
            min_binding_size: Some(INDIRECT_ARGS_SIZE),
        },
        LayoutEntry {
            binding: 3,
            visibility: SHADER_STAGE_COMPUTE,
            ty: BindingType::Uniform,
            min_binding_size: Some(LOD_CULL_DATA_SIZE),
        },
    ]
}

/// Group 1, shared: the camera uniform.
pub open spec fn compute_global_layout() -> Seq<LayoutEntry> {
    seq![
        LayoutEntry {
            binding: 0,
            visibility: SHADER_STAGE_COMPUTE,
            ty: BindingType::Uniform,
            min_binding_size: Some(CAMERA_CULL_DATA_SIZE),
        },
    ]
}

impl InstancedComputePipeline {
    /// The layouts of the culling pass; nothing queued yet.
    pub fn new() -> (r: InstancedComputePipeline)
        ensures
            r.entity_layout@ == compute_entity_layout(),
            r.global_layout@ == compute_global_layout(),
            r.pipeline_id is None,
    {
        let entity_layout = vec![
            LayoutEntry {
                binding: 0,
                visibility: SHADER_STAGE_COMPUTE,
                ty: BindingType::Storage { read_only: true },
                min_binding_size: Some(INSTANCE_DATA_SIZE),
            },
            LayoutEntry {
                binding: 1,
                visibility: SHADER_STAGE_COMPUTE,
                ty: BindingType::Storage { read_only: false },
                min_binding_size: Some(INSTANCE_DATA_SIZE),
            },
            LayoutEntry {
                binding: 2,
                visibility: SHADER_STAGE_COMPUTE,
                ty: BindingType::Storage { read_only: false },
                min_binding_size: Some(INDIRECT_ARGS_SIZE),
            },
            LayoutEntry {
                binding: 3,
                visibility: SHADER_STAGE_COMPUTE,
                ty: BindingType::Uniform,
                min_binding_size: Some(LOD_CULL_DATA_SIZE),
            },
        ];
        let global_layout = vec![
            LayoutEntry {
                binding: 0,
                visibility: SHADER_STAGE_COMPUTE,
                ty: BindingType::Uniform,
                min_binding_size: Some(CAMERA_CULL_DATA_SIZE),
            },
        ];
        assert(entity_layout@ =~= compute_entity_layout());
        assert(global_layout@ =~= compute_global_layout());
        InstancedComputePipeline { entity_layout, global_layout, pipeline_id: None }
    }

    /// Whether the pipeline still has to be queued with the pipeline cache.
    pub fn needs_queue(&self) -> (r: bool)
        ensures
            r == (self.pipeline_id is None),
    {
        self.pipeline_id.is_none()
    }

    /// Records the id the pipeline cache gave the queued pipeline; a
    /// pipeline is queued at most once.
    pub fn record_queued(&mut self, id: u64)
        ensures
            final(self).pipeline_id == (if old(self).pipeline_id is None {
                Some(id)
            } else {
                old(self).pipeline_id
            }),
            final(self).entity_layout@ == old(self).entity_layout@,
            final(self).global_layout@ == old(self).global_layout@,
    {
        if self.pipeline_id.is_none() {
            self.pipeline_id = Some(id);
        }
    }
}

/// What to hand the pipeline cache when the culling pipeline is queued:
/// the entity group, then the camera group, entry point `main`.
#[derive(Clone, Debug)]
pub struct ComputePipelineRequest {
    pub layouts: Vec<Vec<LayoutEntry>>,
    pub shader: BuiltinShader,
}

/// The request to queue the culling pipeline, unless it was queued already.
pub fn queue_instanced_material_compute_pipeline(pipeline: &InstancedComputePipeline) -> (r: Option<
    ComputePipelineRequest,
>)
    ensures
        pipeline.pipeline_id is Some <==> r is None,
        r matches Some(q) ==> {
            &&& q.layouts@.len() == 2
            &&& q.layouts@[0]@ == pipeline.entity_layout@
            &&& q.layouts@[1]@ == pipeline.global_layout@
            &&& q.shader == BuiltinShader::Compute
        },
{
    if pipeline.pipeline_id.is_some() {
        return None;
    }
    let mut layouts: Vec<Vec<LayoutEntry>> = Vec::new();
    layouts.push(vstd::slice::slice_to_vec(pipeline.entity_layout.as_slice()));
    layouts.push(vstd::slice::slice_to_vec(pipeline.global_layout.as_slice()));
    Some(ComputePipelineRequest { layouts, shader: BuiltinShader::Compute })
}

/// The number of instances that pass the visibility test.
pub open spec fn count_visible(visible: Seq<bool>) -> nat
    decreases visible.len(),
{
    if visible.len() == 0 {
        0
    } else {
        count_visible(visible.drop_last()) + if visible.last() {
            1nat
        } else {
            0nat
        }
    }
}

/// `instance_count` after the invocations in `order` ran, each one adding one
/// atomically when its instance is visible, starting from `start`.
pub open spec fn atomic_count(start: nat, visible: Seq<bool>, order: Seq<int>) -> nat
    decreases order.len(),
{
    if order.len() == 0 {
        start
    } else {
        atomic_count(start, visible, order.drop_last()) + if visible[order.last()] {
            1nat
        } else {
            0nat
        }
    }
}

/// `order` runs every invocation `0..n` exactly once.
pub open spec fn is_schedule(order: Seq<int>, n: nat) -> bool {
    &&& order.len() == n
    &&& forall|j: int| 0 <= j < order.len() ==> 0 <= #[trigger] order[j] < n
    &&& forall|j: int, k: int| 0 <= j < k < order.len() ==> order[j] != order[k]
    &&& forall|i: int| 0 <= i < n ==> #[trigger] order.contains(i)
}

proof fn lemma_atomic_count_remove(start: nat, visible: Seq<bool>, order: Seq<int>, p: int)
    requires
        0 <= p < order.len(),
    ensures
        atomic_count(start, visible, order) == atomic_count(start, visible, order.remove(p)) + if visible[order[p]] {
            1nat
        } else {
            0nat
        },
    decreases order.len(),
{
    if p == order.len() - 1 {
        assert(order.remove(p) =~= order.drop_last());
    } else {
        assert(order.remove(p).drop_last() =~= order.drop_last().remove(p));
        assert(order.remove(p).last() == order.last());
        lemma_atomic_count_remove(start, visible, order.drop_last(), p);
    }
}

proof fn lemma_atomic_count_agree(start: nat, a: Seq<bool>, b: Seq<bool>, order: Seq<int>)
    requires
        forall|j: int| 0 <= j < order.len() ==> 0 <= #[trigger] order[j] < a.len() && order[j] < b.len() && a[order[j]] == b[order[j]],
    ensures
        atomic_count(start, a, order) == atomic_count(start, b, order),
    decreases order.len(),
{
    if order.len() > 0 {
        assert forall|j: int| 0 <= j < order.drop_last().len() implies 0 <= #[trigger] order.drop_last()[j] < a.len() && order.drop_last()[j] < b.len() && a[order.drop_last()[j]] == b[order.drop_last()[j]] by {
            assert(order.drop_last()[j] == order[j]);
        }
        lemma_atomic_count_agree(start, a, b, order.drop_last());
        assert(order.last() == order[order.len() - 1]);
    }
}

/// The culling pass, whatever order its invocations run in, leaves
/// `instance_count` at its seeded value plus the number of visible instances:
/// from the seeded `0`, exactly the `k` of `n` instances that pass.
pub proof fn law_culled_count_is_order_independent(start: nat, visible: Seq<bool>, order: Seq<int>)
    requires
        is_schedule(order, visible.len()),
    ensures
        atomic_count(start, visible, order) == start + count_visible(visible),
    decreases visible.len(),
{
    let n = visible.len();
    if n == 0 {
        assert(order.len() == 0);
    } else {
        let last = n - 1;
        assert(order.contains(last));
        let p = choose|j: int| 0 <= j < order.len() && #[trigger] order[j] == last;
        lemma_atomic_count_remove(start, visible, order, p);
        let rest = order.remove(p);
        let shorter = visible.drop_last();
        assert forall|j: int| 0 <= j < rest.len() implies 0 <= #[trigger] rest[j] < n - 1 by {
            if j < p {
                assert(rest[j] == order[j]);
            } else {
                assert(rest[j] == order[j + 1]);
            }
        }
        assert forall|j: int, k: int| 0 <= j < k < rest.len() implies rest[j] != rest[k] by {
            let oj = if j < p { j } else { j + 1 };
            let ok = if k < p { k } else { k + 1 };
            assert(rest[j] == order[oj]);
            assert(rest[k] == order[ok]);
        }
        assert forall|i: int| 0 <= i < n - 1 implies #[trigger] rest.contains(i) by {
            assert(order.contains(i));
            let j0 = choose|j: int| 0 <= j < order.len() && #[trigger] order[j] == i;
            assert(j0 != p);
            if j0 < p {
                assert(rest[j0] == i);
            } else {
                assert(rest[j0 - 1] == i);
            }
        }
        lemma_atomic_count_agree(start, visible, shorter, rest);
        law_culled_count_is_order_independent(start, shorter, rest);
        assert(visible.last() == visible[last]);
    }
}

} // verus!
