//! Where the library's steps run in the host's frame: the system sets, the
//! ordering between steps, and the render-graph edge of the culling node.
use vstd::prelude::*;

verus! {

/// The host's per-frame phases that the library uses, in frame order.
#[derive(Clone, Copy, Debug, PartialEq, Eq, Structural)]
pub enum RenderSet {
    QueueMeshes,
    PrepareResources,
}

/// The library's per-frame steps.
#[derive(Clone, Copy, Debug, PartialEq, Eq, Structural)]
pub enum RenderStep {
    QueueComputePipeline,
    PrepareGlobalCullBuffer,
    PrepareComputeResources,
    PrepareInstanceBuffer,
    PrepareIndirectDrawBuffer,
    QueueInstancedMaterial,
    PrepareInstancedBindGroup,
}

/// One step, its phase and the step it must run after, if any.
#[derive(Clone, Copy, Debug, PartialEq, Eq, Structural)]
pub struct ScheduledStep {
    pub step: RenderStep,
    pub set: RenderSet,
    pub after: Option<RenderStep>,
}

/// The render-graph node of the culling pass.
#[derive(Clone, Copy, Debug, PartialEq, Eq, Hash, Structural)]
pub struct InstancedMaterialComputeLabel;

/// The steps of GPU culling: the pipeline is queued with the meshes; the
/// camera uniform is prepared, and the per-entity resources strictly after it.
pub open spec fn cull_schedule() -> Seq<ScheduledStep> {
    seq![
        ScheduledStep { step: RenderStep::QueueComputePipeline, set: RenderSet::QueueMeshes, after: None },
        ScheduledStep { step: RenderStep::PrepareGlobalCullBuffer, set: RenderSet::PrepareResources, after: None },
        ScheduledStep {
            step: RenderStep::PrepareComputeResources,
            set: RenderSet::PrepareResources,
            after: Some(RenderStep::PrepareGlobalCullBuffer),
        },
    ]
}

/// Adds GPU culling: its steps, and the culling node
/// ([`InstancedMaterialComputeLabel`]), which the host runs before its camera
/// driver renders any view.
#[derive(Clone, Copy, Debug, PartialEq, Eq, Structural)]
pub struct GpuComputeCullPlugin;

impl GpuComputeCullPlugin {
    pub fn build(&self) -> (r: Vec<ScheduledStep>)
        ensures
            r@ == cull_schedule(),
    {
        let r = vec![
            ScheduledStep { step: RenderStep::QueueComputePipeline, set: RenderSet::QueueMeshes, after: None },
            ScheduledStep { step: RenderStep::PrepareGlobalCullBuffer, set: RenderSet::PrepareResources, after: None },
            ScheduledStep {
                step: RenderStep::PrepareComputeResources,
                set: RenderSet::PrepareResources,
                after: Some(RenderStep::PrepareGlobalCullBuffer),
            },
        ];
        assert(r@ =~= cull_schedule());
        r
    }
}

/// Adds the instance buffers and indirect records of entities drawn without
/// GPU culling.
#[derive(Clone, Copy, Debug, PartialEq, Eq, Structural)]
pub struct InstancedMaterialCorePlugin;

impl InstancedMaterialCorePlugin {
    pub fn build(&self) -> (r: Vec<ScheduledStep>)
        ensures
            r@ == seq![
                ScheduledStep { step: RenderStep::PrepareInstanceBuffer, set: RenderSet::PrepareResources, after: None },
                ScheduledStep {
                    step: RenderStep::PrepareIndirectDrawBuffer,
                    set: RenderSet::PrepareResources,
                    after: Some(RenderStep::PrepareInstanceBuffer),
                },
            ],
    {
        let r = vec![
            ScheduledStep { step: RenderStep::PrepareInstanceBuffer, set: RenderSet::PrepareResources, after: None },
            ScheduledStep {
                step: RenderStep::PrepareIndirectDrawBuffer,
                set: RenderSet::PrepareResources,
                after: Some(RenderStep::PrepareInstanceBuffer),
            },
        ];
        assert(r@ =~= seq![
            ScheduledStep { step: RenderStep::PrepareInstanceBuffer, set: RenderSet::PrepareResources, after: None },
            ScheduledStep {
                step: RenderStep::PrepareIndirectDrawBuffer,
                set: RenderSet::PrepareResources,
                after: Some(RenderStep::PrepareInstanceBuffer),
            },
        ]);
        r
    }
}

/// Adds one material: its queueing and its combined bind groups.
#[derive(Clone, Copy, Debug, PartialEq, Eq, Structural, Default)]
pub struct InstancedMaterialPlugin;

impl InstancedMaterialPlugin {
    pub fn build(&self) -> (r: Vec<ScheduledStep>)
        ensures
            r@ == seq![
                ScheduledStep { step: RenderStep::QueueInstancedMaterial, set: RenderSet::QueueMeshes, after: None },
                ScheduledStep { step: RenderStep::PrepareInstancedBindGroup, set: RenderSet::PrepareResources, after: None },
            ],
    {
        let r = vec![
            ScheduledStep { step: RenderStep::QueueInstancedMaterial, set: RenderSet::QueueMeshes, after: None },
            ScheduledStep { step: RenderStep::PrepareInstancedBindGroup, set: RenderSet::PrepareResources, after: None },
        ];
        assert(r@ =~= seq![
            ScheduledStep { step: RenderStep::QueueInstancedMaterial, set: RenderSet::QueueMeshes, after: None },
            ScheduledStep { step: RenderStep::PrepareInstancedBindGroup, set: RenderSet::PrepareResources, after: None },
        ]);
        r
    }
}

} // verus!
