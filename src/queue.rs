//! Queueing: which entities go into a view's opaque phase and depth prepass,
//! and with which pipeline key.
use vstd::prelude::*;
use crate::material::InstancedMaterialKey;
use crate::pipeline::InstancedMaterialPipelineKey;

verus! {

/// What the queue step reads of a camera view.
#[derive(Clone, Copy, Debug, PartialEq, Eq, Structural)]
pub struct QueueView {
    /// The view has an opaque phase to queue into.
    pub has_opaque_phase: bool,
    /// The view has a depth-prepass phase.
    pub has_prepass_phase: bool,
    pub normal_prepass: bool,
    pub motion_vector_prepass: bool,
}

/// What the queue step reads of an entity with instances and a material.
#[derive(Clone, Copy, Debug, PartialEq, Eq, Structural)]
pub struct QueueEntity {
    pub entity: u64,
    /// The mesh asset, once its GPU representation exists.
    pub mesh_asset: Option<u64>,
    /// The material's key, once the material is prepared.
    pub material_key: Option<InstancedMaterialKey>,
}

/// One item for a render phase: the entity, its pipeline key and the mesh
/// asset it is binned by.
#[derive(Clone, Copy, Debug, PartialEq, Eq, Structural)]
pub struct PhaseItem {
    pub entity: u64,
    pub key: InstancedMaterialPipelineKey,
    pub mesh_asset: u64,
}

/// The pipeline key for an entity in a view.
pub open spec fn pipeline_key(
    v: QueueView,
    material: InstancedMaterialKey,
    is_prepass: bool,
) -> InstancedMaterialPipelineKey {
    InstancedMaterialPipelineKey {
        normal_prepass: v.normal_prepass,
        motion_vector_prepass: v.motion_vector_prepass,
        material,
        is_prepass,
    }
}

/// The items of one view, in entity order.
pub struct QueuePlan {
    pub opaque: Seq<PhaseItem>,
    pub prepass: Seq<PhaseItem>,
}

/// The phase items of a view: none without an opaque phase; otherwise every
/// entity whose mesh and material are ready goes into the opaque phase, and
/// into the prepass when the view has one. Others wait for a later frame.
pub open spec fn queue_plan(v: QueueView, entities: Seq<QueueEntity>) -> QueuePlan
    decreases entities.len(),
{
    if entities.len() == 0 || !v.has_opaque_phase {
        QueuePlan { opaque: Seq::empty(), prepass: Seq::empty() }
    } else {
        let prev = queue_plan(v, entities.drop_last());
        let x = entities.last();
        if x.mesh_asset is None || x.material_key is None {
            prev
        } else {
            let main = PhaseItem {
                entity: x.entity,
                key: pipeline_key(v, x.material_key->Some_0, false),
                mesh_asset: x.mesh_asset->Some_0,
            };
            let pre = PhaseItem {
                entity: x.entity,
                key: pipeline_key(v, x.material_key->Some_0, true),
                mesh_asset: x.mesh_asset->Some_0,
            };
            QueuePlan {
                opaque: prev.opaque.push(main),
                prepass: if v.has_prepass_phase {
                    prev.prepass.push(pre)
                } else {
                    prev.prepass
                },
            }
        }
    }
}

/// Plans the phase items of one view.
pub fn queue_instanced_material(v: QueueView, entities: &[QueueEntity]) -> (r: (
    Vec<PhaseItem>,
    Vec<PhaseItem>,
))
    ensures
        r.0@ == queue_plan(v, entities@).opaque,
        r.1@ == queue_plan(v, entities@).prepass,
{
    let mut opaque: Vec<PhaseItem> = Vec::new();
    let mut prepass: Vec<PhaseItem> = Vec::new();
    if !v.has_opaque_phase {
        return (opaque, prepass);
    }
    let mut i: usize = 0;
    while i < entities.len()
        invariant
            i <= entities@.len(),
            v.has_opaque_phase,
            opaque@ == queue_plan(v, entities@.take(i as int)).opaque,
            prepass@ == queue_plan(v, entities@.take(i as int)).prepass,
        decreases entities@.len() - i,
    {
        let x = entities[i];
        proof {
            let t = entities@.take(i as int + 1);
            assert(t.drop_last() =~= entities@.take(i as int));
            assert(t.last() == x);
        }
        match (x.mesh_asset, x.material_key) {
            (Some(mesh_asset), Some(material)) => {
                opaque.push(
                    PhaseItem {
                        entity: x.entity,
                        key: InstancedMaterialPipelineKey {
                            normal_prepass: v.normal_prepass,
                            motion_vector_prepass: v.motion_vector_prepass,
                            material,
                            is_prepass: false,
                        },
                        mesh_asset,
                    },
                );
                if v.has_prepass_phase {
                    prepass.push(
                        PhaseItem {
                            entity: x.entity,
                            key: InstancedMaterialPipelineKey {
                                normal_prepass: v.normal_prepass,
                                motion_vector_prepass: v.motion_vector_prepass,
                                material,
                                is_prepass: true,
                            },
                            mesh_asset,
                        },
                    );
                }
            },
            _ => {},
        }
        i = i + 1;
    }
    assert(entities@.take(i as int) =~= entities@);
    (opaque, prepass)
}

} // verus!
