//! What the application attaches to a drawable entity.
use vstd::prelude::*;
use crate::layout::{InstanceData, InstanceUniforms};
use std::sync::Arc;

verus! {

/// Opt-in marker: the entity's instances are filtered on the GPU by the
/// culling pass before they are drawn.
#[derive(Clone, Copy, Debug, Default, PartialEq, Eq, Structural)]
pub struct GpuCull;

/// The instances of one drawable: a shared array that is replaced whole and
/// never changed in place, an aggregate linear color and the visibility range
/// `[min_visible, min_fade, max_fade, max_visible]` (float bit patterns).
#[derive(Clone, Debug)]
pub struct InstanceMaterialData {
    pub instances: Arc<Vec<InstanceData>>,
    pub color: [u32; 4],
    pub visibility_range: [u32; 4],
}

impl InstanceMaterialData {
    pub fn new(instances: Vec<InstanceData>, color: [u32; 4], visibility_range: [u32; 4]) -> (r:
        InstanceMaterialData)
        ensures
            r.instances@ == instances@,
            r.color == color,
            r.visibility_range == visibility_range,
    {
        InstanceMaterialData { instances: Arc::new(instances), color, visibility_range }
    }

    /// The number of instances.
    pub fn len(&self) -> (r: usize)
        ensures
            r == self.instances@.len(),
    {
        self.instances.len()
    }

    /// The instance records.
    pub fn records(&self) -> (r: &[InstanceData])
        ensures
            r@ == self.instances@,
    {
        self.instances.as_slice()
    }
}

impl InstanceUniforms {
    /// The draw uniform of an entity: its color and visibility range, and
    /// its current world transform.
    pub fn from_material(data: &InstanceMaterialData, world_from_local: [u32; 16]) -> (r:
        InstanceUniforms)
        ensures
            r.color == data.color,
            r.visibility_range == data.visibility_range,
            r.world_from_local == world_from_local,
    {
        InstanceUniforms {
            color: data.color,
            visibility_range: data.visibility_range,
            world_from_local,
        }
    }
}

} // verus!
