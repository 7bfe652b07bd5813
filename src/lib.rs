//! GPU-instanced drawing: instance data, the GPU buffers derived from it,
//! the compute culling pass that fills indirect draws, the draw commands and
//! the material pipelines.
use vstd::prelude::*;

pub mod layout;
pub mod gpu;
pub mod resources;
pub mod components;
pub mod cull;
pub mod node;
pub mod pipeline;
pub mod material;
pub mod draw;
pub mod queue;
pub mod plugin;

verus! {

} // verus!
