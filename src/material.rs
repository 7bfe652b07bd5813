//! Materials: the flags a material reports, the key that selects its
//! pipeline variant, and how the standard material specializes a pipeline.
//!
//! Materials with equal keys share one compiled pipeline variant.
use vstd::prelude::*;
use crate::pipeline::{PipelineDescriptor, PipelineView, FragmentView, ShaderDef};

verus! {

/// How polygons are rasterized.
#[derive(Clone, Copy, Debug, PartialEq, Eq, Structural)]
pub enum PolygonMode {
    Fill,
    Line,
    Point,
}

/// The bits of a material key.
pub const KEY_DEBUG: u64 = 1;
pub const KEY_GPU_CULL: u64 = 4;
pub const KEY_LINES: u64 = 8;
pub const KEY_POINTS: u64 = 16;
pub const KEY_DOUBLE_SIDED: u64 = 32;

/// A set of material flags; one pipeline variant per distinct set.
#[derive(Clone, Copy, Debug, PartialEq, Eq, Hash, Structural)]
pub struct InstancedMaterialKey {
    pub bits: u64,
}

impl InstancedMaterialKey {
    pub open spec fn has(self, flag: u64) -> bool {
        self.bits & flag == flag
    }

    pub fn empty() -> (r: InstancedMaterialKey)
        ensures
            r.bits == 0,
    {
        InstancedMaterialKey { bits: 0 }
    }

    pub fn contains(&self, flag: u64) -> (r: bool)
        ensures
            r == self.has(flag),
    {
        self.bits & flag == flag
    }

    pub fn insert(&mut self, flag: u64)
        ensures
            final(self).bits == old(self).bits | flag,
    {
        self.bits = self.bits | flag;
    }
}

/// The flags of a key built from these settings.
pub open spec fn key_bits(debug: bool, gpu_cull: bool, double_sided: bool, mode: PolygonMode) -> u64 {
    (if debug { KEY_DEBUG } else { 0u64 }) | (if gpu_cull { KEY_GPU_CULL } else { 0u64 }) | (
    if double_sided {
        KEY_DOUBLE_SIDED
    } else {
        0u64
    }) | (match mode {
        PolygonMode::Point => KEY_POINTS,
        PolygonMode::Line => KEY_LINES,
        PolygonMode::Fill => 0u64,
    })
}

/// The built-in material: a flat color with optional debug tint, wireframe
/// or point rendering, two-sided faces and GPU culling.
#[derive(Clone, Copy, Debug, PartialEq, Eq)]
pub struct StandardInstancedMaterial {
    pub debug: bool,
    pub gpu_cull: bool,
    /// Linear RGBA, float bit patterns.
    pub debug_color: [u32; 4],
    pub polygon_mode: PolygonMode,
    pub double_sided: bool,
}

/// The pipeline after the standard material's specialization: two-sided
/// materials cull no faces, point and line materials rasterize so (lines win
/// over points), and debug materials add their definition to the fragment
/// stage.
pub open spec fn material_specialized(d: PipelineView, key: InstancedMaterialKey) -> PipelineView {
    PipelineView {
        cull_back_faces: if key.has(KEY_DOUBLE_SIDED) {
            false
        } else {
            d.cull_back_faces
        },
        polygon_mode: if key.has(KEY_LINES) {
            PolygonMode::Line
        } else if key.has(KEY_POINTS) {
            PolygonMode::Point
        } else {
            d.polygon_mode
        },
        fragment: match d.fragment {
            Some(f) => Some(
                if key.has(KEY_DEBUG) {
                    FragmentView { shader_defs: f.shader_defs.push(ShaderDef::MaterialDebug), ..f }
                } else {
                    f
                },
            ),
            None => None,
        },
        ..d
    }
}

impl StandardInstancedMaterial {
    pub fn polygon_mode(&self) -> (r: PolygonMode)
        ensures
            r == self.polygon_mode,
    {
        self.polygon_mode
    }

    pub fn debug(&self) -> (r: bool)
        ensures
            r == self.debug,
    {
        self.debug
    }

    pub fn debug_color(&self) -> (r: [u32; 4])
        ensures
            r == self.debug_color,
    {
        self.debug_color
    }

    pub fn double_sided(&self) -> (r: bool)
        ensures
            r == self.double_sided,
    {
        self.double_sided
    }

    pub fn gpu_cull(&self) -> (r: bool)
        ensures
            r == self.gpu_cull,
    {
        self.gpu_cull
    }

    /// The key of this material's pipeline variant.
    pub fn key(&self) -> (r: InstancedMaterialKey)
        ensures
            r.bits == key_bits(self.debug, self.gpu_cull, self.double_sided, self.polygon_mode),
    {
        let mode_bits: u64 = match self.polygon_mode {
            PolygonMode::Point => KEY_POINTS,
            PolygonMode::Line => KEY_LINES,
            PolygonMode::Fill => 0u64,
        };
        let bits = (if self.debug { KEY_DEBUG } else { 0u64 }) | (if self.gpu_cull {
            KEY_GPU_CULL
        } else {
            0u64
        }) | (if self.double_sided {
            KEY_DOUBLE_SIDED
        } else {
            0u64
        }) | mode_bits;
        InstancedMaterialKey { bits }
    }

    /// Applies the material's part of pipeline specialization.
    pub fn specialize(desc: &mut PipelineDescriptor, key: InstancedMaterialKey)
        ensures
            final(desc)@ == material_specialized(old(desc)@, key),
    {
        if key.contains(KEY_DOUBLE_SIDED) {
            desc.cull_back_faces = false;
        }
        if key.contains(KEY_POINTS) {
            desc.polygon_mode = PolygonMode::Point;
        }
        if key.contains(KEY_LINES) {
            desc.polygon_mode = PolygonMode::Line;
        }
        if key.contains(KEY_DEBUG) {
            match &mut desc.fragment {
                Some(f) => {
                    f.shader_defs.push(ShaderDef::MaterialDebug);
                },
                None => {},
            }
        }
    }
}

/// The capabilities of a material. The shading flags default to a plain,
/// one-sided, filled, non-debug material drawn without GPU culling; a
/// material overrides what it supports.
pub trait InstancedMaterial {
    fn polygon_mode(&self) -> PolygonMode {
        PolygonMode::Fill
    }

    fn debug(&self) -> bool {
        false
    }

    fn double_sided(&self) -> bool {
        false
    }

    fn gpu_cull(&self) -> bool {
        false
    }

    /// The key that selects the material's pipeline variant.
    fn key(&self) -> InstancedMaterialKey;

    /// The material's part of pipeline specialization; none by default.
    fn specialize(desc: &mut PipelineDescriptor, key: InstancedMaterialKey) {
    }
}

impl InstancedMaterial for StandardInstancedMaterial {
    fn polygon_mode(&self) -> PolygonMode {
        self.polygon_mode
    }

    fn debug(&self) -> bool {
        self.debug
    }

    fn double_sided(&self) -> bool {
        self.double_sided
    }

    fn gpu_cull(&self) -> bool {
        self.gpu_cull
    }

    fn key(&self) -> InstancedMaterialKey {
        StandardInstancedMaterial::key(self)
    }

    fn specialize(desc: &mut PipelineDescriptor, key: InstancedMaterialKey) {
        StandardInstancedMaterial::specialize(desc, key)
    }
}

/// The uniform of the standard material: its debug color, linear RGBA.
#[derive(Clone, Copy, Debug, PartialEq, Eq)]
pub struct InstancedMaterialUniforms {
    pub debug_color: [u32; 4],
}

impl InstancedMaterialUniforms {
    pub fn new(debug_color: [u32; 4]) -> (r: InstancedMaterialUniforms)
        ensures
            r.debug_color == debug_color,
    {
        InstancedMaterialUniforms { debug_color }
    }

    pub fn from_material(material: &StandardInstancedMaterial) -> (r: InstancedMaterialUniforms)
        ensures
            r.debug_color == material.debug_color,
    {
        InstancedMaterialUniforms::new(material.debug_color)
    }
}

/// Why the host could not build a material's bind group.
#[derive(Clone, Copy, Debug, PartialEq, Eq, Structural)]
pub enum BindGroupError {
    /// A resource is not resident yet; try on a later update.
    RetryNextUpdate,
    /// Any other failure, by the host's code.
    Other { code: u32 },
}

/// Why a material was not prepared.
#[derive(Clone, Copy, Debug, PartialEq, Eq, Structural)]
pub enum PrepareAssetError {
    /// Keep the material and prepare it again next frame.
    RetryNextUpdate,
    /// The bind group could not be built.
    BindGroup { code: u32 },
}

/// A material ready to draw: its bindings (slot and host resource) and key.
#[derive(Clone, Debug)]
pub struct PreparedInstancedMaterial {
    pub bindings: Vec<(u32, u64)>,
    pub key: InstancedMaterialKey,
}

impl PreparedInstancedMaterial {
    pub fn new(bindings: Vec<(u32, u64)>, key: InstancedMaterialKey) -> (r: PreparedInstancedMaterial)
        ensures
            r.bindings@ == bindings@,
            r.key == key,
    {
        PreparedInstancedMaterial { bindings, key }
    }

    /// Prepares a material from the host's attempt at its bind group: a
    /// retry stays a retry, so the material is reprocessed next frame.
    pub fn prepare_asset(unprepared: Result<Vec<(u32, u64)>, BindGroupError>, key: InstancedMaterialKey) -> (r:
        Result<PreparedInstancedMaterial, PrepareAssetError>)
        ensures
            match unprepared {
                Ok(b) => r matches Ok(p) && p.bindings@ == b@ && p.key == key,
                Err(BindGroupError::RetryNextUpdate) => r matches Err(PrepareAssetError::RetryNextUpdate),
                Err(BindGroupError::Other { code }) => r matches Err(PrepareAssetError::BindGroup { code: c }) && c == code,
            },
    {
        match unprepared {
            Ok(bindings) => Ok(PreparedInstancedMaterial::new(bindings, key)),
            Err(BindGroupError::RetryNextUpdate) => Err(PrepareAssetError::RetryNextUpdate),
            Err(BindGroupError::Other { code }) => Err(PrepareAssetError::BindGroup { code }),
        }
    }
}

} // verus!
