//! The draw pipeline of an instanced material: its bind-group layout, with
//! the instance uniform at a reserved slot, and how a pipeline variant is
//! specialized from a key.
use vstd::prelude::*;
use crate::layout::{INSTANCE_DATA_SIZE, INSTANCE_UNIFORMS_SIZE};
use crate::material::{InstancedMaterialKey, PolygonMode};

verus! {

/// Shader stage bits.
pub const SHADER_STAGE_VERTEX: u32 = 1;
pub const SHADER_STAGE_FRAGMENT: u32 = 2;
pub const SHADER_STAGE_COMPUTE: u32 = 4;
pub const SHADER_STAGE_VERTEX_FRAGMENT: u32 = 3;

/// The binding slot of the per-entity instance uniform in the combined
/// material group. No material may declare it.
pub const INSTANCE_BINDING_INDEX: u32 = 100;

/// Vertex shader locations of the per-instance attributes.
pub const INSTANCE_POSITION_SCALE_LOCATION: u32 = 8;
pub const INSTANCE_ROTATION_LOCATION: u32 = 9;
pub const INSTANCE_INDEX_LOCATION: u32 = 10;

/// What a binding holds.
#[derive(Clone, Copy, Debug, PartialEq, Eq, Structural)]
pub enum BindingType {
    Storage { read_only: bool },
    Uniform,
    /// A binding of another kind (texture, sampler), as the material declares it.
    Other { kind: u32 },
}

/// One entry of a bind-group layout.
#[derive(Clone, Copy, Debug, PartialEq, Eq, Structural)]
pub struct LayoutEntry {
    pub binding: u32,
    pub visibility: u32,
    pub ty: BindingType,
    pub min_binding_size: Option<u64>,
}

/// The entry of the instance uniform.
pub open spec fn instance_uniform_entry() -> LayoutEntry {
    LayoutEntry {
        binding: INSTANCE_BINDING_INDEX,
        visibility: SHADER_STAGE_VERTEX_FRAGMENT,
        ty: BindingType::Uniform,
        min_binding_size: Some(INSTANCE_UNIFORMS_SIZE),
    }
}

/// A material layout claims the reserved slot.
pub open spec fn claims_reserved_slot(entries: Seq<LayoutEntry>) -> bool {
    exists|i: int| 0 <= i < entries.len() && (#[trigger] entries[i]).binding == INSTANCE_BINDING_INDEX
}

/// Why a material pipeline cannot be built.
#[derive(Clone, Copy, Debug, PartialEq, Eq, Structural)]
pub enum PipelineError {
    /// The material's own layout declares the instance-uniform slot.
    ReservedBindingCollision { binding: u32 },
}

/// Whether any entry of `entries` sits at the reserved slot.
pub fn uses_reserved_slot(entries: &[LayoutEntry]) -> (r: bool)
    ensures
        r == claims_reserved_slot(entries@),
{
    let mut i: usize = 0;
    while i < entries.len()
        invariant
            i <= entries@.len(),
            forall|j: int| 0 <= j < i ==> (#[trigger] entries@[j]).binding != INSTANCE_BINDING_INDEX,
        decreases entries@.len() - i,
    {
        if entries[i].binding == INSTANCE_BINDING_INDEX {
            return true;
        }
        i = i + 1;
    }
    false
}

/// The combined layout of a material: its own entries, then the instance
/// uniform at the reserved slot. A material that claims the slot is refused.
pub fn combined_layout(material: &[LayoutEntry]) -> (r: Result<Vec<LayoutEntry>, PipelineError>)
    ensures
        claims_reserved_slot(material@) <==> r is Err,
        r is Err ==> r == Err::<Vec<LayoutEntry>, PipelineError>(
            PipelineError::ReservedBindingCollision { binding: INSTANCE_BINDING_INDEX },
        ),
        r matches Ok(v) ==> v@ == material@.push(instance_uniform_entry()),
{
    if uses_reserved_slot(material) {
        return Err(PipelineError::ReservedBindingCollision { binding: INSTANCE_BINDING_INDEX });
    }
    let mut v = vstd::slice::slice_to_vec(material);
    v.push(
        LayoutEntry {
            binding: INSTANCE_BINDING_INDEX,
            visibility: SHADER_STAGE_VERTEX_FRAGMENT,
            ty: BindingType::Uniform,
            min_binding_size: Some(INSTANCE_UNIFORMS_SIZE),
        },
    );
    Ok(v)
}

/// Names of shader definitions the pipeline adds.
#[derive(Clone, Copy, Debug, PartialEq, Eq, Structural)]
pub enum ShaderDef {
    VisibilityRangeDither,
    PrepassFragment,
    MaterialDebug,
}

/// Depth comparison functions.
#[derive(Clone, Copy, Debug, PartialEq, Eq, Structural)]
pub enum CompareFunction {
    Never,
    Less,
    Equal,
    LessEqual,
    Greater,
    NotEqual,
    GreaterEqual,
    Always,
}

/// Depth state of a pipeline.
#[derive(Clone, Copy, Debug, PartialEq, Eq, Structural)]
pub struct DepthState {
    pub write_enabled: bool,
    pub compare: CompareFunction,
}

/// Color formats the prepass writes.
#[derive(Clone, Copy, Debug, PartialEq, Eq, Structural)]
pub enum TargetFormat {
    Rgb10a2Unorm,
    Rg16Float,
    /// A format chosen by the host's mesh pipeline.
    Host { id: u32 },
}

/// One color target.
#[derive(Clone, Copy, Debug, PartialEq, Eq, Structural)]
pub struct ColorTarget {
    pub format: TargetFormat,
    pub blend: bool,
}

/// Formats of vertex attributes.
#[derive(Clone, Copy, Debug, PartialEq, Eq, Structural)]
pub enum VertexFormat {
    Float32x4,
    Float32,
    Uint32,
}

/// One vertex attribute.
#[derive(Clone, Copy, Debug, PartialEq, Eq, Structural)]
pub struct VertexAttribute {
    pub format: VertexFormat,
    pub offset: u64,
    pub shader_location: u32,
}

/// The fragment stage.
#[derive(Clone, Debug)]
pub struct FragmentStage {
    pub shader: u64,
    pub shader_defs: Vec<ShaderDef>,
    pub entry_point_is_fragment: bool,
    pub targets: Vec<Option<ColorTarget>>,
}

/// The parts of a render pipeline description that instanced materials
/// decide. Shaders are named by the host's shader handles.
#[derive(Clone, Debug)]
pub struct PipelineDescriptor {
    pub vertex_shader: u64,
    pub vertex_shader_defs: Vec<ShaderDef>,
    pub fragment: Option<FragmentStage>,
    pub cull_back_faces: bool,
    pub polygon_mode: PolygonMode,
    pub depth: Option<DepthState>,
    /// Bind-group layouts after the host's: the combined material group.
    pub pushes_material_group: bool,
    /// Per-instance vertex buffer, once added: stride and attributes.
    pub instance_stride: Option<u64>,
    pub instance_attributes: Vec<VertexAttribute>,
}

/// [`FragmentStage`] as a value.
pub struct FragmentView {
    pub shader: u64,
    pub shader_defs: Seq<ShaderDef>,
    pub entry_point_is_fragment: bool,
    pub targets: Seq<Option<ColorTarget>>,
}

impl View for FragmentStage {
    type V = FragmentView;

    open spec fn view(&self) -> FragmentView {
        FragmentView {
            shader: self.shader,
            shader_defs: self.shader_defs@,
            entry_point_is_fragment: self.entry_point_is_fragment,
            targets: self.targets@,
        }
    }
}

/// [`PipelineDescriptor`] as a value.
pub struct PipelineView {
    pub vertex_shader: u64,
    pub vertex_shader_defs: Seq<ShaderDef>,
    pub fragment: Option<FragmentView>,
    pub cull_back_faces: bool,
    pub polygon_mode: PolygonMode,
    pub depth: Option<DepthState>,
    pub pushes_material_group: bool,
    pub instance_stride: Option<u64>,
    pub instance_attributes: Seq<VertexAttribute>,
}

impl View for PipelineDescriptor {
    type V = PipelineView;

    open spec fn view(&self) -> PipelineView {
        PipelineView {
            vertex_shader: self.vertex_shader,
            vertex_shader_defs: self.vertex_shader_defs@,
            fragment: match &self.fragment {
                Some(f) => Some(f@),
                None => None,
            },
            cull_back_faces: self.cull_back_faces,
            polygon_mode: self.polygon_mode,
            depth: self.depth,
            pushes_material_group: self.pushes_material_group,
            instance_stride: self.instance_stride,
            instance_attributes: self.instance_attributes@,
        }
    }
}

/// The key of one pipeline variant: the host's mesh flags that matter here,
/// the material's key and whether this is the depth prepass.
#[derive(Clone, Copy, Debug, PartialEq, Eq, Hash, Structural)]
pub struct InstancedMaterialPipelineKey {
    pub normal_prepass: bool,
    pub motion_vector_prepass: bool,
    pub material: InstancedMaterialKey,
    pub is_prepass: bool,
}

/// The per-instance attributes: position and scale, rotation, index.
pub open spec fn instance_attributes() -> Seq<VertexAttribute> {
    seq![
        VertexAttribute { format: VertexFormat::Float32x4, offset: 0, shader_location: INSTANCE_POSITION_SCALE_LOCATION },
        VertexAttribute { format: VertexFormat::Float32, offset: 16, shader_location: INSTANCE_ROTATION_LOCATION },
        VertexAttribute { format: VertexFormat::Uint32, offset: 20, shader_location: INSTANCE_INDEX_LOCATION },
    ]
}

/// The prepass color targets for a key.
pub open spec fn prepass_targets(key: InstancedMaterialPipelineKey) -> Seq<Option<ColorTarget>> {
    (if key.normal_prepass {
        seq![Some(ColorTarget { format: TargetFormat::Rgb10a2Unorm, blend: false })]
    } else {
        Seq::empty()
    }) + (if key.motion_vector_prepass {
        seq![Some(ColorTarget { format: TargetFormat::Rg16Float, blend: false })]
    } else {
        Seq::empty()
    })
}

/// The shader handles of a material pipeline and its layouts.
#[derive(Clone, Debug)]
pub struct InstancedMaterialPipeline {
    pub vertex_shader: u64,
    pub fragment_shader: u64,
    pub prepass_shader: u64,
    /// The material's own entries.
    pub material_layout: Vec<LayoutEntry>,
    /// The material's entries and the instance uniform.
    pub combined_layout: Vec<LayoutEntry>,
}

impl InstancedMaterialPipeline {
    /// Builds the pipeline of a material; a material whose layout claims the
    /// reserved slot is a configuration error.
    pub fn new(
        material_layout: Vec<LayoutEntry>,
        vertex_shader: u64,
        fragment_shader: u64,
        prepass_shader: u64,
    ) -> (r: Result<InstancedMaterialPipeline, PipelineError>)
        ensures
            claims_reserved_slot(material_layout@) <==> r is Err,
            r is Err ==> r == Err::<InstancedMaterialPipeline, PipelineError>(
                PipelineError::ReservedBindingCollision { binding: INSTANCE_BINDING_INDEX },
            ),
            r matches Ok(p) ==> {
                &&& p.material_layout@ == material_layout@
                &&& p.combined_layout@ == material_layout@.push(instance_uniform_entry())
                &&& p.vertex_shader == vertex_shader
                &&& p.fragment_shader == fragment_shader
                &&& p.prepass_shader == prepass_shader
            },
    {
        match combined_layout(&material_layout) {
            Ok(combined) => Ok(
                InstancedMaterialPipeline {
                    vertex_shader,
                    fragment_shader,
                    prepass_shader,
                    material_layout,
                    combined_layout: combined,
                },
            ),
            Err(e) => Err(e),
        }
    }
}

/// The first color target, if any, blends nothing.
pub open spec fn without_first_blend(t: Seq<Option<ColorTarget>>) -> Seq<Option<ColorTarget>> {
    if t.len() > 0 && t[0] is Some {
        t.update(0, Some(ColorTarget { blend: false, ..t[0]->Some_0 }))
    } else {
        t
    }
}

/// Specialization before the material's hook: the combined material group is
/// added, depth is written and compared greater-or-equal, both stages dither
/// by visibility range, and the first color target blends nothing.
pub open spec fn base_specialized(d: PipelineView) -> PipelineView {
    PipelineView {
        pushes_material_group: true,
        depth: match d.depth {
            Some(ds) => Some(DepthState { write_enabled: true, compare: CompareFunction::GreaterEqual }),
            None => None,
        },
        vertex_shader_defs: d.vertex_shader_defs.push(ShaderDef::VisibilityRangeDither),
        fragment: match d.fragment {
            Some(f) => Some(
                FragmentView {
                    targets: without_first_blend(f.targets),
                    shader_defs: f.shader_defs.push(ShaderDef::VisibilityRangeDither),
                    ..f
                },
            ),
            None => None,
        },
        ..d
    }
}

/// Specialization after the material's hook: the prepass variant runs the
/// prepass shader in both stages and writes the normal and motion-vector
/// targets the key asks for; the main variant runs the material's shaders.
/// Both read the per-instance vertex buffer: 32-byte stride, position and
/// scale at location 8, rotation at 9, index at 10.
pub open spec fn finish_specialized(
    p: InstancedMaterialPipeline,
    d: PipelineView,
    key: InstancedMaterialPipelineKey,
) -> PipelineView {
    let staged = if key.is_prepass {
        let targets = prepass_targets(key);
        PipelineView {
            vertex_shader: p.prepass_shader,
            fragment: Some(
                FragmentView {
                    shader: p.prepass_shader,
                    shader_defs: if targets.len() > 0 {
                        d.vertex_shader_defs.push(ShaderDef::PrepassFragment)
                    } else {
                        d.vertex_shader_defs
                    },
                    entry_point_is_fragment: true,
                    targets,
                },
            ),
            ..d
        }
    } else {
        PipelineView {
            vertex_shader: p.vertex_shader,
            fragment: match d.fragment {
                Some(f) => Some(FragmentView { shader: p.fragment_shader, ..f }),
                None => None,
            },
            ..d
        }
    };
    PipelineView {
        instance_stride: Some(INSTANCE_DATA_SIZE),
        instance_attributes: staged.instance_attributes + instance_attributes(),
        ..staged
    }
}

impl InstancedMaterialPipeline {
    /// The part of specialization that comes before the material's hook.
    pub fn specialize_base(&self, desc: &mut PipelineDescriptor)
        ensures
            final(desc)@ == base_specialized(old(desc)@),
    {
        desc.pushes_material_group = true;
        match &mut desc.depth {
            Some(ds) => {
                ds.write_enabled = true;
                ds.compare = CompareFunction::GreaterEqual;
            },
            None => {},
        }
        desc.vertex_shader_defs.push(ShaderDef::VisibilityRangeDither);
        match &mut desc.fragment {
            Some(f) => {
                if f.targets.len() > 0 {
                    match f.targets[0] {
                        Some(t) => {
                            f.targets.set(0, Some(ColorTarget { format: t.format, blend: false }));
                        },
                        None => {},
                    }
                }
                f.shader_defs.push(ShaderDef::VisibilityRangeDither);
            },
            None => {},
        }
        proof {
            let b = base_specialized(old(desc)@);
            assert(desc@.vertex_shader_defs =~= b.vertex_shader_defs);
            match old(desc)@.fragment {
                Some(f) => {
                    assert(desc@.fragment->Some_0.targets =~= b.fragment->Some_0.targets);
                    assert(desc@.fragment->Some_0.shader_defs =~= b.fragment->Some_0.shader_defs);
                },
                None => {},
            }
        }
    }

    /// The part of specialization that comes after the material's hook.
    pub fn specialize_finish(&self, desc: &mut PipelineDescriptor, key: InstancedMaterialPipelineKey)
        ensures
            final(desc)@ == finish_specialized(*self, old(desc)@, key),
    {
        if key.is_prepass {
            desc.vertex_shader = self.prepass_shader;
            let mut targets: Vec<Option<ColorTarget>> = Vec::new();
            if key.normal_prepass {
                targets.push(Some(ColorTarget { format: TargetFormat::Rgb10a2Unorm, blend: false }));
            }
            if key.motion_vector_prepass {
                targets.push(Some(ColorTarget { format: TargetFormat::Rg16Float, blend: false }));
            }
            let mut defs = vstd::slice::slice_to_vec(desc.vertex_shader_defs.as_slice());
            if targets.len() > 0 {
                defs.push(ShaderDef::PrepassFragment);
            }
            assert(targets@ =~= prepass_targets(key));
            desc.fragment = Some(
                FragmentStage {
                    shader: self.prepass_shader,
                    shader_defs: defs,
                    entry_point_is_fragment: true,
                    targets,
                },
            );
        } else {
            desc.vertex_shader = self.vertex_shader;
            match &mut desc.fragment {
                Some(f) => {
                    f.shader = self.fragment_shader;
                },
                None => {},
            }
        }
        desc.instance_stride = Some(INSTANCE_DATA_SIZE);
        desc.instance_attributes.push(
            VertexAttribute { format: VertexFormat::Float32x4, offset: 0, shader_location: INSTANCE_POSITION_SCALE_LOCATION },
        );
        desc.instance_attributes.push(
            VertexAttribute { format: VertexFormat::Float32, offset: 16, shader_location: INSTANCE_ROTATION_LOCATION },
        );
        desc.instance_attributes.push(
            VertexAttribute { format: VertexFormat::Uint32, offset: 20, shader_location: INSTANCE_INDEX_LOCATION },
        );
        proof {
            let f = finish_specialized(*self, old(desc)@, key);
            assert(desc@.instance_attributes =~= f.instance_attributes);
            if key.is_prepass {
                assert(desc@.fragment->Some_0.shader_defs =~= f.fragment->Some_0.shader_defs);
            }
        }
    }
}

/// The built-in shaders of the library.
#[derive(Clone, Copy, Debug, PartialEq, Eq, Structural)]
pub enum BuiltinShader {
    Mesh,
    Shading,
    Prepass,
    Compute,
}

/// A material's choice of shader.
#[derive(Clone, Debug, PartialEq, Eq)]
pub enum ShaderRef {
    /// The library's built-in shader for that stage.
    Default,
    /// A shader the application already holds.
    Handle(u64),
    /// A shader asset to load by path.
    Path(String),
}

/// Where a pipeline's shader comes from.
#[derive(Clone, Debug, PartialEq, Eq)]
pub enum ShaderSource {
    Builtin(BuiltinShader),
    Handle(u64),
    Path(String),
}

/// Resolves a material's shader choice, falling back to `default`.
pub fn resolve_shader(shader: ShaderRef, default: BuiltinShader) -> (r: ShaderSource)
    ensures
        match shader {
            ShaderRef::Default => r == ShaderSource::Builtin(default),
            ShaderRef::Handle(h) => r == ShaderSource::Handle(h),
            ShaderRef::Path(p) => r matches ShaderSource::Path(q) && q@ == p@,
        },
{
    match shader {
        ShaderRef::Default => ShaderSource::Builtin(default),
        ShaderRef::Handle(h) => ShaderSource::Handle(h),
        ShaderRef::Path(p) => ShaderSource::Path(p),
    }
}

} // verus!
