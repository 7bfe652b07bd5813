use bevy_eidolon::draw::{
    BindOutcome, INSTANCE_UNIFORM_GROUP, MATERIAL_GROUP, draw_instanced_material,
};
use bevy_eidolon::material::{
    BindGroupError, InstancedMaterial, InstancedMaterialKey, InstancedMaterialUniforms,
    KEY_DEBUG, KEY_DOUBLE_SIDED, KEY_GPU_CULL, KEY_LINES, KEY_POINTS, PolygonMode,
    PrepareAssetError, PreparedInstancedMaterial, StandardInstancedMaterial,
};
use bevy_eidolon::node::{InstancedComputePipeline, queue_instanced_material_compute_pipeline};
use bevy_eidolon::pipeline::{
    BindingType, BuiltinShader, ColorTarget, CompareFunction, DepthState, FragmentStage,
    INSTANCE_BINDING_INDEX, InstancedMaterialPipeline, InstancedMaterialPipelineKey, LayoutEntry,
    PipelineDescriptor, PipelineError, SHADER_STAGE_COMPUTE, SHADER_STAGE_FRAGMENT, ShaderDef,
    ShaderRef, ShaderSource, TargetFormat, VertexFormat, combined_layout, resolve_shader,
    uses_reserved_slot,
};
use bevy_eidolon::plugin::{GpuComputeCullPlugin, RenderSet, RenderStep};
use bevy_eidolon::queue::{QueueEntity, QueueView, queue_instanced_material};
use bevy_eidolon::resources::InstancedResources;
use bevy_eidolon::layout::InstanceUniforms;

fn entry(binding: u32) -> LayoutEntry {
    LayoutEntry { binding, visibility: SHADER_STAGE_FRAGMENT, ty: BindingType::Uniform, min_binding_size: Some(16) }
}

fn material(debug: bool, gpu_cull: bool, mode: PolygonMode, double_sided: bool) -> StandardInstancedMaterial {
    StandardInstancedMaterial { debug, gpu_cull, debug_color: [0; 4], polygon_mode: mode, double_sided }
}

fn host_descriptor() -> PipelineDescriptor {
    PipelineDescriptor {
        vertex_shader: 0,
        vertex_shader_defs: vec![],
        fragment: Some(FragmentStage {
            shader: 0,
            shader_defs: vec![],
            entry_point_is_fragment: true,
            targets: vec![Some(ColorTarget { format: TargetFormat::Host { id: 3 }, blend: true })],
        }),
        cull_back_faces: true,
        polygon_mode: PolygonMode::Fill,
        depth: Some(DepthState { write_enabled: false, compare: CompareFunction::Less }),
        pushes_material_group: false,
        instance_stride: None,
        instance_attributes: vec![],
    }
}

#[test]
fn reserved_slot_collision_is_refused() {
    let bad = vec![entry(0), entry(INSTANCE_BINDING_INDEX)];
    assert!(uses_reserved_slot(&bad));
    assert_eq!(
        combined_layout(&bad),
        Err(PipelineError::ReservedBindingCollision { binding: 100 })
    );
    assert!(InstancedMaterialPipeline::new(bad, 1, 2, 3).is_err());
}

#[test]
fn combined_layout_appends_instance_uniform() {
    let good = vec![entry(0), entry(1)];
    assert!(!uses_reserved_slot(&good));
    let combined = combined_layout(&good).unwrap();
    assert_eq!(combined.len(), 3);
    assert_eq!(combined[2].binding, 100);
    assert_eq!(combined[2].min_binding_size, Some(96));
    assert_eq!(combined[2].ty, BindingType::Uniform);
    let p = InstancedMaterialPipeline::new(good.clone(), 1, 2, 3).unwrap();
    assert_eq!(p.material_layout, good);
    assert_eq!(p.combined_layout, combined);
}

#[test]
fn material_key_bits() {
    assert_eq!(material(false, false, PolygonMode::Fill, false).key().bits, 0);
    assert_eq!(material(true, false, PolygonMode::Fill, false).key().bits, KEY_DEBUG);
    assert_eq!(material(false, true, PolygonMode::Point, false).key().bits, KEY_GPU_CULL | KEY_POINTS);
    assert_eq!(material(true, true, PolygonMode::Line, true).key().bits, 1 | 4 | 8 | 32);
    let mut k = InstancedMaterialKey::empty();
    k.insert(KEY_DOUBLE_SIDED);
    assert!(k.contains(KEY_DOUBLE_SIDED));
    assert!(!k.contains(KEY_LINES));
}

#[test]
fn material_specialization() {
    let mut d = host_descriptor();
    let key = material(true, false, PolygonMode::Line, true).key();
    <StandardInstancedMaterial as InstancedMaterial>::specialize(&mut d, key);
    assert!(!d.cull_back_faces);
    assert_eq!(d.polygon_mode, PolygonMode::Line);
    assert_eq!(d.fragment.as_ref().unwrap().shader_defs, vec![ShaderDef::MaterialDebug]);

    let mut d = host_descriptor();
    StandardInstancedMaterial::specialize(&mut d, material(false, false, PolygonMode::Point, false).key());
    assert!(d.cull_back_faces);
    assert_eq!(d.polygon_mode, PolygonMode::Point);
    assert!(d.fragment.as_ref().unwrap().shader_defs.is_empty());
}

#[test]
fn pipeline_specialization_main_and_prepass() {
    let p = InstancedMaterialPipeline::new(vec![entry(0)], 10, 20, 30).unwrap();
    let key = InstancedMaterialPipelineKey {
        normal_prepass: true,
        motion_vector_prepass: false,
        material: InstancedMaterialKey::empty(),
        is_prepass: false,
    };
    let mut d = host_descriptor();
    p.specialize_base(&mut d);
    p.specialize_finish(&mut d, key);
    assert!(d.pushes_material_group);
    assert_eq!(d.depth, Some(DepthState { write_enabled: true, compare: CompareFunction::GreaterEqual }));
    assert_eq!(d.vertex_shader, 10);
    let f = d.fragment.as_ref().unwrap();
    assert_eq!(f.shader, 20);
    assert_eq!(f.shader_defs, vec![ShaderDef::VisibilityRangeDither]);
    assert_eq!(f.targets[0], Some(ColorTarget { format: TargetFormat::Host { id: 3 }, blend: false }));
    assert_eq!(d.vertex_shader_defs, vec![ShaderDef::VisibilityRangeDither]);
    assert_eq!(d.instance_stride, Some(32));
    assert_eq!(d.instance_attributes.len(), 3);
    assert_eq!(d.instance_attributes[1].format, VertexFormat::Float32);
    assert_eq!(d.instance_attributes[1].offset, 16);
    assert_eq!(d.instance_attributes[2].shader_location, 10);

    let mut d = host_descriptor();
    p.specialize_base(&mut d);
    p.specialize_finish(&mut d, InstancedMaterialPipelineKey { is_prepass: true, motion_vector_prepass: true, ..key });
    assert_eq!(d.vertex_shader, 30);
    let f = d.fragment.as_ref().unwrap();
    assert_eq!(f.shader, 30);
    assert_eq!(
        f.targets,
        vec![
            Some(ColorTarget { format: TargetFormat::Rgb10a2Unorm, blend: false }),
            Some(ColorTarget { format: TargetFormat::Rg16Float, blend: false }),
        ]
    );
    assert_eq!(f.shader_defs, vec![ShaderDef::VisibilityRangeDither, ShaderDef::PrepassFragment]);

    let mut d = host_descriptor();
    p.specialize_finish(&mut d, InstancedMaterialPipelineKey { is_prepass: true, normal_prepass: false, ..key });
    let f = d.fragment.as_ref().unwrap();
    assert!(f.targets.is_empty());
    assert!(f.shader_defs.is_empty());
}

#[test]
fn queue_plans_main_and_prepass_items() {
    let key = material(false, true, PolygonMode::Fill, false).key();
    let view = QueueView { has_opaque_phase: true, has_prepass_phase: true, normal_prepass: false, motion_vector_prepass: true };
    let entities = [
        QueueEntity { entity: 1, mesh_asset: Some(7), material_key: Some(key) },
        QueueEntity { entity: 2, mesh_asset: None, material_key: Some(key) },
        QueueEntity { entity: 3, mesh_asset: Some(8), material_key: None },
        QueueEntity { entity: 4, mesh_asset: Some(7), material_key: Some(key) },
    ];
    let (opaque, prepass) = queue_instanced_material(view, &entities);
    assert_eq!(opaque.iter().map(|i| i.entity).collect::<Vec<_>>(), vec![1, 4]);
    assert_eq!(prepass.len(), 2);
    assert!(!opaque[0].key.is_prepass);
    assert!(prepass[0].key.is_prepass);
    assert_eq!(opaque[0].key, opaque[1].key);
    assert_eq!(opaque[1].mesh_asset, 7);
    assert!(opaque[0].key.motion_vector_prepass);

    let (o, p) = queue_instanced_material(QueueView { has_prepass_phase: false, ..view }, &entities);
    assert_eq!(o.len(), 2);
    assert!(p.is_empty());
    let (o, p) = queue_instanced_material(QueueView { has_opaque_phase: false, ..view }, &entities);
    assert!(o.is_empty() && p.is_empty());
}

#[test]
fn prepared_material_keeps_retry_signal() {
    let key = InstancedMaterialKey { bits: KEY_DEBUG };
    let ok = PreparedInstancedMaterial::prepare_asset(Ok(vec![(0, 5)]), key).unwrap();
    assert_eq!(ok.bindings, vec![(0, 5)]);
    assert_eq!(ok.key, key);
    assert!(matches!(
        PreparedInstancedMaterial::prepare_asset(Err(BindGroupError::RetryNextUpdate), key),
        Err(PrepareAssetError::RetryNextUpdate)
    ));
    assert!(matches!(
        PreparedInstancedMaterial::prepare_asset(Err(BindGroupError::Other { code: 4 }), key),
        Err(PrepareAssetError::BindGroup { code: 4 })
    ));
}

#[test]
fn instance_uniform_bind_group_entries() {
    let mut res = InstancedResources::new();
    let u = InstanceUniforms { color: [1; 4], visibility_range: [2; 4], world_from_local: [3; 16] };
    let (cmds, entries) = res.prepare_instanced_bind_group(8, &u, &[(0, 40), (1, 41)]).unwrap();
    assert_eq!(cmds.len(), 1);
    assert_eq!(entries.len(), 3);
    assert_eq!(&entries[..2], &[(0, 40), (1, 41)]);
    assert_eq!(entries[2].0, 100);
    let (cmds2, entries2) = res.prepare_instanced_bind_group(8, &u, &[(0, 40)]).unwrap();
    assert_eq!(entries2, vec![(0, 40), entries[2]]);
    assert!(matches!(cmds2[0], bevy_eidolon::gpu::GpuCommand::Write { offset: 0, .. }));
}

#[test]
fn shaders_resolve_to_defaults() {
    assert_eq!(resolve_shader(ShaderRef::Default, BuiltinShader::Mesh), ShaderSource::Builtin(BuiltinShader::Mesh));
    assert_eq!(resolve_shader(ShaderRef::Handle(9), BuiltinShader::Mesh), ShaderSource::Handle(9));
    assert_eq!(
        resolve_shader(ShaderRef::Path("a.wgsl".to_string()), BuiltinShader::Shading),
        ShaderSource::Path("a.wgsl".to_string())
    );
}

#[test]
fn compute_pipeline_layouts_and_queueing() {
    let mut p = InstancedComputePipeline::new();
    assert_eq!(p.entity_layout.len(), 4);
    assert_eq!(p.entity_layout[0].ty, BindingType::Storage { read_only: true });
    assert_eq!(p.entity_layout[2].min_binding_size, Some(20));
    assert_eq!(p.entity_layout[3].ty, BindingType::Uniform);
    assert!(p.entity_layout.iter().all(|e| e.visibility == SHADER_STAGE_COMPUTE));
    assert_eq!(p.global_layout[0].min_binding_size, Some(16));
    let req = queue_instanced_material_compute_pipeline(&p).unwrap();
    assert_eq!(req.layouts, vec![p.entity_layout.clone(), p.global_layout.clone()]);
    p.record_queued(12);
    assert_eq!(p.pipeline_id, Some(12));
    assert!(queue_instanced_material_compute_pipeline(&p).is_none());
    p.record_queued(13);
    assert_eq!(p.pipeline_id, Some(12));
}

#[test]
fn culling_steps_are_ordered() {
    let steps = GpuComputeCullPlugin.build();
    assert_eq!(steps.len(), 3);
    assert_eq!(steps[0].set, RenderSet::QueueMeshes);
    assert_eq!(steps[2].step, RenderStep::PrepareComputeResources);
    assert_eq!(steps[2].after, Some(RenderStep::PrepareGlobalCullBuffer));
}

#[test]
fn draw_commands_bind_their_groups() {
    let (material_group, uniforms_group, _) = draw_instanced_material();
    assert_eq!(material_group.render(Some(4)), BindOutcome::Bind { slot: MATERIAL_GROUP, group: 4 });
    assert_eq!(material_group.render(None), BindOutcome::Skip);
    assert_eq!(uniforms_group.render(Some(5)), BindOutcome::Bind { slot: INSTANCE_UNIFORM_GROUP, group: 5 });
    assert_eq!(InstancedMaterialUniforms::from_material(&StandardInstancedMaterial {
        debug_color: [7; 4],
        ..material(true, false, PolygonMode::Fill, false)
    }).debug_color, [7; 4]);
}
