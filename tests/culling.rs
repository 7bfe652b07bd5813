use bevy_eidolon::components::InstanceMaterialData;
use bevy_eidolon::cull::{
    CullEntityInput, CullStatus, Dispatch, GlobalCullStatus, MeshBufferInfo, RenderMeshInfo,
    ViewInfo, workgroup_count,
};
use bevy_eidolon::draw::{DrawCommand, DrawInstancedMaterialMesh};
use bevy_eidolon::gpu::GpuCommand;
use bevy_eidolon::layout::{DrawIndexedIndirectArgs, InstanceData, LodCullData, encode_instances};
use bevy_eidolon::node::{CachedPipelineState, InstancedComputeNode, NodeState};
use bevy_eidolon::resources::InstancedResources;

fn grid(n: u32) -> Vec<InstanceData> {
    (0..n)
        .map(|i| {
            InstanceData::new(
                [((i % 100) as f32).to_bits(), 0.0f32.to_bits(), ((i / 100) as f32).to_bits()],
                1.0f32.to_bits(),
                0.0f32.to_bits(),
                i,
            )
        })
        .collect()
}

fn indexed_mesh() -> RenderMeshInfo {
    RenderMeshInfo {
        buffer_info: MeshBufferInfo::Indexed { count: 36 },
        vertex_start: 24,
        vertex_end: 48,
        first_index: Some(360),
    }
}

fn camera() -> ViewInfo {
    ViewInfo { active: true, position: [0.0f32.to_bits(), 5.0f32.to_bits(), 0.0f32.to_bits()] }
}

fn input(entity: u64, n: u32, mesh: Option<RenderMeshInfo>) -> CullEntityInput {
    let range = [0.0f32.to_bits(), 0.0f32.to_bits(), 90.0f32.to_bits(), 100.0f32.to_bits()];
    CullEntityInput {
        entity,
        data: InstanceMaterialData::new(grid(n), [1, 1, 1, 1], range),
        mesh,
        world_from_local: [0; 16],
    }
}

fn write_target(cmd: &GpuCommand) -> (u64, u64, Vec<u8>) {
    match cmd {
        GpuCommand::Write { id, offset, contents } => (*id, *offset, contents.clone()),
        other => panic!("expected a write, got {:?}", other),
    }
}

#[test]
fn workgroups_cover_the_instances() {
    assert_eq!(workgroup_count(0), 0);
    assert_eq!(workgroup_count(1), 1);
    assert_eq!(workgroup_count(64), 1);
    assert_eq!(workgroup_count(65), 2);
    assert_eq!(workgroup_count(10_000), 157);
    assert_eq!(workgroup_count(u32::MAX), 67_108_864);
}

#[test]
fn camera_uniform_is_created_once_then_written() {
    let mut res = InstancedResources::new();
    let (status, cmds) = res.prepare_global_cull_buffer(&[ViewInfo { active: false, position: [9; 3] }, camera()]);
    assert_eq!(status, Ok(GlobalCullStatus::Created));
    let id = res.global_cull_buffer().unwrap().buffer;
    match &cmds[0] {
        GpuCommand::CreateWithData { id: c, contents } => {
            assert_eq!(*c, id);
            assert_eq!(&contents[4..8], &5.0f32.to_bits().to_le_bytes());
            assert_eq!(&contents[12..16], &1.0f32.to_bits().to_le_bytes());
        }
        other => panic!("unexpected {:?}", other),
    }
    let (status, cmds) = res.prepare_global_cull_buffer(&[camera()]);
    assert_eq!(status, Ok(GlobalCullStatus::Written));
    assert_eq!(write_target(&cmds[0]).0, id);
    assert_eq!(res.global_cull_buffer().unwrap().buffer, id);
}

#[test]
fn indirect_args_seeded_with_zero_instances() {
    let mut res = InstancedResources::new();
    let lod = LodCullData { visibility_range: [0; 4], world_from_local: [0; 16] };
    let rs = grid(100);
    let (status, cmds) = res.prepare_cull_entity(5, &rs, Some(indexed_mesh()), &lod);
    assert_eq!(status, Ok(CullStatus::Allocated));
    let c = res.cull_resources(5).unwrap();
    assert_eq!(c.source.count, 100);
    let expected = DrawIndexedIndirectArgs {
        index_count: 36,
        instance_count: 0,
        first_index: 360,
        base_vertex: 24,
        first_instance: 0,
    };
    assert!(cmds.contains(&GpuCommand::CreateWithData { id: c.indirect.buffer, contents: expected.as_bytes() }));
    assert!(cmds.contains(&GpuCommand::CreateWithData { id: c.source.buffer, contents: encode_instances(&rs) }));
    assert!(cmds.contains(&GpuCommand::Create { id: c.output.buffer, size: 3200 }));
    assert!(cmds.contains(&GpuCommand::CreateWithData { id: c.lod.buffer, contents: lod.as_bytes() }));
    assert_eq!(
        c.bind_group_entries(),
        vec![(0, c.source.buffer), (1, c.output.buffer), (2, c.indirect.buffer), (3, c.lod.buffer)]
    );

    // next frame, same count: buffers kept, record reseeded in place
    let (status, cmds) = res.prepare_cull_entity(5, &rs, Some(indexed_mesh()), &lod);
    assert_eq!(status, Ok(CullStatus::Refreshed));
    assert_eq!(res.cull_resources(5).unwrap(), c);
    let (id, offset, contents) = write_target(&cmds[0]);
    assert_eq!((id, offset), (c.indirect.buffer, 0));
    assert_eq!(&contents[4..8], &[0, 0, 0, 0]);
    assert_eq!(write_target(&cmds[1]).0, c.lod.buffer);
}

#[test]
fn culling_skips_without_instances_or_mesh() {
    let mut res = InstancedResources::new();
    let lod = LodCullData { visibility_range: [0; 4], world_from_local: [0; 16] };
    let (s, c) = res.prepare_cull_entity(1, &[], Some(indexed_mesh()), &lod);
    assert_eq!(s, Ok(CullStatus::NoInstances));
    assert!(c.is_empty());
    let (s, c) = res.prepare_cull_entity(1, &grid(3), None, &lod);
    assert_eq!(s, Ok(CullStatus::MeshNotReady));
    assert!(c.is_empty());
    let flat = RenderMeshInfo { buffer_info: MeshBufferInfo::NonIndexed, vertex_start: 0, vertex_end: 6, first_index: None };
    let (s, c) = res.prepare_cull_entity(1, &grid(3), Some(flat), &lod);
    assert_eq!(s, Ok(CullStatus::NotIndexed));
    assert!(c.is_empty());
    assert!(res.cull_resources(1).is_none());
}

#[test]
fn changed_count_reallocates_culling_buffers() {
    let mut res = InstancedResources::new();
    let lod = LodCullData { visibility_range: [0; 4], world_from_local: [0; 16] };
    res.prepare_cull_entity(2, &grid(10), Some(indexed_mesh()), &lod);
    let old = res.cull_resources(2).unwrap();
    let (s, cmds) = res.prepare_cull_entity(2, &grid(20), Some(indexed_mesh()), &lod);
    assert_eq!(s, Ok(CullStatus::Allocated));
    assert_eq!(cmds[0], GpuCommand::Destroy { id: old.source.buffer });
    assert_eq!(cmds[3], GpuCommand::Destroy { id: old.lod.buffer });
    let now = res.cull_resources(2).unwrap();
    assert_ne!(now.source.buffer, old.source.buffer);
    assert_eq!(now.source.count, 20);
    let evicted = res.evict(2);
    assert_eq!(evicted.len(), 4);
    assert!(res.cull_resources(2).is_none());
}

#[test]
fn no_camera_means_no_culling_work() {
    let mut res = InstancedResources::new();
    let frame = res.prepare_instanced_material_compute_resources(&[], &[input(1, 50, Some(indexed_mesh()))]);
    assert_eq!(frame.global, Ok(GlobalCullStatus::NoActiveView));
    assert!(frame.commands.is_empty());
    assert!(frame.dispatches.is_empty());
    assert!(frame.statuses.is_empty());
    assert!(res.global_cull_buffer().is_none());
    assert!(res.cull_resources(1).is_none());

    let inactive = ViewInfo { active: false, position: [0; 3] };
    let frame = res.prepare_instanced_material_compute_resources(&[inactive], &[input(1, 50, Some(indexed_mesh()))]);
    assert!(frame.commands.is_empty());
    assert!(frame.dispatches.is_empty());

    let mut node = InstancedComputeNode::new();
    node.update(Some(1), CachedPipelineState::Compiled);
    assert_eq!(node.run(true, false, &frame.dispatches), None);
}

#[test]
fn one_entity_failure_does_not_block_others() {
    let mut res = InstancedResources::new();
    let frame = res.prepare_instanced_material_compute_resources(
        &[camera()],
        &[input(1, 50, None), input(2, 70, Some(indexed_mesh()))],
    );
    assert_eq!(frame.global, Ok(GlobalCullStatus::Created));
    assert_eq!(frame.statuses, vec![Ok(CullStatus::MeshNotReady), Ok(CullStatus::Allocated)]);
    assert_eq!(frame.dispatches, vec![Dispatch { entity: 2, workgroups: 2 }]);
}

#[test]
fn node_waits_for_the_pipeline() {
    let mut node = InstancedComputeNode::new();
    assert_eq!(node.state, NodeState::Loading);
    let d = [Dispatch { entity: 1, workgroups: 3 }];
    assert_eq!(node.run(true, true, &d), None);
    node.update(None, CachedPipelineState::Compiled);
    assert_eq!(node.state, NodeState::Loading);
    node.update(Some(4), CachedPipelineState::Queued);
    node.update(Some(4), CachedPipelineState::Creating);
    node.update(Some(4), CachedPipelineState::Failed);
    assert_eq!(node.state, NodeState::Loading);
    node.update(Some(4), CachedPipelineState::Compiled);
    assert_eq!(node.state, NodeState::Ready);
    node.update(Some(4), CachedPipelineState::Failed);
    assert_eq!(node.state, NodeState::Ready);
    assert_eq!(node.run(false, true, &d), None);
    assert_eq!(node.run(true, true, &d), Some(d.to_vec()));
}

#[test]
fn gpu_culled_scenario_draws_indirect() {
    let mut res = InstancedResources::new();
    let frame = res.prepare_instanced_material_compute_resources(
        &[camera()],
        &[input(9, 10_000, Some(indexed_mesh()))],
    );
    assert_eq!(frame.statuses, vec![Ok(CullStatus::Allocated)]);
    assert_eq!(frame.dispatches, vec![Dispatch { entity: 9, workgroups: 157 }]);
    let c = res.cull_resources(9).unwrap();
    let mut node = InstancedComputeNode::new();
    node.update(Some(1), CachedPipelineState::Compiled);
    assert_eq!(node.run(true, true, &frame.dispatches), Some(frame.dispatches.clone()));
    let (instances, indirect) = res.draw_buffers(9, true);
    let draw = DrawInstancedMaterialMesh::render(instances, indirect, Some(indexed_mesh()));
    assert_eq!(
        draw,
        DrawCommand::DrawIndexedIndirect {
            instance_buffer: c.output.buffer,
            indirect_buffer: c.indirect.buffer,
            indirect_offset: 0,
        }
    );
    // the instance count is only ever seeded on the CPU side
    let seeded = frame
        .commands
        .iter()
        .find_map(|cmd| match cmd {
            GpuCommand::CreateWithData { id, contents } if *id == c.indirect.buffer => Some(contents.clone()),
            _ => None,
        })
        .unwrap();
    assert_eq!(&seeded[4..8], &[0, 0, 0, 0]);
}

#[test]
fn direct_draw_scenario_uses_whole_instance_buffer() {
    let mut res = InstancedResources::new();
    res.prepare_instance_buffer(11, &grid(400)).unwrap();
    let flat = RenderMeshInfo { buffer_info: MeshBufferInfo::NonIndexed, vertex_start: 12, vertex_end: 48, first_index: None };
    assert!(res.prepare_indirect_draw_buffer(11, Some(flat)).unwrap().is_empty());
    let (instances, indirect) = res.draw_buffers(11, false);
    assert!(indirect.is_none());
    let draw = DrawInstancedMaterialMesh::render(instances, indirect, Some(flat));
    assert_eq!(
        draw,
        DrawCommand::Draw {
            instance_buffer: res.instance_buffer(11).unwrap().buffer,
            vertex_start: 12,
            vertex_end: 48,
            instance_count: 400,
        }
    );
}

#[test]
fn uncull_indexed_mesh_gets_full_indirect_record() {
    let mut res = InstancedResources::new();
    res.prepare_instance_buffer(6, &grid(30)).unwrap();
    let cmds = res.prepare_indirect_draw_buffer(6, Some(indexed_mesh())).unwrap();
    let (id, contents) = match &cmds[0] {
        GpuCommand::CreateWithData { id, contents } => (*id, contents.clone()),
        other => panic!("unexpected {:?}", other),
    };
    assert_eq!(&contents[4..8], &30u32.to_le_bytes());
    let cmds = res.prepare_indirect_draw_buffer(6, Some(indexed_mesh())).unwrap();
    assert_eq!(write_target(&cmds[0]).0, id);
    let (instances, indirect) = res.draw_buffers(6, false);
    let draw = DrawInstancedMaterialMesh::render(instances, indirect, Some(indexed_mesh()));
    assert_eq!(
        draw,
        DrawCommand::DrawIndexedIndirect {
            instance_buffer: instances.unwrap().buffer,
            indirect_buffer: id,
            indirect_offset: 0,
        }
    );
}

#[test]
fn draw_skips_what_is_missing() {
    assert_eq!(DrawInstancedMaterialMesh::render(None, None, Some(indexed_mesh())), DrawCommand::Skip);
    let mut res = InstancedResources::new();
    res.prepare_instance_buffer(1, &grid(4)).unwrap();
    let (instances, _) = res.draw_buffers(1, false);
    assert_eq!(DrawInstancedMaterialMesh::render(instances, None, None), DrawCommand::Skip);
    let unplaced = RenderMeshInfo { first_index: None, ..indexed_mesh() };
    assert_eq!(DrawInstancedMaterialMesh::render(instances, None, Some(unplaced)), DrawCommand::Skip);
    assert_eq!(
        DrawInstancedMaterialMesh::render(instances, None, Some(indexed_mesh())),
        DrawCommand::DrawIndexed {
            instance_buffer: instances.unwrap().buffer,
            first_index: 360,
            index_count: 36,
            base_vertex: 24,
            instance_count: 4,
        }
    );
}
