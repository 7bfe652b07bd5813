use bevy_eidolon::gpu::{GpuCommand, ResourceError};
use bevy_eidolon::layout::{
    CameraCullData, DrawIndexedIndirectArgs, InstanceData, InstanceUniforms, LodCullData,
    encode_instances, encode_words,
};
use bevy_eidolon::components::InstanceMaterialData;
use bevy_eidolon::resources::InstancedResources;

fn record(i: u32) -> InstanceData {
    InstanceData::new(
        [(i as f32).to_bits(), 0.0f32.to_bits(), (2.0 * i as f32).to_bits()],
        1.0f32.to_bits(),
        0.5f32.to_bits(),
        i,
    )
}

fn records(n: u32) -> Vec<InstanceData> {
    (0..n).map(record).collect()
}

fn created(cmd: &GpuCommand) -> (u64, Vec<u8>) {
    match cmd {
        GpuCommand::CreateWithData { id, contents } => (*id, contents.clone()),
        other => panic!("expected a creation, got {:?}", other),
    }
}

#[test]
fn instance_record_is_32_little_endian_bytes() {
    let r = InstanceData::new([1, 2, 3], 4, 0x0A0B_0C0D, 6);
    let bytes = encode_instances(&[r]);
    assert_eq!(
        bytes,
        vec![
            1, 0, 0, 0, 2, 0, 0, 0, 3, 0, 0, 0, 4, 0, 0, 0, 0x0D, 0x0C, 0x0B, 0x0A, 6, 0, 0, 0, 0,
            0, 0, 0, 0, 0, 0, 0
        ]
    );
}

#[test]
fn instance_array_encodes_record_after_record() {
    let rs = records(3);
    let bytes = encode_instances(&rs);
    assert_eq!(bytes.len(), 96);
    assert_eq!(&bytes[32..36], &1.0f32.to_bits().to_le_bytes());
    assert_eq!(&bytes[84..88], &2u32.to_le_bytes());
    assert!(encode_instances(&[]).is_empty());
}

#[test]
fn indirect_args_layout() {
    let args = DrawIndexedIndirectArgs {
        index_count: 36,
        instance_count: 7,
        first_index: 100,
        base_vertex: -2,
        first_instance: 0,
    };
    let bytes = args.as_bytes();
    assert_eq!(bytes.len(), 20);
    assert_eq!(&bytes[0..4], &36u32.to_le_bytes());
    assert_eq!(&bytes[4..8], &7u32.to_le_bytes());
    assert_eq!(&bytes[8..12], &100u32.to_le_bytes());
    assert_eq!(&bytes[12..16], &(-2i32).to_le_bytes());
    assert_eq!(&bytes[16..20], &[0, 0, 0, 0]);
}

#[test]
fn camera_uniform_has_one_as_fourth_component() {
    let data = CameraCullData::from_position([1.0f32.to_bits(), 2.0f32.to_bits(), 3.0f32.to_bits()]);
    let bytes = data.as_bytes();
    assert_eq!(bytes.len(), 16);
    assert_eq!(&bytes[12..16], &1.0f32.to_bits().to_le_bytes());
    assert_eq!(&bytes[4..8], &2.0f32.to_bits().to_le_bytes());
}

#[test]
fn uniform_sizes() {
    let lod = LodCullData { visibility_range: [1, 2, 3, 4], world_from_local: [9; 16] };
    let lb = lod.as_bytes();
    assert_eq!(lb.len(), 80);
    assert_eq!(&lb[12..16], &4u32.to_le_bytes());
    assert_eq!(&lb[16..20], &9u32.to_le_bytes());
    let data = InstanceMaterialData::new(records(1), [5, 6, 7, 8], [1, 2, 3, 4]);
    let u = InstanceUniforms::from_material(&data, [3; 16]);
    let ub = u.as_bytes();
    assert_eq!(ub.len(), 96);
    assert_eq!(&ub[0..4], &5u32.to_le_bytes());
    assert_eq!(&ub[16..20], &1u32.to_le_bytes());
    assert_eq!(&ub[92..96], &3u32.to_le_bytes());
    assert_eq!(encode_words(&[0x0102_0304]), vec![4, 3, 2, 1]);
}

#[test]
fn equal_counts_keep_the_buffer_and_overwrite_it() {
    let mut res = InstancedResources::new();
    let first = records(5);
    let cmds = res.prepare_instance_buffer(7, &first).unwrap();
    assert_eq!(cmds.len(), 1);
    let (id, contents) = created(&cmds[0]);
    assert_eq!(contents, encode_instances(&first));
    let b1 = res.instance_buffer(7).unwrap();
    assert_eq!(b1.buffer, id);
    assert_eq!(b1.length, 5);

    let second: Vec<InstanceData> = (10..15).map(record).collect();
    let cmds = res.prepare_instance_buffer(7, &second).unwrap();
    assert_eq!(
        cmds,
        vec![GpuCommand::Write { id, offset: 0, contents: encode_instances(&second) }]
    );
    assert_eq!(res.instance_buffer(7).unwrap(), b1);
}

#[test]
fn changed_count_reallocates_the_buffer() {
    let mut res = InstancedResources::new();
    res.prepare_instance_buffer(3, &records(4)).unwrap();
    let old = res.instance_buffer(3).unwrap();
    let cmds = res.prepare_instance_buffer(3, &records(9)).unwrap();
    assert_eq!(cmds.len(), 2);
    assert_eq!(cmds[0], GpuCommand::Destroy { id: old.buffer });
    let (id, contents) = created(&cmds[1]);
    assert_ne!(id, old.buffer);
    assert_eq!(contents.len(), 9 * 32);
    let now = res.instance_buffer(3).unwrap();
    assert_eq!(now.buffer, id);
    assert_eq!(now.length, 9);
}

#[test]
fn entities_get_distinct_buffers() {
    let mut res = InstancedResources::new();
    res.prepare_instance_buffer(1, &records(2)).unwrap();
    res.prepare_instance_buffer(2, &records(2)).unwrap();
    assert_ne!(res.instance_buffer(1).unwrap().buffer, res.instance_buffer(2).unwrap().buffer);
    assert!(res.instance_buffer(3).is_none());
}

#[test]
fn empty_instance_array_gets_an_empty_buffer() {
    let mut res = InstancedResources::new();
    let cmds = res.prepare_instance_buffer(1, &[]).unwrap();
    let (_, contents) = created(&cmds[0]);
    assert!(contents.is_empty());
    assert_eq!(res.instance_buffer(1).unwrap().length, 0);
}

#[test]
fn eviction_releases_every_buffer() {
    let mut res = InstancedResources::new();
    res.prepare_instance_buffer(4, &records(2)).unwrap();
    let id = res.instance_buffer(4).unwrap().buffer;
    let cmds = res.evict(4);
    assert_eq!(cmds, vec![GpuCommand::Destroy { id }]);
    assert!(res.instance_buffer(4).is_none());
    assert!(res.evict(4).is_empty());
}

#[test]
fn exhausted_ids_fail_without_changing_state() {
    let mut res = InstancedResources::starting_at(u64::MAX);
    assert_eq!(res.prepare_instance_buffer(1, &records(2)), Err(ResourceError::OutOfBufferIds));
    assert!(res.instance_buffer(1).is_none());
    let mut res = InstancedResources::starting_at(u64::MAX - 1);
    res.prepare_instance_buffer(1, &records(2)).unwrap();
    assert_eq!(res.instance_buffer(1).unwrap().buffer, u64::MAX - 1);
    // same count: written in place, no id needed
    assert!(res.prepare_instance_buffer(1, &records(2)).is_ok());
    assert_eq!(res.prepare_instance_buffer(1, &records(3)), Err(ResourceError::OutOfBufferIds));
    assert_eq!(res.instance_buffer(1).unwrap().length, 2);
}
