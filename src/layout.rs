//! Binary layouts shared with the shaders.
//!
//! Every GPU-visible record is a run of 32-bit words stored little-endian, the
//! byte order of host-shareable memory in WebGPU. Float fields are carried as
//! their IEEE-754 bit patterns, so the layouts and their encodings are exact.
use vstd::prelude::*;

verus! {

/// Size in bytes of one encoded [`InstanceData`].
pub const INSTANCE_DATA_SIZE: u64 = 32;

/// Size in bytes of one encoded [`DrawIndexedIndirectArgs`].
pub const INDIRECT_ARGS_SIZE: u64 = 20;

/// Byte offset of `instance_count` inside an encoded [`DrawIndexedIndirectArgs`].
pub const INSTANCE_COUNT_OFFSET: u64 = 4;

/// Size in bytes of one encoded [`CameraCullData`].
pub const CAMERA_CULL_DATA_SIZE: u64 = 16;

/// Size in bytes of one encoded [`LodCullData`].
pub const LOD_CULL_DATA_SIZE: u64 = 80;

/// Size in bytes of one encoded [`InstanceUniforms`].
pub const INSTANCE_UNIFORMS_SIZE: u64 = 96;

/// Bit pattern of the float `1.0`.
pub const ONE_F32_BITS: u32 = 0x3F80_0000;

/// Little-endian bytes of a 32-bit word.
pub open spec fn u32_le(x: u32) -> Seq<u8> {
    seq![
        (x % 256) as u8,
        ((x / 256) % 256) as u8,
        ((x / 65536) % 256) as u8,
        (x / 16777216) as u8,
    ]
}

/// Little-endian bytes of a run of 32-bit words.
pub open spec fn words_le(s: Seq<u32>) -> Seq<u8>
    decreases s.len(),
{
    if s.len() == 0 {
        Seq::empty()
    } else {
        words_le(s.drop_last()) + u32_le(s.last())
    }
}

pub proof fn lemma_words_le_len(s: Seq<u32>)
    ensures
        words_le(s).len() == 4 * s.len(),
    decreases s.len(),
{
    if s.len() > 0 {
        lemma_words_le_len(s.drop_last());
    }
}

pub proof fn lemma_words_le_concat(a: Seq<u32>, b: Seq<u32>)
    ensures
        words_le(a + b) == words_le(a) + words_le(b),
    decreases b.len(),
{
    if b.len() == 0 {
        assert(a + b =~= a);
        assert(words_le(b) =~= Seq::empty());
        assert(words_le(a) + words_le(b) =~= words_le(a));
    } else {
        assert((a + b).drop_last() =~= a + b.drop_last());
        lemma_words_le_concat(a, b.drop_last());
        assert(words_le(a) + words_le(b) =~= words_le(a) + words_le(b.drop_last()) + u32_le(
            b.last(),
        ));
    }
}

pub proof fn lemma_words_le_single(x: u32)
    ensures
        words_le(seq![x]) == u32_le(x),
{
    assert(seq![x].drop_last() =~= Seq::<u32>::empty());
    assert(words_le(Seq::<u32>::empty()) =~= Seq::<u8>::empty());
    assert(words_le(seq![x]) =~= u32_le(x));
}

/// Appends the little-endian bytes of `x`.
pub fn push_u32_le(out: &mut Vec<u8>, x: u32)
    ensures
        final(out)@ == old(out)@ + u32_le(x),
{
    out.push((x % 256) as u8);
    out.push(((x / 256) % 256) as u8);
    out.push(((x / 65536) % 256) as u8);
    out.push((x / 16777216) as u8);
    assert(out@ =~= old(out)@ + u32_le(x));
}

/// Appends the little-endian bytes of every word of `words`.
pub fn push_words_le(out: &mut Vec<u8>, words: &[u32])
    ensures
        final(out)@ == old(out)@ + words_le(words@),
{
    let ghost start = out@;
    let mut i: usize = 0;
    while i < words.len()
        invariant
            i <= words@.len(),
            out@ == start + words_le(words@.take(i as int)),
        decreases words@.len() - i,
    {
        push_u32_le(out, words[i]);
        proof {
            let t = words@.take(i as int + 1);
            assert(t.drop_last() =~= words@.take(i as int));
            assert(t.last() == words@[i as int]);
        }
        i = i + 1;
    }
    assert(words@.take(i as int) =~= words@);
}

/// Encodes a run of words.
pub fn encode_words(words: &[u32]) -> (r: Vec<u8>)
    ensures
        r@ == words_le(words@),
        r@.len() == 4 * words@.len(),
{
    let mut out: Vec<u8> = Vec::new();
    push_words_le(&mut out, words);
    assert(out@ =~= words_le(words@));
    proof {
        lemma_words_le_len(words@);
    }
    out
}

/// One instance of a drawable, 32 bytes on the GPU: position, scale,
/// rotation, a free per-instance index and two words of padding.
/// The float fields hold IEEE-754 bit patterns.
#[derive(Clone, Copy, Debug, PartialEq, Eq)]
pub struct InstanceData {
    pub position: [u32; 3],
    pub scale: u32,
    pub rotation: u32,
    pub index: u32,
}

impl InstanceData {
    /// The eight words of the record, padding included.
    pub open spec fn words(self) -> Seq<u32> {
        seq![
            self.position@[0],
            self.position@[1],
            self.position@[2],
            self.scale,
            self.rotation,
            self.index,
            0u32,
            0u32,
        ]
    }

    pub open spec fn bytes(self) -> Seq<u8> {
        words_le(self.words())
    }

    pub fn new(position: [u32; 3], scale: u32, rotation: u32, index: u32) -> (r: InstanceData)
        ensures
            r.position == position,
            r.scale == scale,
            r.rotation == rotation,
            r.index == index,
    {
        InstanceData { position, scale, rotation, index }
    }

    pub fn to_words(&self) -> (r: [u32; 8])
        ensures
            r@ == self.words(),
    {
        let r = [
            self.position[0],
            self.position[1],
            self.position[2],
            self.scale,
            self.rotation,
            self.index,
            0u32,
            0u32,
        ];
        assert(r@ =~= self.words());
        r
    }
}

/// The bytes of a whole instance array, record after record.
pub open spec fn instances_bytes(s: Seq<InstanceData>) -> Seq<u8>
    decreases s.len(),
{
    if s.len() == 0 {
        Seq::empty()
    } else {
        instances_bytes(s.drop_last()) + s.last().bytes()
    }
}

pub proof fn lemma_instances_bytes_len(s: Seq<InstanceData>)
    ensures
        instances_bytes(s).len() == 32 * s.len(),
    decreases s.len(),
{
    if s.len() > 0 {
        lemma_instances_bytes_len(s.drop_last());
        lemma_words_le_len(s.last().words());
    }
}

/// Encodes an instance array as the GPU reads it: 32 bytes per record.
pub fn encode_instances(records: &[InstanceData]) -> (r: Vec<u8>)
    ensures
        r@ == instances_bytes(records@),
        r@.len() == 32 * records@.len(),
{
    let mut out: Vec<u8> = Vec::new();
    let mut i: usize = 0;
    while i < records.len()
        invariant
            i <= records@.len(),
            out@ == instances_bytes(records@.take(i as int)),
        decreases records@.len() - i,
    {
        let words = records[i].to_words();
        push_words_le(&mut out, &words);
        proof {
            let t = records@.take(i as int + 1);
            assert(t.drop_last() =~= records@.take(i as int));
            assert(t.last() == records@[i as int]);
        }
        i = i + 1;
    }
    assert(records@.take(i as int) =~= records@);
    proof {
        lemma_instances_bytes_len(records@);
    }
    out
}

/// The indexed indirect-draw record read by the GPU: five words, 20 bytes.
#[derive(Clone, Copy, Debug, PartialEq, Eq, Structural)]
pub struct DrawIndexedIndirectArgs {
    pub index_count: u32,
    pub instance_count: u32,
    pub first_index: u32,
    pub base_vertex: i32,
    pub first_instance: u32,
}

impl DrawIndexedIndirectArgs {
    pub open spec fn words(self) -> Seq<u32> {
        seq![
            self.index_count,
            self.instance_count,
            self.first_index,
            #[verifier::truncate] (self.base_vertex as u32),
            self.first_instance,
        ]
    }

    pub open spec fn bytes(self) -> Seq<u8> {
        words_le(self.words())
    }

    /// Bytes 4 to 8 of the record hold `instance_count`.
    pub proof fn lemma_instance_count_bytes(self)
        ensures
            self.bytes().len() == 20,
            self.bytes().subrange(4, 8) == u32_le(self.instance_count),
    {
        let w = self.words();
        assert(w =~= seq![self.index_count] + seq![self.instance_count] + w.subrange(2, 5));
        lemma_words_le_concat(seq![self.index_count] + seq![self.instance_count], w.subrange(2, 5));
        lemma_words_le_concat(seq![self.index_count], seq![self.instance_count]);
        lemma_words_le_single(self.index_count);
        lemma_words_le_single(self.instance_count);
        lemma_words_le_len(w);
        lemma_words_le_len(w.subrange(2, 5));
        assert(self.bytes().subrange(4, 8) =~= u32_le(self.instance_count));
    }

    /// The encoded record; `instance_count` occupies bytes 4 to 8.
    pub fn as_bytes(&self) -> (r: Vec<u8>)
        ensures
            r@ == self.bytes(),
            r@.len() == INDIRECT_ARGS_SIZE,
            r@.subrange(4, 8) == u32_le(self.instance_count),
    {
        let words = [
            self.index_count,
            self.instance_count,
            self.first_index,
            #[verifier::truncate] (self.base_vertex as u32),
            self.first_instance,
        ];
        assert(words@ =~= self.words());
        let r = encode_words(&words);
        proof {
            self.lemma_instance_count_bytes();
        }
        r
    }
}

/// The per-view camera uniform of the culling pass: world position and a
/// fourth component of `1.0`.
#[derive(Clone, Copy, Debug, PartialEq, Eq)]
pub struct CameraCullData {
    pub view_pos: [u32; 4],
}

impl CameraCullData {
    pub open spec fn words(self) -> Seq<u32> {
        self.view_pos@
    }

    pub fn from_position(position: [u32; 3]) -> (r: CameraCullData)
        ensures
            r.view_pos@ == seq![position@[0], position@[1], position@[2], ONE_F32_BITS],
    {
        let r = CameraCullData { view_pos: [position[0], position[1], position[2], ONE_F32_BITS] };
        assert(r.view_pos@ =~= seq![position@[0], position@[1], position@[2], ONE_F32_BITS]);
        r
    }

    pub fn as_bytes(&self) -> (r: Vec<u8>)
        ensures
            r@ == words_le(self.words()),
            r@.len() == CAMERA_CULL_DATA_SIZE,
    {
        encode_words(&self.view_pos)
    }
}

/// The per-entity uniform of the culling pass: visibility range
/// `[min_visible, min_fade, max_fade, max_visible]` and the world transform
/// (column-major).
#[derive(Clone, Copy, Debug, PartialEq, Eq)]
pub struct LodCullData {
    pub visibility_range: [u32; 4],
    pub world_from_local: [u32; 16],
}

impl LodCullData {
    pub open spec fn words(self) -> Seq<u32> {
        self.visibility_range@ + self.world_from_local@
    }

    pub open spec fn bytes(self) -> Seq<u8> {
        words_le(self.words())
    }

    pub fn as_bytes(&self) -> (r: Vec<u8>)
        ensures
            r@ == self.bytes(),
            r@.len() == LOD_CULL_DATA_SIZE,
    {
        let mut out: Vec<u8> = Vec::new();
        push_words_le(&mut out, &self.visibility_range);
        push_words_le(&mut out, &self.world_from_local);
        proof {
            lemma_words_le_concat(self.visibility_range@, self.world_from_local@);
            lemma_words_le_len(self.words());
        }
        assert(out@ =~= self.bytes());
        out
    }
}

/// The per-entity uniform of the draw pipeline: aggregate color, visibility
/// range and world transform.
#[derive(Clone, Copy, Debug, PartialEq, Eq)]
pub struct InstanceUniforms {
    pub color: [u32; 4],
    pub visibility_range: [u32; 4],
    pub world_from_local: [u32; 16],
}

impl InstanceUniforms {
    pub open spec fn words(self) -> Seq<u32> {
        self.color@ + self.visibility_range@ + self.world_from_local@
    }

    pub open spec fn bytes(self) -> Seq<u8> {
        words_le(self.words())
    }

    pub fn as_bytes(&self) -> (r: Vec<u8>)
        ensures
            r@ == self.bytes(),
            r@.len() == INSTANCE_UNIFORMS_SIZE,
    {
        let mut out: Vec<u8> = Vec::new();
        push_words_le(&mut out, &self.color);
        push_words_le(&mut out, &self.visibility_range);
        push_words_le(&mut out, &self.world_from_local);
        proof {
            lemma_words_le_concat(self.color@, self.visibility_range@);
            lemma_words_le_concat(self.color@ + self.visibility_range@, self.world_from_local@);
            lemma_words_le_len(self.words());
        }
        assert(out@ =~= self.bytes());
        out
    }
}

} // verus!
