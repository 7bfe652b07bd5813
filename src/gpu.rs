//! The GPU side as the library sees it: buffers named by ids that the library
//! hands out, and the commands that create, fill and release them.
//!
//! The library never touches a device. It returns [`GpuCommand`]s; the host
//! renderer carries them out in order. [`apply_ops`] states what the GPU
//! memory holds afterwards.
use vstd::prelude::*;

verus! {

/// Why preparing resources for an entity failed this frame.
#[derive(Clone, Copy, Debug, PartialEq, Eq, Structural)]
pub enum ResourceError {
    /// No fresh buffer id is left to hand out.
    OutOfBufferIds,
}

/// A command for the host renderer, as a mathematical value.
pub enum GpuOp {
    /// Allocate buffer `id` of `size` bytes; its contents are left to the GPU.
    Create { id: u64, size: nat },
    /// Allocate buffer `id` holding exactly `contents`.
    CreateWithData { id: u64, contents: Seq<u8> },
    /// Overwrite the bytes of buffer `id` from `offset` on.
    Write { id: u64, offset: nat, contents: Seq<u8> },
    /// Release buffer `id`.
    Destroy { id: u64 },
}

/// A command for the host renderer.
#[derive(Debug, PartialEq, Eq)]
pub enum GpuCommand {
    Create { id: u64, size: u64 },
    CreateWithData { id: u64, contents: Vec<u8> },
    Write { id: u64, offset: u64, contents: Vec<u8> },
    Destroy { id: u64 },
}

impl View for GpuCommand {
    type V = GpuOp;

    open spec fn view(&self) -> GpuOp {
        match self {
            GpuCommand::Create { id, size } => GpuOp::Create { id: *id, size: *size as nat },
            GpuCommand::CreateWithData { id, contents } => GpuOp::CreateWithData {
                id: *id,
                contents: contents@,
            },
            GpuCommand::Write { id, offset, contents } => GpuOp::Write {
                id: *id,
                offset: *offset as nat,
                contents: contents@,
            },
            GpuCommand::Destroy { id } => GpuOp::Destroy { id: *id },
        }
    }
}

/// The commands of a list, as values.
pub open spec fn ops_of(cmds: Seq<GpuCommand>) -> Seq<GpuOp> {
    cmds.map_values(|c: GpuCommand| c@)
}

/// `old` with `data` written over it from `offset`; a write past the end is
/// dropped whole.
pub open spec fn write_range(old: Seq<u8>, offset: nat, data: Seq<u8>) -> Seq<u8> {
    if offset + data.len() <= old.len() {
        old.take(offset as int) + data + old.skip((offset + data.len()) as int)
    } else {
        old
    }
}

/// GPU memory after one command. A fresh buffer is zero-filled.
pub open spec fn apply_op(mem: Map<u64, Seq<u8>>, op: GpuOp) -> Map<u64, Seq<u8>> {
    match op {
        GpuOp::Create { id, size } => mem.insert(id, Seq::new(size, |i: int| 0u8)),
        GpuOp::CreateWithData { id, contents } => mem.insert(id, contents),
        GpuOp::Write { id, offset, contents } => if mem.contains_key(id) {
            mem.insert(id, write_range(mem[id], offset, contents))
        } else {
            mem
        },
        GpuOp::Destroy { id } => mem.remove(id),
    }
}

/// GPU memory after a list of commands, carried out in order.
pub open spec fn apply_ops(mem: Map<u64, Seq<u8>>, ops: Seq<GpuOp>) -> Map<u64, Seq<u8>>
    decreases ops.len(),
{
    if ops.len() == 0 {
        mem
    } else {
        apply_op(apply_ops(mem, ops.drop_last()), ops.last())
    }
}

pub proof fn lemma_apply_ops_one(mem: Map<u64, Seq<u8>>, op: GpuOp)
    ensures
        apply_ops(mem, seq![op]) == apply_op(mem, op),
{
    assert(seq![op].drop_last() =~= Seq::<GpuOp>::empty());
    assert(apply_ops(mem, Seq::<GpuOp>::empty()) == mem);
    assert(seq![op].last() == op);
}

pub proof fn lemma_apply_ops_two(mem: Map<u64, Seq<u8>>, a: GpuOp, b: GpuOp)
    ensures
        apply_ops(mem, seq![a, b]) == apply_op(apply_op(mem, a), b),
{
    assert(seq![a, b].drop_last() =~= seq![a]);
    lemma_apply_ops_one(mem, a);
}

pub proof fn lemma_apply_ops_concat(mem: Map<u64, Seq<u8>>, a: Seq<GpuOp>, b: Seq<GpuOp>)
    ensures
        apply_ops(mem, a + b) == apply_ops(apply_ops(mem, a), b),
    decreases b.len(),
{
    if b.len() == 0 {
        assert(a + b =~= a);
    } else {
        assert((a + b).drop_last() =~= a + b.drop_last());
        assert((a + b).last() == b.last());
        lemma_apply_ops_concat(mem, a, b.drop_last());
    }
}

pub proof fn lemma_apply_ops_four(mem: Map<u64, Seq<u8>>, a: GpuOp, b: GpuOp, c: GpuOp, d: GpuOp)
    ensures
        apply_ops(mem, seq![a, b, c, d]) == apply_op(apply_op(apply_op(apply_op(mem, a), b), c), d),
{
    assert(seq![a, b, c, d] =~= seq![a, b] + seq![c, d]);
    lemma_apply_ops_concat(mem, seq![a, b], seq![c, d]);
    lemma_apply_ops_two(mem, a, b);
    lemma_apply_ops_two(apply_ops(mem, seq![a, b]), c, d);
}

pub proof fn lemma_write_range_whole(old: Seq<u8>, data: Seq<u8>)
    requires
        old.len() == data.len(),
    ensures
        write_range(old, 0, data) == data,
{
    assert(old.take(0) + data + old.skip(data.len() as int) =~= data);
}

} // verus!
