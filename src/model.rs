//! The sequential model of the shared block.
//!
//! Every handle operation is one atomic step on the block; a run of the
//! primitive is a sequence of such steps in the order they took effect.
use vstd::prelude::*;

verus! {

/// A write that a viewer attempted on a read-only block, carrying the
/// value it tried to write.
#[derive(Debug, PartialEq, Eq)]
pub struct StoreError<T>(pub T);

/// The shared block as a plain value: what it holds and whether it has been
/// frozen.
pub struct Block<T> {
    pub value: T,
    pub read_only: bool,
}

/// One atomic step on the block.
pub enum Op<T> {
    ViewerStore(T),
    ViewerSwap(T),
    OwnerStore(T),
    OwnerSwap(T),
    Load,
    OwnerDrop,
}

/// What a step hands back to its caller.
pub enum Reply<T> {
    Stored(Result<(), StoreError<T>>),
    Swapped(Result<T, StoreError<T>>),
    OwnerStored,
    OwnerSwapped(T),
    Loaded(T),
    Dropped,
}

/// The reply to a guarded write once the read-only flag has been read:
/// the value passes through while the block is writable, and comes back
/// as a rejection once it is not.
pub open spec fn write_reply<T>(read_only: bool, val: T) -> Result<T, StoreError<T>> {
    if read_only {
        Err(StoreError(val))
    } else {
        Ok(val)
    }
}

pub open spec fn is_viewer_write<T>(op: Op<T>) -> bool {
    op is ViewerStore || op is ViewerSwap
}

pub open spec fn is_viewer_op<T>(op: Op<T>) -> bool {
    is_viewer_write(op) || op is Load
}

/// The block after one step.
pub open spec fn apply<T>(b: Block<T>, op: Op<T>) -> Block<T> {
    match op {
        Op::ViewerStore(v) | Op::ViewerSwap(v) => match write_reply(b.read_only, v) {
            Ok(w) => Block { value: w, read_only: b.read_only },
            Err(_) => b,
        },
        Op::OwnerStore(v) | Op::OwnerSwap(v) => Block { value: v, read_only: b.read_only },
        Op::Load => b,
        Op::OwnerDrop => Block { value: b.value, read_only: true },
    }
}

/// What one step hands back.
pub open spec fn reply<T>(b: Block<T>, op: Op<T>) -> Reply<T> {
    match op {
        Op::ViewerStore(v) => Reply::Stored(
            match write_reply(b.read_only, v) {
                Ok(_) => Ok(()),
                Err(e) => Err(e),
            },
        ),
        Op::ViewerSwap(v) => Reply::Swapped(
            match write_reply(b.read_only, v) {
                Ok(_) => Ok(b.value),
                Err(e) => Err(e),
            },
        ),
        Op::OwnerStore(_) => Reply::OwnerStored,
        Op::OwnerSwap(_) => Reply::OwnerSwapped(b.value),
        Op::Load => Reply::Loaded(b.value),
        Op::OwnerDrop => Reply::Dropped,
    }
}

/// The block after a sequence of steps.
pub open spec fn run<T>(b: Block<T>, ops: Seq<Op<T>>) -> Block<T>
    decreases ops.len(),
{
    if ops.len() == 0 {
        b
    } else {
        apply(run(b, ops.drop_last()), ops.last())
    }
}

/// Decides a viewer's write from the read-only flag it observed.
pub fn gate_write<T: Copy>(read_only: bool, val: T) -> (r: Result<T, StoreError<T>>)
    ensures
        r == write_reply(read_only, val),
{
    if read_only {
        Err(StoreError(val))
    } else {
        Ok(val)
    }
}

} // verus!
