//! Laws of the block model: what holds across every run of the primitive.
use vstd::prelude::*;
use crate::model::{Block, Op, Reply, StoreError, apply, reply, run, is_viewer_op, is_viewer_write};

verus! {

/// Whether a step replaces the value held by the block.
pub open spec fn writes<T>(b: Block<T>, op: Op<T>) -> bool {
    match op {
        Op::ViewerStore(_) | Op::ViewerSwap(_) => !b.read_only,
        Op::OwnerStore(_) | Op::OwnerSwap(_) => true,
        _ => false,
    }
}

/// The value a writing step carries.
pub open spec fn written<T>(op: Op<T>) -> Option<T> {
    match op {
        Op::ViewerStore(v) | Op::ViewerSwap(v) | Op::OwnerStore(v) | Op::OwnerSwap(v) => Some(v),
        _ => None,
    }
}

/// The reply a viewer write gets from a frozen block.
pub open spec fn rejection<T>(op: Op<T>) -> Reply<T> {
    match op {
        Op::ViewerStore(v) => Reply::Stored(Err(StoreError(v))),
        Op::ViewerSwap(v) => Reply::Swapped(Err(StoreError(v))),
        _ => Reply::Dropped,
    }
}

/// The steps of a run of viewer swaps.
pub open spec fn swaps<T>(vals: Seq<T>) -> Seq<Op<T>> {
    Seq::new(vals.len(), |i: int| Op::ViewerSwap(vals[i]))
}

proof fn lemma_take_of_drop_last<T>(ops: Seq<Op<T>>, i: int)
    requires
        0 <= i < ops.len(),
    ensures
        ops.drop_last().take(i) == ops.take(i),
{
    assert(ops.drop_last().take(i) =~= ops.take(i));
}

/// A run in which no step writes leaves the value as it was.
pub proof fn lemma_no_write_keeps_value<T>(b: Block<T>, ops: Seq<Op<T>>)
    requires
        forall|i: int| 0 <= i < ops.len() ==> !writes(#[trigger] run(b, ops.take(i)), ops[i]),
    ensures
        run(b, ops).value == b.value,
    decreases ops.len(),
{
    if ops.len() > 0 {
        let front = ops.drop_last();
        assert forall|i: int| 0 <= i < front.len() implies !writes(
            #[trigger] run(b, front.take(i)),
            front[i],
        ) by {
            lemma_take_of_drop_last(ops, i);
            assert(!writes(run(b, ops.take(i)), ops[i]));
        }
        lemma_no_write_keeps_value(b, front);
        assert(ops.take(ops.len() - 1) =~= front);
        assert(!writes(run(b, ops.take(ops.len() - 1)), ops[ops.len() - 1]));
    }
}

/// Read after write: once a write of `v` has taken effect, a load returns
/// `v` as long as no other write has taken effect since.
pub proof fn lemma_read_after_write<T>(b: Block<T>, op: Op<T>, v: T, ops: Seq<Op<T>>)
    requires
        written(op) == Some(v),
        writes(b, op),
        forall|i: int|
            0 <= i < ops.len() ==> !writes(#[trigger] run(apply(b, op), ops.take(i)), ops[i]),
    ensures
        reply(run(apply(b, op), ops), Op::Load) == Reply::Loaded(v),
{
    lemma_no_write_keeps_value(apply(b, op), ops);
}

/// Once frozen, a block stays frozen whatever steps follow.
pub proof fn lemma_read_only_stays<T>(b: Block<T>, ops: Seq<Op<T>>)
    requires
        b.read_only,
    ensures
        run(b, ops).read_only,
    decreases ops.len(),
{
    if ops.len() > 0 {
        lemma_read_only_stays(b, ops.drop_last());
    }
}

/// Monotone freeze: on a frozen block every viewer write is rejected with
/// the value it carried, and steps of viewers alone leave the block as it is.
pub proof fn lemma_frozen_rejects_viewers<T>(b: Block<T>, ops: Seq<Op<T>>)
    requires
        b.read_only,
    ensures
        forall|i: int|
            0 <= i < ops.len() && is_viewer_write(ops[i]) ==> #[trigger] reply(
                run(b, ops.take(i)),
                ops[i],
            ) == rejection(ops[i]),
        (forall|i: int| 0 <= i < ops.len() ==> is_viewer_op(#[trigger] ops[i])) ==> run(b, ops)
            == b,
    decreases ops.len(),
{
    assert forall|i: int| 0 <= i < ops.len() && is_viewer_write(ops[i]) implies #[trigger] reply(
        run(b, ops.take(i)),
        ops[i],
    ) == rejection(ops[i]) by {
        lemma_read_only_stays(b, ops.take(i));
    }
    if ops.len() > 0 {
        let front = ops.drop_last();
        lemma_frozen_rejects_viewers(b, front);
        if forall|i: int| 0 <= i < ops.len() ==> is_viewer_op(#[trigger] ops[i]) {
            assert forall|i: int| 0 <= i < front.len() implies is_viewer_op(#[trigger] front[i]) by {
                assert(is_viewer_op(ops[i]));
            }
            assert(is_viewer_op(ops[ops.len() - 1]));
        }
    }
}

/// No torn freeze: after the owner is dropped, every load by a viewer
/// returns the value the block held when it was dropped.
pub proof fn lemma_freeze_keeps_last_write<T>(b: Block<T>, ops: Seq<Op<T>>)
    requires
        forall|i: int| 0 <= i < ops.len() ==> is_viewer_op(#[trigger] ops[i]),
    ensures
        forall|i: int|
            0 <= i < ops.len() && ops[i] is Load ==> #[trigger] reply(
                run(apply(b, Op::OwnerDrop), ops.take(i)),
                ops[i],
            ) == Reply::Loaded(b.value),
        run(apply(b, Op::OwnerDrop), ops).value == b.value,
{
    let frozen = apply(b, Op::OwnerDrop);
    lemma_frozen_rejects_viewers(frozen, ops);
    assert forall|i: int| 0 <= i < ops.len() && ops[i] is Load implies #[trigger] reply(
        run(frozen, ops.take(i)),
        ops[i],
    ) == Reply::Loaded(b.value) by {
        let pre = ops.take(i);
        assert forall|j: int| 0 <= j < pre.len() implies is_viewer_op(#[trigger] pre[j]) by {
            assert(is_viewer_op(ops[j]));
        }
        lemma_frozen_rejects_viewers(frozen, pre);
    }
}

proof fn lemma_swaps_prefix<T>(b: Block<T>, vals: Seq<T>, i: int)
    requires
        !b.read_only,
        0 <= i <= vals.len(),
    ensures
        run(b, swaps(vals).take(i)) == (Block {
            value: if i == 0 { b.value } else { vals[i - 1] },
            read_only: false,
        }),
    decreases i,
{
    if i > 0 {
        lemma_swaps_prefix(b, vals, i - 1);
        assert(swaps(vals).take(i).drop_last() =~= swaps(vals).take(i - 1));
    }
}

/// Swap correctness: in a run of swaps on a writable block, each swap
/// returns exactly the value that the step before it left.
pub proof fn lemma_swap_chain<T>(b: Block<T>, vals: Seq<T>)
    requires
        !b.read_only,
    ensures
        forall|i: int|
            0 <= i < vals.len() ==> #[trigger] reply(run(b, swaps(vals).take(i)), swaps(vals)[i])
                == Reply::Swapped(Ok(if i == 0 { b.value } else { vals[i - 1] })),
        run(b, swaps(vals)).value == if vals.len() == 0 { b.value } else { vals.last() },
{
    assert forall|i: int| 0 <= i < vals.len() implies #[trigger] reply(
        run(b, swaps(vals).take(i)),
        swaps(vals)[i],
    ) == Reply::Swapped(Ok(if i == 0 { b.value } else { vals[i - 1] })) by {
        lemma_swaps_prefix(b, vals, i);
    }
    lemma_swaps_prefix(b, vals, vals.len() as int);
    assert(swaps(vals).take(vals.len() as int) =~= swaps(vals));
}

/// Owner writes are unconditional: they take effect, and a swap returns the
/// value held before it, whether or not the block is frozen.
pub proof fn lemma_owner_writes_always<T>(b: Block<T>, v: T)
    ensures
        apply(b, Op::OwnerStore(v)) == (Block { value: v, read_only: b.read_only }),
        apply(b, Op::OwnerSwap(v)) == (Block { value: v, read_only: b.read_only }),
        reply(b, Op::OwnerSwap(v)) == Reply::OwnerSwapped(b.value),
{
}

} // verus!
