//! Laws about whole histories of handle operations on one control block.
//!
//! A [`HandleOp`] names one counting operation; [`op_step`] is its effect on
//! the block's model and is, operation for operation, the transform that the
//! corresponding [`crate::pool::HandlePool`] method promises in its
//! `ensures` clause. The lemmas below therefore state properties of every
//! sequence of pool operations on one block: the strong counter balances
//! acquisitions against releases and can never go negative, and the stored
//! value is torn down exactly once, by the drop of the last strong handle,
//! however many weak handles exist.

use vstd::prelude::*;

use crate::pool::{
    added_weak, block_wf, cloned_strong, dropped_strong, dropped_weak, upgraded, BlockModel,
};

verus! {

/// One counting operation on a control block.
pub ghost enum HandleOp {
    /// Clone a strong handle of the block.
    CloneStrong,
    /// Drop a strong handle of the block.
    ReleaseStrong,
    /// Downgrade a strong handle, creating a weak one.
    Downgrade,
    /// Clone a weak handle of the block.
    CloneWeak,
    /// Drop a weak handle of the block.
    ReleaseWeak,
    /// Attempt to upgrade a weak handle into a strong one.
    Upgrade,
}

/// When an operation can be performed on a block: each needs a live handle
/// of its kind to call it through, and the drop that would tear the value
/// down must find it unborrowed. These are exactly the `requires` of the
/// pool methods, stated over the block alone.
pub open spec fn op_allowed<T>(b: BlockModel<T>, op: HandleOp) -> bool {
    match op {
        HandleOp::CloneStrong => b.strong >= 1,
        HandleOp::ReleaseStrong => b.strong >= 1 && (b.strong == 1 ==> b.borrow is Unshared),
        HandleOp::Downgrade => b.strong >= 1,
        HandleOp::CloneWeak => b.weak >= 1,
        HandleOp::ReleaseWeak => b.weak >= 1,
        HandleOp::Upgrade => b.weak >= 1,
    }
}

/// Effect of one operation on the block: the transform that the matching
/// pool method's `ensures` clause applies to the block.
pub open spec fn op_step<T>(b: BlockModel<T>, op: HandleOp) -> BlockModel<T> {
    match op {
        HandleOp::CloneStrong => cloned_strong(b),
        HandleOp::ReleaseStrong => dropped_strong(b),
        HandleOp::Downgrade => added_weak(b),
        HandleOp::CloneWeak => added_weak(b),
        HandleOp::ReleaseWeak => dropped_weak(b),
        HandleOp::Upgrade => upgraded(b),
    }
}

/// The block after a whole history of operations.
pub open spec fn run<T>(b: BlockModel<T>, ops: Seq<HandleOp>) -> BlockModel<T>
    decreases ops.len(),
{
    if ops.len() == 0 {
        b
    } else {
        run(op_step(b, ops[0]), ops.drop_first())
    }
}

/// A history is admissible when every operation is allowed in the state
/// it finds.
pub open spec fn admissible<T>(b: BlockModel<T>, ops: Seq<HandleOp>) -> bool
    decreases ops.len(),
{
    ops.len() == 0 || (op_allowed(b, ops[0]) && admissible(op_step(b, ops[0]), ops.drop_first()))
}

/// How many operations of the history acquire a strong handle: every
/// clone, and every upgrade that finds the value still alive.
pub open spec fn strong_acquired<T>(b: BlockModel<T>, ops: Seq<HandleOp>) -> nat
    decreases ops.len(),
{
    if ops.len() == 0 {
        0
    } else {
        (if ops[0] is CloneStrong || (ops[0] is Upgrade && b.strong >= 1) {
            1nat
        } else {
            0nat
        }) + strong_acquired(op_step(b, ops[0]), ops.drop_first())
    }
}

/// How many operations of the history drop a strong handle.
pub open spec fn strong_released<T>(b: BlockModel<T>, ops: Seq<HandleOp>) -> nat
    decreases ops.len(),
{
    if ops.len() == 0 {
        0
    } else {
        (if ops[0] is ReleaseStrong {
            1nat
        } else {
            0nat
        }) + strong_released(op_step(b, ops[0]), ops.drop_first())
    }
}

/// How many operations of the history tear the stored value down: the
/// drops that take the strong counter from one to zero.
pub open spec fn teardown_count<T>(b: BlockModel<T>, ops: Seq<HandleOp>) -> nat
    decreases ops.len(),
{
    if ops.len() == 0 {
        0
    } else {
        (if ops[0] is ReleaseStrong && b.strong == 1 {
            1nat
        } else {
            0nat
        }) + teardown_count(op_step(b, ops[0]), ops.drop_first())
    }
}

/// Every prefix of an admissible history is admissible.
pub proof fn lemma_admissible_take<T>(b: BlockModel<T>, ops: Seq<HandleOp>, k: int)
    requires
        admissible(b, ops),
        0 <= k <= ops.len(),
    ensures
        admissible(b, ops.take(k)),
    decreases ops.len(),
{
    if k > 0 {
        assert(ops.take(k)[0] == ops[0]);
        assert(ops.take(k).drop_first() =~= ops.drop_first().take(k - 1));
        lemma_admissible_take(op_step(b, ops[0]), ops.drop_first(), k - 1);
    }
}

/// The strong counter balances its books: after any admissible history,
/// the count equals the starting count plus the successful acquisitions
/// (clones and successful upgrades) minus the completed drops. Stated
/// without subtraction, so it also says the drops can never outrun the
/// acquisitions: the counter never goes negative, at the end of the
/// history and (through [`lemma_admissible_take`]) at every prefix.
pub proof fn lemma_strong_balance<T>(b: BlockModel<T>, ops: Seq<HandleOp>)
    requires
        admissible(b, ops),
    ensures
        run(b, ops).strong + strong_released(b, ops) == b.strong + strong_acquired(b, ops),
    decreases ops.len(),
{
    if ops.len() > 0 {
        lemma_strong_balance(op_step(b, ops[0]), ops.drop_first());
    }
}

/// The balance holds mid-history too: at every prefix of an admissible
/// history the completed drops stay within the starting count plus the
/// acquisitions made so far — the counter cannot go negative at any point.
pub proof fn lemma_strong_balance_at_prefix<T>(b: BlockModel<T>, ops: Seq<HandleOp>, k: int)
    requires
        admissible(b, ops),
        0 <= k <= ops.len(),
    ensures
        run(b, ops.take(k)).strong + strong_released(b, ops.take(k)) == b.strong
            + strong_acquired(b, ops.take(k)),
        strong_released(b, ops.take(k)) <= b.strong + strong_acquired(b, ops.take(k)),
{
    lemma_admissible_take(b, ops, k);
    lemma_strong_balance(b, ops.take(k));
}

/// Once the strong counter has reached zero no admissible operation can
/// raise it again: the value stays torn down for good.
pub proof fn lemma_no_resurrection<T>(b: BlockModel<T>, ops: Seq<HandleOp>)
    requires
        admissible(b, ops),
        b.strong == 0,
    ensures
        run(b, ops).strong == 0,
    decreases ops.len(),
{
    if ops.len() > 0 {
        lemma_no_resurrection(op_step(b, ops[0]), ops.drop_first());
    }
}

/// The value is torn down exactly once, by the drop of the last strong
/// handle: an admissible history performs one teardown precisely when it
/// brings the strong counter from positive to zero, and can never perform
/// more than one — no matter how many weak handles are created, cloned,
/// dropped, or upgraded along the way.
pub proof fn lemma_single_teardown<T>(b: BlockModel<T>, ops: Seq<HandleOp>)
    requires
        admissible(b, ops),
    ensures
        teardown_count(b, ops) == if b.strong >= 1 && run(b, ops).strong == 0 {
            1nat
        } else {
            0nat
        },
        teardown_count(b, ops) <= 1,
    decreases ops.len(),
{
    if ops.len() > 0 {
        lemma_single_teardown(op_step(b, ops[0]), ops.drop_first());
        if op_step(b, ops[0]).strong == 0 {
            lemma_no_resurrection(op_step(b, ops[0]), ops.drop_first());
        }
    }
}

/// Admissible histories preserve the block's well-formedness; with it,
/// the statement that the stored value is present exactly while strong
/// owners exist.
pub proof fn lemma_wf_preserved<T>(b: BlockModel<T>, ops: Seq<HandleOp>)
    requires
        block_wf(b),
        admissible(b, ops),
    ensures
        block_wf(run(b, ops)),
    decreases ops.len(),
{
    if ops.len() > 0 {
        lemma_wf_preserved(op_step(b, ops[0]), ops.drop_first());
    }
}

} // verus!
