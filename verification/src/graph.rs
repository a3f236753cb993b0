//! The graph harness: tree-shaped ownership built from handles.
//!
//! A [`Node`] owns its children through strong handles and is merely aware
//! of its parent through a weak handle, so a parent/child pair never holds
//! two strong edges on one cycle. Dropping the last strong handle of a
//! subtree's root cascades: every node whose only owners stood inside the
//! dropped subtree is torn down with it, weak back-edges notwithstanding.
//! A cycle built from strong edges, by contrast, keeps itself alive — the
//! documented leak that weak edges exist to avoid.
//!
//! [`release_subtree`] is that cascade, and [`drain`] is its exact
//! mathematical counterpart: the function's `ensures` says the pool
//! afterwards *is* `drain` of the pool before.

use vstd::prelude::*;

use crate::pool::{
    dropped_strong, dropped_weak, valid_strong, valid_weak, BlockModel, HandlePool, StrongHandle,
    WeakHandle,
};

verus! {

/// A graph node: a number, a weak back-edge to the parent, and owning
/// edges to the children.
pub struct Node {
    /// The payload carried by the node.
    pub value: i64,
    /// Weak awareness of the parent; never keeps the parent alive.
    pub parent: Option<WeakHandle>,
    /// Owning edges: a child lives at least as long as this list entry.
    pub children: Vec<StrongHandle>,
}

/// The block indices named by a sequence of strong handles.
pub open spec fn views_of(handles: Seq<StrongHandle>) -> Seq<int> {
    handles.map_values(|h: StrongHandle| h@)
}

/// Sum of all strong counters of the pool: the measure that every drop of
/// a strong handle sends down by one.
pub open spec fn total_strong<T>(blocks: Seq<BlockModel<T>>) -> nat
    decreases blocks.len(),
{
    if blocks.len() == 0 {
        0
    } else {
        total_strong(blocks.drop_last()) + blocks.last().strong
    }
}

/// Replacing one block changes the strong total by exactly the difference
/// of the two strong counters.
pub proof fn lemma_total_strong_update<T>(blocks: Seq<BlockModel<T>>, i: int, b: BlockModel<T>)
    requires
        0 <= i < blocks.len(),
    ensures
        total_strong(blocks.update(i, b)) + blocks[i].strong == total_strong(blocks) + b.strong,
    decreases blocks.len(),
{
    if i == blocks.len() - 1 {
        assert(blocks.update(i, b).drop_last() =~= blocks.drop_last());
    } else {
        assert(blocks.update(i, b).drop_last() =~= blocks.drop_last().update(i, b));
        lemma_total_strong_update(blocks.drop_last(), i, b);
    }
}

/// The pool after the teardown part of one drain step: the value of block
/// `i` has been dropped, so its parent edge gives back one weak count
/// (when it still names a live weak slot; a dangling entry is left alone).
pub open spec fn after_teardown(blocks: Seq<BlockModel<Node>>, i: int) -> Seq<BlockModel<Node>> {
    let node = blocks[i].value->0;
    let torn = blocks.update(i, dropped_strong(blocks[i]));
    match node.parent {
        Some(pw) => if valid_weak(torn, pw@) {
            torn.update(pw@, dropped_weak(torn[pw@]))
        } else {
            torn
        },
        None => torn,
    }
}

/// The exact effect of cascading release: drop the handles of `pending`
/// from last to first. A drop that leaves further owners just decrements;
/// the drop of a last owner tears the node down, releases its weak parent
/// edge and queues its children. An entry that no longer names a live
/// strong slot is skipped.
pub open spec fn drain(blocks: Seq<BlockModel<Node>>, pending: Seq<int>) -> Seq<BlockModel<Node>>
    decreases total_strong(blocks), pending.len(),
    via drain_decreases
{
    if pending.len() == 0 {
        blocks
    } else {
        let i = pending.last();
        let rest = pending.drop_last();
        if !valid_strong(blocks, i) {
            drain(blocks, rest)
        } else if blocks[i].strong > 1 {
            drain(blocks.update(i, dropped_strong(blocks[i])), rest)
        } else {
            let node = blocks[i].value->0;
            drain(after_teardown(blocks, i), rest + views_of(node.children@))
        }
    }
}

#[via_fn]
proof fn drain_decreases(blocks: Seq<BlockModel<Node>>, pending: Seq<int>) {
    if pending.len() > 0 {
        let i = pending.last();
        if valid_strong(blocks, i) {
            lemma_total_strong_update(blocks, i, dropped_strong(blocks[i]));
            if blocks[i].strong <= 1 {
                let node = blocks[i].value->0;
                let torn = blocks.update(i, dropped_strong(blocks[i]));
                match node.parent {
                    Some(pw) => {
                        if valid_weak(torn, pw@) {
                            lemma_total_strong_update(torn, pw@, dropped_weak(torn[pw@]));
                        }
                    },
                    None => {},
                }
            }
        }
    }
}

/// Create a fresh node holding `value`, with no parent edge and no
/// children, owned by the returned strong handle.
pub fn new_node(pool: &mut HandlePool<Node>, value: i64) -> (h: StrongHandle)
    requires
        old(pool).wf(),
    ensures
        h@ == old(pool)@.len(),
        valid_strong(final(pool)@, h@),
        final(pool)@.len() == old(pool)@.len() + 1,
        final(pool)@[h@].strong == 1,
        final(pool)@[h@].weak == 0,
        final(pool)@[h@].borrow is Unshared,
        final(pool)@[h@].value matches Some(n) && n.value == value && n.parent is None
            && n.children@.len() == 0,
        forall|i: int| 0 <= i < old(pool)@.len() ==> final(pool)@[i] == old(pool)@[i],
        final(pool).wf(),
    {
        pool.allocate(Node { value, parent: None, children: Vec::new() })
    }

/// Attach `child` as one more child of `parent`: the parent's node takes
/// ownership of the handle, so the child now lives at least as long as the
/// parent's children list. Counters move only by the handle changing
/// hands; the mutation runs under the parent's exclusive borrow, which is
/// taken and given back inside the call.
pub fn attach_child(pool: &mut HandlePool<Node>, parent: &StrongHandle, child: StrongHandle)
    requires
        old(pool).wf(),
        valid_strong(old(pool)@, parent@),
        old(pool)@[parent@].borrow is Unshared,
    ensures
        final(pool)@.len() == old(pool)@.len(),
        final(pool)@[parent@].value matches Some(after) && old(pool)@[parent@].value matches Some(
            before,
        ) && after.value == before.value && after.parent == before.parent
            && after.children@ =~= before.children@.push(child),
        final(pool)@[parent@].strong == old(pool)@[parent@].strong,
        final(pool)@[parent@].weak == old(pool)@[parent@].weak,
        final(pool)@[parent@].borrow == old(pool)@[parent@].borrow,
        forall|i: int|
            0 <= i < old(pool)@.len() && i != parent@ ==> final(pool)@[i] == old(pool)@[i],
        final(pool).wf(),
{
    let guard = match pool.borrow_exclusive(parent) {
        Ok(g) => g,
        Err(_) => vstd::pervasive::unreached(),
    };
    let mut node = pool.replace(&guard, Node { value: 0, parent: None, children: Vec::new() });
    node.children.push(child);
    let _ = pool.replace(&guard, node);
    pool.release_exclusive(guard);
}

/// Point `child`'s back-edge at `parent_edge`, handing back the weak
/// handle the node held before, so the caller can release it. The mutation
/// runs under the child's exclusive borrow, taken and given back inside
/// the call.
pub fn set_parent(pool: &mut HandlePool<Node>, child: &StrongHandle, parent_edge: WeakHandle) -> (prev: Option<WeakHandle>)
    requires
        old(pool).wf(),
        valid_strong(old(pool)@, child@),
        old(pool)@[child@].borrow is Unshared,
    ensures
        final(pool)@.len() == old(pool)@.len(),
        final(pool)@[child@].value matches Some(after) && old(pool)@[child@].value matches Some(
            before,
        ) && after.value == before.value && after.children == before.children
            && after.parent == Some(parent_edge) && prev == before.parent,
        final(pool)@[child@].strong == old(pool)@[child@].strong,
        final(pool)@[child@].weak == old(pool)@[child@].weak,
        final(pool)@[child@].borrow == old(pool)@[child@].borrow,
        forall|i: int|
            0 <= i < old(pool)@.len() && i != child@ ==> final(pool)@[i] == old(pool)@[i],
        final(pool).wf(),
{
    let guard = match pool.borrow_exclusive(child) {
        Ok(g) => g,
        Err(_) => vstd::pervasive::unreached(),
    };
    let mut node = pool.replace(&guard, Node { value: 0, parent: None, children: Vec::new() });
    let prev = node.parent;
    node.parent = Some(parent_edge);
    let _ = pool.replace(&guard, node);
    pool.release_exclusive(guard);
    prev
}

/// Drop a strong handle of a node and cascade: when a drop tears a node
/// down, the node's weak parent edge is given back and its owning edges to
/// its children are dropped in turn, tearing down every node whose last
/// owner stood inside the released subtree. The pool afterwards is exactly
/// [`drain`] of the pool before, started on the one released handle.
pub fn release_subtree(pool: &mut HandlePool<Node>, h: StrongHandle)
    requires
        old(pool).wf(),
        valid_strong(old(pool)@, h@),
        forall|i: int| 0 <= i < old(pool)@.len() ==> (#[trigger] old(pool)@[i]).borrow is Unshared,
    ensures
        final(pool)@ =~= drain(old(pool)@, seq![h@]),
        final(pool)@.len() == old(pool)@.len(),
        forall|i: int| 0 <= i < final(pool)@.len() ==> (#[trigger] final(pool)@[i]).borrow
            is Unshared,
        final(pool).wf(),
{
    let ghost blocks0 = pool@;
    let ghost start: Seq<int> = seq![h@];
    let mut pending: Vec<StrongHandle> = Vec::new();
    pending.push(h);
    proof {
        assert(views_of(pending@) =~= start);
    }
    loop
        invariant
            pool.wf(),
            pool@.len() == blocks0.len(),
            forall|i: int| 0 <= i < pool@.len() ==> (#[trigger] pool@[i]).borrow is Unshared,
            drain(blocks0, start) == drain(pool@, views_of(pending@)),
        ensures
            pending@.len() == 0,
            pool.wf(),
            pool@.len() == blocks0.len(),
            forall|i: int| 0 <= i < pool@.len() ==> (#[trigger] pool@[i]).borrow is Unshared,
            drain(blocks0, start) == drain(pool@, views_of(pending@)),
        decreases total_strong(pool@), pending@.len(),
    {
        let ghost pre_blocks = pool@;
        let ghost pre_pending = views_of(pending@);
        let next = match pending.pop() {
            Some(n) => n,
            None => {
                break ;
            },
        };
        proof {
            assert(pre_pending.len() > 0);
            assert(next@ == pre_pending.last());
            assert(views_of(pending@) =~= pre_pending.drop_last());
        }
        if pool.is_strong(&next) {
            let ghost i = next@;
            match pool.release_strong(next) {
                Some(node) => {
                    proof {
                        lemma_total_strong_update(pre_blocks, i, dropped_strong(pre_blocks[i]));
                    }
                    match node.parent {
                        Some(parent_edge) => {
                            if pool.is_weak(&parent_edge) {
                                proof {
                                    lemma_total_strong_update(
                                        pool@,
                                        parent_edge@,
                                        dropped_weak(pool@[parent_edge@]),
                                    );
                                }
                                pool.release_weak(parent_edge);
                            }
                        },
                        None => {},
                    }
                    proof {
                        assert(pool@ =~= after_teardown(pre_blocks, i));
                    }
                    let mut children = node.children;
                    let ghost child_views = views_of(children@);
                    pending.append(&mut children);
                    proof {
                        assert(views_of(pending@) =~= pre_pending.drop_last() + child_views);
                    }
                },
                None => {
                    proof {
                        lemma_total_strong_update(pre_blocks, i, dropped_strong(pre_blocks[i]));
                    }
                },
            }
        }
    }
}

} // verus!
