//! The thread-safe handle family: the same counting contract as the plain
//! handles of [`crate::pool`], offered by a structurally distinct set of
//! types so that a program chooses, once and at the type level, whether
//! sharing may cross a thread.
//!
//! The family differs from the plain one in how the stored value may be
//! touched: instead of the shared/exclusive borrow tracker it offers one
//! exclusive value lock, the shape a blocking mutex presents. Acquiring a
//! blocking lock cannot fail, it can only wait; the one thing a caller must
//! not do is acquire it while already holding it, which here — where one
//! caller runs at a time — is ruled out by precondition rather than by
//! deadlock. The upgrade of a weak handle checks the strong counter and
//! increments it in one indivisible step, so an upgrade can never revive a
//! value whose teardown has begun.
//!
//! The counting semantics proved here is what the concurrent counterpart
//! must preserve; scheduling threads around a shared pool is left to the
//! embedding program.

use vstd::prelude::*;

use crate::borrow::BorrowModel;
use crate::pool::{
    added_weak, block_wf, cloned_strong, dropped_strong, dropped_weak, fresh_block, upgraded,
    valid_strong,
    valid_weak, with_borrow, BlockModel, ExclusiveGuard, HandlePool, StrongHandle, WeakHandle,
};

verus! {

/// An owning handle of the thread-safe family.
pub struct AtomicStrongHandle {
    inner: StrongHandle,
}

impl View for AtomicStrongHandle {
    type V = int;

    closed spec fn view(&self) -> int {
        self.inner@
    }
}

/// A non-owning handle of the thread-safe family.
pub struct AtomicWeakHandle {
    inner: WeakHandle,
}

impl View for AtomicWeakHandle {
    type V = int;

    closed spec fn view(&self) -> int {
        self.inner@
    }
}

/// Token witnessing the held value lock of one block.
pub struct ValueLockGuard {
    inner: ExclusiveGuard,
}

impl View for ValueLockGuard {
    type V = int;

    closed spec fn view(&self) -> int {
        self.inner@
    }
}

/// The pool of control blocks behind the thread-safe handle family.
pub struct AtomicHandlePool<T> {
    inner: HandlePool<T>,
}

/// Whether the value lock of block `i` is held. The lock reuses the
/// block's borrow cell, of which this family only ever uses the unshared
/// and exclusive states.
pub open spec fn locked<T>(blocks: Seq<BlockModel<T>>, i: int) -> bool {
    blocks[i].borrow is Exclusive
}

impl<T> View for AtomicHandlePool<T> {
    type V = Seq<BlockModel<T>>;

    closed spec fn view(&self) -> Seq<BlockModel<T>> {
        self.inner@
    }
}

/// An update of one block that stays out of the shared borrow state keeps
/// a pool free of shared borrows.
proof fn lemma_unshared_after_update<T>(
    pre: Seq<BlockModel<T>>,
    post: Seq<BlockModel<T>>,
    i: int,
)
    requires
        0 <= i < pre.len(),
        post =~= pre.update(i, post[i]),
        forall|j: int| 0 <= j < pre.len() ==> !((#[trigger] pre[j]).borrow is SharedBy),
        !(post[i].borrow is SharedBy),
    ensures
        forall|j: int| 0 <= j < post.len() ==> !((#[trigger] post[j]).borrow is SharedBy),
{
    assert forall|j: int| 0 <= j < post.len() implies !((#[trigger] post[j]).borrow
        is SharedBy) by {
        if j != i {
            assert(post[j] == pre[j]);
        }
    }
}

impl<T> AtomicHandlePool<T> {
    /// Every block of the pool is well-formed, and no block is ever in a
    /// shared borrow state: this family's lock knows only free and held.
    pub open spec fn wf(&self) -> bool {
        &&& forall|i: int| 0 <= i < self@.len() ==> block_wf(#[trigger] self@[i])
        &&& forall|i: int| 0 <= i < self@.len() ==> !((#[trigger] self@[i]).borrow is SharedBy)
    }

    /// An empty pool with no blocks.
    pub fn new() -> (pool: AtomicHandlePool<T>)
        ensures
            pool@ =~= Seq::<BlockModel<T>>::empty(),
            pool.wf(),
    {
        AtomicHandlePool { inner: HandlePool::new() }
    }

    /// Allocate a fresh control block for `value`: one strong owner, no
    /// weak observers, the value lock free.
    pub fn allocate(&mut self, value: T) -> (h: AtomicStrongHandle)
        requires
            old(self).wf(),
        ensures
            final(self)@ =~= old(self)@.push(fresh_block(value)),
            h@ == old(self)@.len(),
            valid_strong(final(self)@, h@),
            final(self).wf(),
    {
        let h = AtomicStrongHandle { inner: self.inner.allocate(value) };
        proof {
            assert forall|j: int| 0 <= j < self@.len() implies !((#[trigger] self@[j]).borrow
                is SharedBy) by {
                if j < old(self)@.len() {
                    assert(self@[j] == old(self)@[j]);
                }
            }
        }
        h
    }

    /// How many strong owners the handle's block currently has.
    pub fn strong_count(&self, h: &AtomicStrongHandle) -> (n: usize)
        requires
            0 <= h@ < self@.len(),
        ensures
            n == self@[h@].strong,
    {
        self.inner.strong_count(&h.inner)
    }

    /// How many weak observers the handle's block currently has.
    pub fn weak_count(&self, h: &AtomicStrongHandle) -> (n: usize)
        requires
            0 <= h@ < self@.len(),
        ensures
            n == self@[h@].weak,
    {
        self.inner.weak_count(&h.inner)
    }

    /// Strong-owner count as seen through a weak handle.
    pub fn observed_strong_count(&self, w: &AtomicWeakHandle) -> (n: usize)
        requires
            0 <= w@ < self@.len(),
        ensures
            n == self@[w@].strong,
    {
        self.inner.observed_strong_count(&w.inner)
    }

    /// Whether the value lock of the handle's block is currently held.
    pub fn is_locked(&self, h: &AtomicStrongHandle) -> (r: bool)
        requires
            0 <= h@ < self@.len(),
        ensures
            r == locked(self@, h@),
    {
        self.inner.is_locked_at(&h.inner)
    }

    /// Clone a strong handle: one more strong owner, by an atomic
    /// fetch-and-add in the concurrent counterpart. Never fails.
    pub fn clone_strong(&mut self, h: &AtomicStrongHandle) -> (h2: AtomicStrongHandle)
        requires
            old(self).wf(),
            valid_strong(old(self)@, h@),
            old(self)@[h@].strong < usize::MAX,
        ensures
            final(self)@ =~= old(self)@.update(h@, cloned_strong(old(self)@[h@])),
            h2@ == h@,
            final(self).wf(),
    {
        let h2 = AtomicStrongHandle { inner: self.inner.clone_strong(&h.inner) };
        proof {
            lemma_unshared_after_update(old(self)@, self@, h@);
        }
        h2
    }

    /// Downgrade a strong handle into a weak observer of the same block.
    pub fn downgrade(&mut self, h: &AtomicStrongHandle) -> (w: AtomicWeakHandle)
        requires
            old(self).wf(),
            valid_strong(old(self)@, h@),
            old(self)@[h@].weak < usize::MAX,
        ensures
            final(self)@ =~= old(self)@.update(h@, added_weak(old(self)@[h@])),
            w@ == h@,
            final(self).wf(),
    {
        let w = AtomicWeakHandle { inner: self.inner.downgrade(&h.inner) };
        proof {
            lemma_unshared_after_update(old(self)@, self@, h@);
        }
        w
    }

    /// Clone a weak handle: one more weak observer.
    pub fn clone_weak(&mut self, w: &AtomicWeakHandle) -> (w2: AtomicWeakHandle)
        requires
            old(self).wf(),
            valid_weak(old(self)@, w@),
            old(self)@[w@].weak < usize::MAX,
        ensures
            final(self)@ =~= old(self)@.update(w@, added_weak(old(self)@[w@])),
            w2@ == w@,
            final(self).wf(),
    {
        let w2 = AtomicWeakHandle { inner: self.inner.clone_weak(&w.inner) };
        proof {
            lemma_unshared_after_update(old(self)@, self@, w@);
        }
        w2
    }

    /// Drop a strong handle: the decrement that reaches zero tears the
    /// value down in the same step and hands it back, whatever the weak
    /// count; any other decrement leaves the value in place.
    pub fn release_strong(&mut self, h: AtomicStrongHandle) -> (torn: Option<T>)
        requires
            old(self).wf(),
            valid_strong(old(self)@, h@),
            old(self)@[h@].strong == 1 ==> !locked(old(self)@, h@),
        ensures
            final(self)@ =~= old(self)@.update(h@, dropped_strong(old(self)@[h@])),
            torn == if old(self)@[h@].strong == 1 {
                old(self)@[h@].value
            } else {
                None::<T>
            },
            final(self).wf(),
    {
        let torn = self.inner.release_strong(h.inner);
        proof {
            lemma_unshared_after_update(old(self)@, self@, h@);
        }
        torn
    }

    /// Drop a weak handle: the weak counter goes down by one.
    pub fn release_weak(&mut self, w: AtomicWeakHandle)
        requires
            old(self).wf(),
            valid_weak(old(self)@, w@),
        ensures
            final(self)@ =~= old(self)@.update(w@, dropped_weak(old(self)@[w@])),
            final(self).wf(),
    {
        let ghost i = w@;
        self.inner.release_weak(w.inner);
        proof {
            lemma_unshared_after_update(old(self)@, self@, i);
        }
    }

    /// Attempt to upgrade a weak handle: succeeds if and only if the block
    /// still has a strong owner, checking and incrementing the counter in
    /// one step — the compare-and-swap loop of the concurrent counterpart.
    pub fn upgrade(&mut self, w: &AtomicWeakHandle) -> (r: Option<AtomicStrongHandle>)
        requires
            old(self).wf(),
            valid_weak(old(self)@, w@),
            old(self)@[w@].strong < usize::MAX,
        ensures
            r is Some <==> old(self)@[w@].strong >= 1,
            r is Some ==> r->0@ == w@,
            final(self)@ =~= old(self)@.update(w@, upgraded(old(self)@[w@])),
            final(self).wf(),
    {
        let r = self.inner.upgrade(&w.inner);
        proof {
            lemma_unshared_after_update(old(self)@, self@, w@);
        }
        match r {
            Some(h) => Some(AtomicStrongHandle { inner: h }),
            None => None,
        }
    }

    /// Read the stored value through a strong handle.
    pub fn get(&self, h: &AtomicStrongHandle) -> (r: &T)
        requires
            self.wf(),
            valid_strong(self@, h@),
        ensures
            self@[h@].value == Some(*r),
    {
        self.inner.get(&h.inner)
    }

    /// Take the value lock of the handle's block. A blocking lock cannot
    /// fail; the precondition that it is not already held is what, with a
    /// single caller, stands in for waiting.
    pub fn lock(&mut self, h: &AtomicStrongHandle) -> (g: ValueLockGuard)
        requires
            old(self).wf(),
            valid_strong(old(self)@, h@),
            !locked(old(self)@, h@),
        ensures
            final(self)@ =~= old(self)@.update(
                h@,
                with_borrow(old(self)@[h@], BorrowModel::Exclusive),
            ),
            g@ == h@,
            final(self).wf(),
    {
        let r = self.inner.borrow_exclusive(&h.inner);
        proof {
            lemma_unshared_after_update(old(self)@, self@, h@);
        }
        match r {
            Ok(g) => ValueLockGuard { inner: g },
            Err(_) => vstd::pervasive::unreached(),
        }
    }

    /// Replace the stored value while holding its lock, handing the
    /// previous value back.
    pub fn store(&mut self, g: &ValueLockGuard, value: T) -> (prev: T)
        requires
            old(self).wf(),
            0 <= g@ < old(self)@.len(),
            locked(old(self)@, g@),
        ensures
            old(self)@[g@].value == Some(prev),
            final(self)@ =~= old(self)@.update(
                g@,
                BlockModel {
                    value: Some(value),
                    strong: old(self)@[g@].strong,
                    weak: old(self)@[g@].weak,
                    borrow: old(self)@[g@].borrow,
                },
            ),
            final(self).wf(),
    {
        let prev = self.inner.replace(&g.inner, value);
        proof {
            lemma_unshared_after_update(old(self)@, self@, g@);
        }
        prev
    }

    /// Read the stored value while holding its lock.
    pub fn read_locked(&self, g: &ValueLockGuard) -> (r: &T)
        requires
            self.wf(),
            0 <= g@ < self@.len(),
            locked(self@, g@),
        ensures
            self@[g@].value == Some(*r),
    {
        self.inner.get_locked(&g.inner)
    }

    /// Give the value lock back.
    pub fn unlock(&mut self, g: ValueLockGuard)
        requires
            old(self).wf(),
            0 <= g@ < old(self)@.len(),
            locked(old(self)@, g@),
        ensures
            final(self)@ =~= old(self)@.update(
                g@,
                with_borrow(old(self)@[g@], BorrowModel::Unshared),
            ),
            final(self).wf(),
    {
        let ghost i = g@;
        self.inner.release_exclusive(g.inner);
        proof {
            lemma_unshared_after_update(old(self)@, self@, i);
        }
    }
}

} // verus!
