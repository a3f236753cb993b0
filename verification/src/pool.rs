//! The reference-counting runtime: control blocks held in a pool, owning
//! strong handles, and non-owning weak handles.
//!
//! Every handle is a move-only token naming one control block of one pool.
//! A block holds the stored value together with a strong counter, a weak
//! counter and a borrow-state cell. The value is torn down (replaced by
//! `None`) exactly when the strong counter reaches zero; the block's slot
//! counts as freed once the weak counter has reached zero as well.
//!
//! Handles are deliberately neither `Clone` nor `Copy`: duplicating an
//! owning token would desynchronise it from the counters, so the only way
//! to obtain another handle is through the counting operations themselves.

use vstd::prelude::*;

use crate::borrow::{
    after_release_shared, after_shared, borrow_wf, exclusive_allowed, shared_allowed,
    BorrowConflict, BorrowModel, BorrowState,
};

verus! {

/// Mathematical model of one control block.
pub ghost struct BlockModel<T> {
    /// The stored value; `None` once the value has been torn down.
    pub value: Option<T>,
    /// How many strong (owning) handles reference the block.
    pub strong: nat,
    /// How many weak (observing) handles reference the block.
    pub weak: nat,
    /// How the stored value is currently borrowed.
    pub borrow: BorrowModel,
}

/// The shared allocation behind every handle to one logical value.
struct ControlBlock<T> {
    value: Option<T>,
    strong: usize,
    weak: usize,
    borrow: BorrowState,
}

impl<T> View for ControlBlock<T> {
    type V = BlockModel<T>;

    closed spec fn view(&self) -> BlockModel<T> {
        BlockModel {
            value: self.value,
            strong: self.strong as nat,
            weak: self.weak as nat,
            borrow: self.borrow@,
        }
    }
}

/// An owning handle: its existence keeps the stored value alive.
pub struct StrongHandle {
    index: usize,
}

impl View for StrongHandle {
    type V = int;

    closed spec fn view(&self) -> int {
        self.index as int
    }
}

/// A non-owning handle: observes a value without extending its lifetime.
pub struct WeakHandle {
    index: usize,
}

impl View for WeakHandle {
    type V = int;

    closed spec fn view(&self) -> int {
        self.index as int
    }
}

/// Token witnessing one granted shared borrow of a block's value.
pub struct SharedGuard {
    index: usize,
}

impl View for SharedGuard {
    type V = int;

    closed spec fn view(&self) -> int {
        self.index as int
    }
}

/// Token witnessing the granted exclusive borrow of a block's value.
pub struct ExclusiveGuard {
    index: usize,
}

impl View for ExclusiveGuard {
    type V = int;

    closed spec fn view(&self) -> int {
        self.index as int
    }
}

/// The pool that owns the control blocks. Handles are indices into it;
/// a block's slot is never reused, so an index names the same logical
/// value for the pool's whole lifetime.
pub struct HandlePool<T> {
    blocks: Vec<ControlBlock<T>>,
}

/// A strong handle with view `i` is usable on `blocks`: it names an
/// existing block whose strong counter still accounts for it.
pub open spec fn valid_strong<T>(blocks: Seq<BlockModel<T>>, i: int) -> bool {
    0 <= i < blocks.len() && blocks[i].strong >= 1
}

/// A weak handle with view `i` is usable on `blocks`: it names an
/// existing block whose weak counter still accounts for it.
pub open spec fn valid_weak<T>(blocks: Seq<BlockModel<T>>, i: int) -> bool {
    0 <= i < blocks.len() && blocks[i].weak >= 1
}

/// The block of a freshly allocated value: one strong owner, no weak
/// observers, nothing borrowed.
pub open spec fn fresh_block<T>(value: T) -> BlockModel<T> {
    BlockModel { value: Some(value), strong: 1, weak: 0, borrow: BorrowModel::Unshared }
}

/// Effect of cloning a strong handle on its block.
pub open spec fn cloned_strong<T>(b: BlockModel<T>) -> BlockModel<T> {
    BlockModel { value: b.value, strong: b.strong + 1, weak: b.weak, borrow: b.borrow }
}

/// Effect of downgrading a strong handle, or cloning a weak one,
/// on the block.
pub open spec fn added_weak<T>(b: BlockModel<T>) -> BlockModel<T> {
    BlockModel { value: b.value, strong: b.strong, weak: b.weak + 1, borrow: b.borrow }
}

/// Effect of dropping a strong handle: the counter goes down by one, and
/// at zero the value is torn down in the same step.
pub open spec fn dropped_strong<T>(b: BlockModel<T>) -> BlockModel<T> {
    if b.strong <= 1 {
        BlockModel { value: None, strong: 0, weak: b.weak, borrow: b.borrow }
    } else {
        BlockModel {
            value: b.value,
            strong: (b.strong - 1) as nat,
            weak: b.weak,
            borrow: b.borrow,
        }
    }
}

/// Effect of dropping a weak handle.
pub open spec fn dropped_weak<T>(b: BlockModel<T>) -> BlockModel<T> {
    BlockModel { value: b.value, strong: b.strong, weak: (b.weak - 1) as nat, borrow: b.borrow }
}

/// Effect of an upgrade attempt through a weak handle: a new strong owner
/// appears exactly when the value is still alive; a dead block is left
/// untouched, never resurrected.
pub open spec fn upgraded<T>(b: BlockModel<T>) -> BlockModel<T> {
    if b.strong >= 1 {
        cloned_strong(b)
    } else {
        b
    }
}

/// The same block with its borrow cell replaced.
pub open spec fn with_borrow<T>(b: BlockModel<T>, m: BorrowModel) -> BlockModel<T> {
    BlockModel { value: b.value, strong: b.strong, weak: b.weak, borrow: m }
}

/// Well-formedness of one block: the value is present exactly while
/// strong owners exist, the reader count is sound, and a torn-down value
/// is not borrowed.
pub open spec fn block_wf<T>(b: BlockModel<T>) -> bool {
    &&& b.value is Some <==> b.strong >= 1
    &&& borrow_wf(b.borrow)
    &&& b.value is None ==> b.borrow is Unshared
}

/// An update of one well-formed block keeps a pool of well-formed blocks
/// well-formed.
proof fn lemma_wf_after_update<T>(pre: Seq<BlockModel<T>>, post: Seq<BlockModel<T>>, i: int)
    requires
        0 <= i < pre.len(),
        post =~= pre.update(i, post[i]),
        forall|j: int| 0 <= j < pre.len() ==> block_wf(#[trigger] pre[j]),
        block_wf(post[i]),
    ensures
        forall|j: int| 0 <= j < post.len() ==> block_wf(#[trigger] post[j]),
{
    assert forall|j: int| 0 <= j < post.len() implies block_wf(#[trigger] post[j]) by {
        if j != i {
            assert(post[j] == pre[j]);
        }
    }
}

impl<T> View for HandlePool<T> {
    type V = Seq<BlockModel<T>>;

    closed spec fn view(&self) -> Seq<BlockModel<T>> {
        Seq::new(self.blocks@.len(), |i: int| self.blocks@[i]@)
    }
}

impl<T> HandlePool<T> {
    /// Every block of the pool is well-formed. Established by `new` and
    /// preserved by every operation.
    pub open spec fn wf(&self) -> bool {
        forall|i: int| 0 <= i < self@.len() ==> block_wf(#[trigger] self@[i])
    }

    /// An empty pool with no blocks.
    pub fn new() -> (pool: HandlePool<T>)
        ensures
            pool@ =~= Seq::<BlockModel<T>>::empty(),
            pool.wf(),
    {
        HandlePool { blocks: Vec::new() }
    }

    /// Allocate a fresh control block for `value` and hand back its first
    /// strong handle: the new block starts with one strong owner, no weak
    /// observers and nothing borrowed.
    pub fn allocate(&mut self, value: T) -> (h: StrongHandle)
        requires
            old(self).wf(),
        ensures
            final(self)@ =~= old(self)@.push(fresh_block(value)),
            h@ == old(self)@.len(),
            valid_strong(final(self)@, h@),
            final(self).wf(),
    {
        let index = self.blocks.len();
        self.blocks.push(
            ControlBlock { value: Some(value), strong: 1, weak: 0, borrow: BorrowState::new() },
        );
        proof {
            assert forall|j: int| 0 <= j < self@.len() implies block_wf(#[trigger] self@[j]) by {
                if j < old(self)@.len() {
                    assert(self@[j] == old(self)@[j]);
                }
            }
        }
        StrongHandle { index }
    }

    /// How many strong owners the handle's block currently has.
    pub fn strong_count(&self, h: &StrongHandle) -> (n: usize)
        requires
            0 <= h@ < self@.len(),
        ensures
            n == self@[h@].strong,
    {
        self.blocks[h.index].strong
    }

    /// How many weak observers the handle's block currently has.
    pub fn weak_count(&self, h: &StrongHandle) -> (n: usize)
        requires
            0 <= h@ < self@.len(),
        ensures
            n == self@[h@].weak,
    {
        self.blocks[h.index].weak
    }

    /// Strong-owner count as seen through a weak handle; used to observe a
    /// block that no strong handle reaches any more.
    pub fn observed_strong_count(&self, w: &WeakHandle) -> (n: usize)
        requires
            0 <= w@ < self@.len(),
        ensures
            n == self@[w@].strong,
    {
        self.blocks[w.index].strong
    }

    /// Whether a strong handle is still usable on this pool.
    pub fn is_strong(&self, h: &StrongHandle) -> (r: bool)
        ensures
            r == valid_strong(self@, h@),
    {
        h.index < self.blocks.len() && self.blocks[h.index].strong >= 1
    }

    /// Whether the block named by a strong handle has its borrow cell in
    /// the exclusive state.
    pub fn is_locked_at(&self, h: &StrongHandle) -> (r: bool)
        requires
            0 <= h@ < self@.len(),
        ensures
            r == (self@[h@].borrow is Exclusive),
    {
        match &self.blocks[h.index].borrow {
            BorrowState::Exclusive => true,
            _ => false,
        }
    }

    /// Whether a weak handle is still usable on this pool.
    pub fn is_weak(&self, w: &WeakHandle) -> (r: bool)
        ensures
            r == valid_weak(self@, w@),
    {
        w.index < self.blocks.len() && self.blocks[w.index].weak >= 1
    }

    /// Clone a strong handle: one more strong owner of the same block,
    /// nothing else changes. Never fails.
    pub fn clone_strong(&mut self, h: &StrongHandle) -> (h2: StrongHandle)
        requires
            old(self).wf(),
            valid_strong(old(self)@, h@),
            old(self)@[h@].strong < usize::MAX,
        ensures
            final(self)@ =~= old(self)@.update(h@, cloned_strong(old(self)@[h@])),
            h2@ == h@,
            final(self).wf(),
    {
        let b = &mut self.blocks[h.index];
        b.strong = b.strong + 1;
        proof {
            lemma_wf_after_update(old(self)@, self@, h@);
        }
        StrongHandle { index: h.index }
    }

    /// Downgrade a strong handle: a weak observer of the same block
    /// appears; the strong counter is not affected.
    pub fn downgrade(&mut self, h: &StrongHandle) -> (w: WeakHandle)
        requires
            old(self).wf(),
            valid_strong(old(self)@, h@),
            old(self)@[h@].weak < usize::MAX,
        ensures
            final(self)@ =~= old(self)@.update(h@, added_weak(old(self)@[h@])),
            w@ == h@,
            final(self).wf(),
    {
        let b = &mut self.blocks[h.index];
        b.weak = b.weak + 1;
        proof {
            lemma_wf_after_update(old(self)@, self@, h@);
        }
        WeakHandle { index: h.index }
    }

    /// Clone a weak handle: one more weak observer, nothing else changes.
    pub fn clone_weak(&mut self, w: &WeakHandle) -> (w2: WeakHandle)
        requires
            old(self).wf(),
            valid_weak(old(self)@, w@),
            old(self)@[w@].weak < usize::MAX,
        ensures
            final(self)@ =~= old(self)@.update(w@, added_weak(old(self)@[w@])),
            w2@ == w@,
            final(self).wf(),
    {
        let b = &mut self.blocks[w.index];
        b.weak = b.weak + 1;
        proof {
            lemma_wf_after_update(old(self)@, self@, w@);
        }
        WeakHandle { index: w.index }
    }

    /// Drop a strong handle. The strong counter goes down by one; if it
    /// reaches zero this very call tears the value down and hands it back,
    /// no matter how many weak observers remain. Otherwise the value stays
    /// in place and `None` is returned.
    pub fn release_strong(&mut self, h: StrongHandle) -> (torn: Option<T>)
        requires
            old(self).wf(),
            valid_strong(old(self)@, h@),
            old(self)@[h@].strong == 1 ==> old(self)@[h@].borrow is Unshared,
        ensures
            final(self)@ =~= old(self)@.update(h@, dropped_strong(old(self)@[h@])),
            torn == if old(self)@[h@].strong == 1 {
                old(self)@[h@].value
            } else {
                None::<T>
            },
            final(self).wf(),
    {
        let b = &mut self.blocks[h.index];
        let torn = if b.strong == 1 {
            b.strong = 0;
            b.value.take()
        } else {
            b.strong = b.strong - 1;
            None
        };
        proof {
            lemma_wf_after_update(old(self)@, self@, h@);
        }
        torn
    }

    /// Drop a weak handle: the weak counter goes down by one. The stored
    /// value and the strong counter are untouched.
    pub fn release_weak(&mut self, w: WeakHandle)
        requires
            old(self).wf(),
            valid_weak(old(self)@, w@),
        ensures
            final(self)@ =~= old(self)@.update(w@, dropped_weak(old(self)@[w@])),
            final(self).wf(),
    {
        let b = &mut self.blocks[w.index];
        b.weak = b.weak - 1;
        proof {
            lemma_wf_after_update(old(self)@, self@, w@);
        }
    }

    /// Attempt to upgrade a weak handle into a strong one. Succeeds, by
    /// incrementing the strong counter in the same step as the check, if
    /// and only if the block still has at least one strong owner; once the
    /// value has been torn down the attempt returns `None` and the block
    /// is left exactly as it was.
    pub fn upgrade(&mut self, w: &WeakHandle) -> (r: Option<StrongHandle>)
        requires
            old(self).wf(),
            valid_weak(old(self)@, w@),
            old(self)@[w@].strong < usize::MAX,
        ensures
            r is Some <==> old(self)@[w@].strong >= 1,
            r is Some ==> r->0@ == w@,
            final(self)@ =~= old(self)@.update(w@, upgraded(old(self)@[w@])),
            final(self).wf(),
    {
        let b = &mut self.blocks[w.index];
        let r = if b.strong >= 1 {
            b.strong = b.strong + 1;
            Some(StrongHandle { index: w.index })
        } else {
            None
        };
        proof {
            lemma_wf_after_update(old(self)@, self@, w@);
        }
        r
    }

    /// Read the stored value through a strong handle. A strong owner
    /// guarantees the value is alive.
    pub fn get(&self, h: &StrongHandle) -> (r: &T)
        requires
            self.wf(),
            valid_strong(self@, h@),
        ensures
            self@[h@].value == Some(*r),
    {
        match &self.blocks[h.index].value {
            Some(v) => v,
            None => vstd::pervasive::unreached(),
        }
    }

    /// Request a shared borrow of the value behind a strong handle.
    /// Granted, handing out a guard, whenever no exclusive borrow is
    /// outstanding; refused with `BorrowConflict`, changing nothing,
    /// while one is.
    pub fn borrow_shared(&mut self, h: &StrongHandle) -> (r: Result<SharedGuard, BorrowConflict>)
        requires
            old(self).wf(),
            valid_strong(old(self)@, h@),
            old(self)@[h@].borrow is SharedBy ==> old(self)@[h@].borrow->readers < usize::MAX,
        ensures
            r is Ok <==> shared_allowed(old(self)@[h@].borrow),
            r is Ok ==> final(self)@ =~= old(self)@.update(
                h@,
                with_borrow(old(self)@[h@], after_shared(old(self)@[h@].borrow)),
            ),
            r is Ok ==> r->Ok_0@ == h@,
            r is Err ==> final(self)@ =~= old(self)@,
            final(self).wf(),
    {
        let b = &mut self.blocks[h.index];
        let r = b.borrow.try_shared();
        proof {
            lemma_wf_after_update(old(self)@, self@, h@);
        }
        match r {
            Ok(()) => Ok(SharedGuard { index: h.index }),
            Err(e) => Err(e),
        }
    }

    /// Request the exclusive borrow of the value behind a strong handle.
    /// Granted, handing out a guard, exactly when nothing is borrowed;
    /// refused with `BorrowConflict`, changing nothing, otherwise.
    pub fn borrow_exclusive(&mut self, h: &StrongHandle) -> (r: Result<
        ExclusiveGuard,
        BorrowConflict,
    >)
        requires
            old(self).wf(),
            valid_strong(old(self)@, h@),
        ensures
            r is Ok <==> exclusive_allowed(old(self)@[h@].borrow),
            r is Ok ==> final(self)@ =~= old(self)@.update(
                h@,
                with_borrow(old(self)@[h@], BorrowModel::Exclusive),
            ),
            r is Ok ==> r->Ok_0@ == h@,
            r is Err ==> final(self)@ =~= old(self)@,
            final(self).wf(),
    {
        let b = &mut self.blocks[h.index];
        let r = b.borrow.try_exclusive();
        proof {
            lemma_wf_after_update(old(self)@, self@, h@);
        }
        match r {
            Ok(()) => Ok(ExclusiveGuard { index: h.index }),
            Err(e) => Err(e),
        }
    }

    /// Read the stored value under a shared borrow.
    pub fn read(&self, g: &SharedGuard) -> (r: &T)
        requires
            self.wf(),
            0 <= g@ < self@.len(),
            self@[g@].borrow is SharedBy,
        ensures
            self@[g@].value == Some(*r),
    {
        match &self.blocks[g.index].value {
            Some(v) => v,
            None => vstd::pervasive::unreached(),
        }
    }

    /// Read the stored value under the exclusive borrow.
    pub fn get_locked(&self, g: &ExclusiveGuard) -> (r: &T)
        requires
            self.wf(),
            0 <= g@ < self@.len(),
            self@[g@].borrow is Exclusive,
        ensures
            self@[g@].value == Some(*r),
    {
        match &self.blocks[g.index].value {
            Some(v) => v,
            None => vstd::pervasive::unreached(),
        }
    }

    /// Replace the stored value under the exclusive borrow, handing the
    /// previous value back.
    pub fn replace(&mut self, g: &ExclusiveGuard, value: T) -> (prev: T)
        requires
            old(self).wf(),
            0 <= g@ < old(self)@.len(),
            old(self)@[g@].borrow is Exclusive,
        ensures
            old(self)@[g@].value == Some(prev),
            final(self)@ =~= old(self)@.update(
                g@,
                BlockModel {
                    value: Some(value),
                    strong: old(self)@[g@].strong,
                    weak: old(self)@[g@].weak,
                    borrow: old(self)@[g@].borrow,
                },
            ),
            final(self).wf(),
    {
        let b = &mut self.blocks[g.index];
        let prev = b.value.take();
        b.value = Some(value);
        proof {
            lemma_wf_after_update(old(self)@, self@, g@);
        }
        match prev {
            Some(p) => p,
            None => vstd::pervasive::unreached(),
        }
    }

    /// Give back a shared borrow; at zero outstanding readers the block's
    /// cell returns to `Unshared`.
    pub fn release_shared(&mut self, g: SharedGuard)
        requires
            old(self).wf(),
            0 <= g@ < old(self)@.len(),
            old(self)@[g@].borrow is SharedBy,
        ensures
            final(self)@ =~= old(self)@.update(
                g@,
                with_borrow(old(self)@[g@], after_release_shared(old(self)@[g@].borrow)),
            ),
            final(self).wf(),
    {
        let b = &mut self.blocks[g.index];
        b.borrow.release_shared();
        proof {
            lemma_wf_after_update(old(self)@, self@, g@);
        }
    }

    /// Give back the exclusive borrow; the block's cell returns to
    /// `Unshared`.
    pub fn release_exclusive(&mut self, g: ExclusiveGuard)
        requires
            old(self).wf(),
            0 <= g@ < old(self)@.len(),
            old(self)@[g@].borrow is Exclusive,
        ensures
            final(self)@ =~= old(self)@.update(
                g@,
                with_borrow(old(self)@[g@], BorrowModel::Unshared),
            ),
            final(self).wf(),
    {
        let b = &mut self.blocks[g.index];
        b.borrow.release_exclusive();
        proof {
            lemma_wf_after_update(old(self)@, self@, g@);
        }
    }
}

} // verus!
