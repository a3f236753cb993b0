//! The borrow tracker: one value wrapped together with a borrow-state
//! cell, arbitrating shared versus exclusive access at run time.
//!
//! `borrow` and `borrow_mut` hand out guard tokens; each guard must be
//! given back through the matching release operation, on every exit path.
//! The tracker is for single-threaded use only; sharing a value across
//! threads takes the atomic handle family with its value lock instead,
//! and never both mechanisms on one value.

use vstd::prelude::*;

use crate::borrow::{
    after_release_shared, after_shared, borrow_wf, exclusive_allowed, shared_allowed,
    BorrowConflict, BorrowModel, BorrowState,
};

verus! {

/// Token witnessing one granted shared borrow of a tracker's value.
pub struct TrackerSharedGuard {
    granted: bool,
}

/// Token witnessing the granted exclusive borrow of a tracker's value.
pub struct TrackerExclusiveGuard {
    granted: bool,
}

/// A value guarded by a run-time borrow discipline: many shared readers
/// XOR one exclusive writer, checked when access is requested rather than
/// at compile time.
pub struct BorrowTracker<T> {
    value: T,
    state: BorrowState,
}

impl<T> BorrowTracker<T> {
    /// The stored value.
    pub closed spec fn value(&self) -> T {
        self.value
    }

    /// The current borrow state of the stored value.
    pub closed spec fn state(&self) -> BorrowModel {
        self.state@
    }

    /// The reader count, when positive, is sound.
    pub open spec fn wf(&self) -> bool {
        borrow_wf(self.state())
    }

    /// Wrap a value; nothing is borrowed at first.
    pub fn new(value: T) -> (t: BorrowTracker<T>)
        ensures
            t.value() == value,
            t.state() == BorrowModel::Unshared,
            t.wf(),
    {
        BorrowTracker { value, state: BorrowState::new() }
    }

    /// Request a shared borrow. Granted — handing out a guard — whenever
    /// no exclusive borrow is outstanding; refused with `BorrowConflict`,
    /// changing nothing, while one is.
    pub fn borrow(&mut self) -> (r: Result<TrackerSharedGuard, BorrowConflict>)
        requires
            old(self).wf(),
            old(self).state() is SharedBy ==> old(self).state()->readers < usize::MAX,
        ensures
            r is Ok <==> shared_allowed(old(self).state()),
            r is Ok ==> final(self).state() == after_shared(old(self).state()),
            r is Err ==> final(self).state() == old(self).state(),
            final(self).value() == old(self).value(),
            final(self).wf(),
    {
        match self.state.try_shared() {
            Ok(()) => Ok(TrackerSharedGuard { granted: true }),
            Err(e) => Err(e),
        }
    }

    /// Request the exclusive borrow. Granted — handing out a guard —
    /// exactly when nothing is borrowed; refused with `BorrowConflict`,
    /// changing nothing, otherwise.
    pub fn borrow_mut(&mut self) -> (r: Result<TrackerExclusiveGuard, BorrowConflict>)
        requires
            old(self).wf(),
        ensures
            r is Ok <==> exclusive_allowed(old(self).state()),
            r is Ok ==> final(self).state() == BorrowModel::Exclusive,
            r is Err ==> final(self).state() == old(self).state(),
            final(self).value() == old(self).value(),
            final(self).wf(),
    {
        match self.state.try_exclusive() {
            Ok(()) => Ok(TrackerExclusiveGuard { granted: true }),
            Err(e) => Err(e),
        }
    }

    /// Read the value under a shared borrow.
    pub fn read(&self, guard: &TrackerSharedGuard) -> (r: &T)
        requires
            self.state() is SharedBy,
        ensures
            *r == self.value(),
    {
        let _ = guard;
        &self.value
    }

    /// Replace the value under the exclusive borrow, handing the previous
    /// value back.
    pub fn replace(&mut self, guard: &TrackerExclusiveGuard, value: T) -> (prev: T)
        requires
            old(self).state() is Exclusive,
        ensures
            prev == old(self).value(),
            final(self).value() == value,
            final(self).state() == old(self).state(),
            final(self).wf() == old(self).wf(),
    {
        let _ = guard;
        let mut value = value;
        core::mem::swap(&mut self.value, &mut value);
        value
    }

    /// Give back a shared borrow; at zero outstanding readers the value
    /// returns to `Unshared`.
    pub fn release(&mut self, guard: TrackerSharedGuard)
        requires
            old(self).wf(),
            old(self).state() is SharedBy,
        ensures
            final(self).state() == after_release_shared(old(self).state()),
            final(self).value() == old(self).value(),
            final(self).wf(),
    {
        let _ = guard;
        self.state.release_shared();
    }

    /// Give back the exclusive borrow; the value returns to `Unshared`.
    pub fn release_mut(&mut self, guard: TrackerExclusiveGuard)
        requires
            old(self).state() is Exclusive,
        ensures
            final(self).state() == BorrowModel::Unshared,
            final(self).value() == old(self).value(),
            final(self).wf(),
    {
        let _ = guard;
        self.state.release_exclusive();
    }

    /// Unwrap the tracker, recovering the stored value. Consuming the
    /// tracker ends every borrow, so no borrow state survives it.
    pub fn into_inner(self) -> (r: T)
        ensures
            r == self.value(),
    {
        self.value
    }
}

} // verus!
