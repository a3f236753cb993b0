//! Run-time borrow discipline: many shared observers XOR one exclusive
//! observer of a single value, checked at run time rather than compile time.
//!
//! [`BorrowState`] is the state cell itself; the transition rules are:
//! a shared borrow is granted from `Unshared` or from `SharedBy`, never
//! while an exclusive borrow is outstanding; an exclusive borrow is granted
//! only from `Unshared`. Releases walk the same edges backwards.

use vstd::prelude::*;

verus! {

/// Error returned when a requested borrow would violate the
/// single-writer / multiple-reader discipline. Always recoverable:
/// the state cell is left unchanged.
#[derive(Debug, Clone, Copy, PartialEq, Eq, Structural)]
pub struct BorrowConflict;

/// Mathematical model of a borrow-state cell.
pub ghost enum BorrowModel {
    /// No borrow is outstanding.
    Unshared,
    /// `readers` shared borrows are outstanding (`readers >= 1`).
    SharedBy { readers: nat },
    /// One exclusive borrow is outstanding.
    Exclusive,
}

/// The borrow-state cell: tracks how a value is currently observed.
pub enum BorrowState {
    /// No borrow is outstanding.
    Unshared,
    /// `readers` shared borrows are outstanding (`readers >= 1`).
    SharedBy { readers: usize },
    /// One exclusive borrow is outstanding.
    Exclusive,
}

impl View for BorrowState {
    type V = BorrowModel;

    open spec fn view(&self) -> BorrowModel {
        match self {
            BorrowState::Unshared => BorrowModel::Unshared,
            BorrowState::SharedBy { readers } => BorrowModel::SharedBy {
                readers: *readers as nat,
            },
            BorrowState::Exclusive => BorrowModel::Exclusive,
        }
    }
}

/// A `SharedBy` state always records at least one reader.
pub open spec fn borrow_wf(m: BorrowModel) -> bool {
    m is SharedBy ==> m->readers >= 1
}

/// A shared borrow is granted whenever no exclusive borrow is outstanding.
pub open spec fn shared_allowed(m: BorrowModel) -> bool {
    !(m is Exclusive)
}

/// An exclusive borrow is granted only when nothing is borrowed at all.
pub open spec fn exclusive_allowed(m: BorrowModel) -> bool {
    m is Unshared
}

/// State after granting one more shared borrow.
pub open spec fn after_shared(m: BorrowModel) -> BorrowModel {
    match m {
        BorrowModel::Unshared => BorrowModel::SharedBy { readers: 1 },
        BorrowModel::SharedBy { readers } => BorrowModel::SharedBy { readers: readers + 1 },
        BorrowModel::Exclusive => m,
    }
}

/// State after releasing one shared borrow.
pub open spec fn after_release_shared(m: BorrowModel) -> BorrowModel {
    match m {
        BorrowModel::SharedBy { readers } => if readers <= 1 {
            BorrowModel::Unshared
        } else {
            BorrowModel::SharedBy { readers: (readers - 1) as nat }
        },
        _ => m,
    }
}

/// The borrow discipline in one statement: shared borrows are compatible
/// with each other (a second shared request still succeeds while one is
/// outstanding), an exclusive request is refused as long as any shared
/// guard is alive, and becomes grantable the moment the last shared guard
/// is released.
pub proof fn lemma_borrow_discipline(m: BorrowModel)
    requires
        borrow_wf(m),
    ensures
        shared_allowed(m) ==> shared_allowed(after_shared(m)),
        m is SharedBy ==> !exclusive_allowed(m),
        (m matches BorrowModel::SharedBy { readers } && readers == 1) ==> exclusive_allowed(
            after_release_shared(m),
        ),
        exclusive_allowed(BorrowModel::Unshared),
{
}

impl BorrowState {
    /// A fresh cell with nothing borrowed.
    pub fn new() -> (s: BorrowState)
        ensures
            s@ == BorrowModel::Unshared,
    {
        BorrowState::Unshared
    }

    /// Request one more shared borrow. Granted from `Unshared` and from
    /// `SharedBy`; refused, leaving the cell unchanged, while an exclusive
    /// borrow is outstanding.
    pub fn try_shared(&mut self) -> (r: Result<(), BorrowConflict>)
        requires
            old(self)@ is SharedBy ==> old(self)@->readers < usize::MAX,
        ensures
            r is Ok <==> shared_allowed(old(self)@),
            r is Ok ==> final(self)@ == after_shared(old(self)@),
            r is Err ==> *final(self) == *old(self),
    {
        match self {
            BorrowState::Unshared => {
                *self = BorrowState::SharedBy { readers: 1 };
                Ok(())
            },
            BorrowState::SharedBy { readers } => {
                *readers = *readers + 1;
                Ok(())
            },
            BorrowState::Exclusive => Err(BorrowConflict),
        }
    }

    /// Request the exclusive borrow. Granted only from `Unshared`;
    /// refused, leaving the cell unchanged, in every other state.
    pub fn try_exclusive(&mut self) -> (r: Result<(), BorrowConflict>)
        ensures
            r is Ok <==> exclusive_allowed(old(self)@),
            r is Ok ==> final(self)@ == BorrowModel::Exclusive,
            r is Err ==> *final(self) == *old(self),
    {
        match self {
            BorrowState::Unshared => {
                *self = BorrowState::Exclusive;
                Ok(())
            },
            _ => Err(BorrowConflict),
        }
    }

    /// Give back one shared borrow; at zero readers the cell returns
    /// to `Unshared`.
    pub fn release_shared(&mut self)
        requires
            old(self)@ is SharedBy,
            borrow_wf(old(self)@),
        ensures
            final(self)@ == after_release_shared(old(self)@),
    {
        match self {
            BorrowState::SharedBy { readers } => {
                if *readers <= 1 {
                    *self = BorrowState::Unshared;
                } else {
                    *readers = *readers - 1;
                }
            },
            _ => {},
        }
    }

    /// Give back the exclusive borrow; the cell returns to `Unshared`.
    pub fn release_exclusive(&mut self)
        requires
            old(self)@ is Exclusive,
        ensures
            final(self)@ == BorrowModel::Unshared,
    {
        *self = BorrowState::Unshared;
    }
}

} // verus!
