//! A cons list whose link field can be repointed after construction: the
//! smallest shape on which a strong-reference cycle can be built.
//!
//! Each cell lives in a [`HandlePool`] and a `Cons` owns its successor
//! through a strong handle. Repointing the head of a list at its own tail
//! closes a cycle of strong edges; the counters then never return to zero
//! and the cells are never torn down. That leak is the documented cost of
//! pure reference counting — breaking it is the caller's business, by
//! keeping one direction of every cycle weak.

use vstd::prelude::*;

use crate::pool::{valid_strong, HandlePool, StrongHandle};

verus! {

/// One cell of the list: a number and an owned link to the rest, or the
/// end of the list.
pub enum List {
    /// A value, and a strong edge to the rest of the list.
    Cons { value: i64, next: StrongHandle },
    /// The end of the list.
    Nil,
}

impl List {
    /// The link to the rest of the list, when the cell has one.
    pub fn tail(&self) -> (r: Option<&StrongHandle>)
        ensures
            r is Some <==> self is Cons,
            r matches Some(t) ==> *t == self->next,
    {
        match self {
            List::Cons { value: _, next } => Some(next),
            List::Nil => None,
        }
    }
}

/// Repoint the link of the `Cons` cell behind `cell` at `next`, handing
/// back the handle the cell owned before so the caller can release it.
/// The mutation runs under the cell's exclusive borrow, taken and given
/// back inside the call.
pub fn set_next(pool: &mut HandlePool<List>, cell: &StrongHandle, next: StrongHandle) -> (prev:
    StrongHandle)
    requires
        old(pool).wf(),
        valid_strong(old(pool)@, cell@),
        old(pool)@[cell@].borrow is Unshared,
        old(pool)@[cell@].value matches Some(l) && l is Cons,
    ensures
        final(pool)@.len() == old(pool)@.len(),
        final(pool)@[cell@].value matches Some(after) && old(pool)@[cell@].value matches Some(
            before,
        ) && after is Cons && after->value == before->value && after->next == next && prev
            == before->next,
        final(pool)@[cell@].strong == old(pool)@[cell@].strong,
        final(pool)@[cell@].weak == old(pool)@[cell@].weak,
        final(pool)@[cell@].borrow == old(pool)@[cell@].borrow,
        forall|i: int| 0 <= i < old(pool)@.len() && i != cell@ ==> final(pool)@[i] == old(pool)@[i],
        final(pool).wf(),
{
    let guard = match pool.borrow_exclusive(cell) {
        Ok(g) => g,
        Err(_) => vstd::pervasive::unreached(),
    };
    let node = pool.replace(&guard, List::Nil);
    let (value, prev) = match node {
        List::Cons { value, next } => (value, next),
        List::Nil => vstd::pervasive::unreached(),
    };
    let _ = pool.replace(&guard, List::Cons { value, next });
    pool.release_exclusive(guard);
    prev
}

} // verus!
