//! A box of one's own: the smallest owning wrapper around a value.

use vstd::prelude::*;

verus! {

/// A wrapper that owns one value.
pub struct MyBox<T>(pub T);

impl<T> MyBox<T> {
    /// Wrap a value.
    pub fn new(x: T) -> (b: MyBox<T>)
        ensures
            b.0 == x,
    {
        MyBox(x)
    }

    /// A reference to the wrapped value.
    pub fn inner(&self) -> (r: &T)
        ensures
            *r == self.0,
    {
        &self.0
    }
}

} // verus!
