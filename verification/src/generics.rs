//! Generic points and the largest element of a list of numbers.

use vstd::prelude::*;

verus! {

/// A point whose two coordinates may have different types.
pub struct Point<T, U> {
    /// The first coordinate.
    pub x: T,
    /// The second coordinate.
    pub y: U,
}

impl<T, U> Point<T, U> {
    /// The first coordinate.
    pub fn x(&self) -> (r: &T)
        ensures
            *r == self.x,
    {
        &self.x
    }

    /// The second coordinate.
    pub fn y(&self) -> (r: &U)
        ensures
            *r == self.y,
    {
        &self.y
    }

    /// A point taking its first coordinate from `self` and its second
    /// from `other`.
    pub fn mixup<X2, Y2>(self, other: Point<X2, Y2>) -> (r: Point<T, Y2>)
        ensures
            r.x == self.x,
            r.y == other.y,
    {
        Point { x: self.x, y: other.y }
    }
}

/// The largest number in the list: it occurs there, and nothing in the
/// list exceeds it.
pub fn largest(list: &[i32]) -> (max: i32)
    requires
        list@.len() >= 1,
    ensures
        list@.contains(max),
        forall|i: int| 0 <= i < list@.len() ==> list@[i] <= max,
{
    let mut max = list[0];
    let mut i: usize = 1;
    while i < list.len()
        invariant
            1 <= i <= list@.len(),
            list@.contains(max),
            forall|j: int| 0 <= j < i ==> list@[j] <= max,
        decreases list@.len() - i,
    {
        if list[i] > max {
            max = list[i];
            proof {
                assert(list@.contains(max)) by {
                    assert(list@[i as int] == max);
                }
            }
        }
        i = i + 1;
    }
    max
}

} // verus!
