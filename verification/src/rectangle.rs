//! Rectangles: area, width test, containment, and squares.

use vstd::prelude::*;

verus! {

/// An axis-aligned rectangle, measured in whole units.
pub struct Rectangle {
    /// Horizontal extent.
    pub width: u32,
    /// Vertical extent.
    pub height: u32,
}

impl Rectangle {
    /// The rectangle's area.
    pub fn area(&self) -> (a: u32)
        requires
            self.width * self.height <= u32::MAX,
        ensures
            a == self.width * self.height,
    {
        self.width * self.height
    }

    /// Whether the rectangle has any width at all.
    pub fn width(&self) -> (r: bool)
        ensures
            r == (self.width > 0),
    {
        self.width > 0
    }

    /// Whether `other` fits strictly inside `self` in both dimensions.
    pub fn can_hold(&self, other: &Rectangle) -> (r: bool)
        ensures
            r == (self.width > other.width && self.height > other.height),
    {
        self.width > other.width && self.height > other.height
    }

    /// The square with the given side length.
    pub fn square(size: u32) -> (r: Rectangle)
        ensures
            r.width == size,
            r.height == size,
    {
        Rectangle { width: size, height: size }
    }
}

} // verus!
