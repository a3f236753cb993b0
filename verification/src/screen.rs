//! A screen of drawable components, run by asking each one to draw itself.

use vstd::prelude::*;

verus! {

/// Behaviour of anything that can draw itself.
pub trait Draw {
    /// Render the component.
    fn draw(&self);
}

/// A screen holding components of one drawable kind.
pub struct Screen<T: Draw> {
    /// The components, drawn in order.
    pub components: Vec<T>,
}

impl<T: Draw> Screen<T> {
    /// Draw every component, first to last.
    pub fn run(&self) {
        let mut i: usize = 0;
        while i < self.components.len()
            invariant
                i <= self.components@.len(),
            decreases self.components@.len() - i,
        {
            self.components[i].draw();
            i = i + 1;
        }
    }
}

} // verus!
