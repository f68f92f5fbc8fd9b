//! A screen of drawable components: one trait for the common behaviour, one
//! generic container that runs it over everything it holds.

use vstd::prelude::*;

verus! {

/// Anything that can draw itself.
pub trait Draw {
    fn draw(&self);
}

/// A screen holding components of one drawable kind.
pub struct Screen<T: Draw> {
    pub components: Vec<T>,
}

impl<T: Draw> Screen<T> {
    /// Draws every component, first to last.
    pub fn run(&self) {
        let n = self.components.len();
        let mut i: usize = 0;
        while i < n
            invariant
                i <= n,
                n == self.components@.len(),
            decreases n - i,
        {
            self.components[i].draw();
            i = i + 1;
        }
    }
}

/// A button, drawable by its size alone.
pub struct Button {
    pub width: i32,
    pub height: i32,
}

impl Draw for Button {
    fn draw(&self) {
    }
}

} // verus!
