//! A point generic in both coordinates, and mixing two points into one.

use vstd::prelude::*;

verus! {

/// A point whose two coordinates may be of different types.
pub struct Point<T, U> {
    pub x: T,
    pub y: U,
}

impl<T, U> Point<T, U> {
    /// A borrow of the first coordinate.
    pub fn x(&self) -> (r: &T)
        ensures
            r == &self.x,
    {
        &self.x
    }

    /// A new point from this one's first coordinate and the other's second.
    pub fn mixup<V, W>(self, other: Point<V, W>) -> (r: Point<T, W>)
        ensures
            r.x == self.x,
            r.y == other.y,
    {
        Point { x: self.x, y: other.y }
    }
}

} // verus!
