//! A rectangle of whole-number sides, with the comparisons the examples and
//! tests exercise.

use vstd::prelude::*;

verus! {

#[derive(Clone, Copy, Debug, PartialEq, Eq, Structural)]
pub struct Rectangle {
    pub width: u32,
    pub height: u32,
}

impl Rectangle {
    /// Builds a rectangle from its two sides.
    pub fn create(width: u32, height: u32) -> (r: Rectangle)
        ensures
            r.width == width,
            r.height == height,
    {
        Rectangle { width, height }
    }

    /// Whether `other` fits strictly inside this rectangle, in both
    /// dimensions.
    pub fn can_hold(&self, other: &Rectangle) -> (b: bool)
        ensures
            b == (self.width > other.width && self.height > other.height),
    {
        self.width > other.width && self.height > other.height
    }

    /// The area, width times height.
    pub fn area(&self) -> (a: u32)
        requires
            self.width * self.height <= u32::MAX,
        ensures
            a == self.width * self.height,
    {
        self.width * self.height
    }

    /// Whether this rectangle is strictly wider than the other.
    pub fn wider(&self, rect: &Rectangle) -> (b: bool)
        ensures
            b == (self.width > rect.width),
    {
        self.width > rect.width
    }

    /// Grows the rectangle by one unit of height.
    pub fn add_height(&mut self)
        requires
            old(self).height < u32::MAX,
        ensures
            final(self).width == old(self).width,
            final(self).height == old(self).height + 1,
    {
        self.height = self.height + 1;
    }
}

} // verus!
