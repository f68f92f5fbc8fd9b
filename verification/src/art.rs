//! A little colour-mixing library.

use vstd::prelude::*;

verus! {

/// The primary colours of the RYB colour model.
#[derive(Clone, Copy, Debug, PartialEq, Eq, Structural)]
pub enum PrimaryColor {
    Red,
    Yellow,
    Blue,
}

/// The secondary colours of the RYB colour model.
#[derive(Clone, Copy, Debug, PartialEq, Eq, Structural)]
pub enum SecondaryColor {
    Orange,
    Green,
    Purple,
}

/// Mixes equal amounts of two primary colours into a secondary colour. The
/// palette so far stops at orange, whatever the inputs.
#[allow(unused_variables)]
pub fn mix(c1: PrimaryColor, c2: PrimaryColor) -> (c: SecondaryColor)
    ensures
        c == SecondaryColor::Orange,
{
    SecondaryColor::Orange
}

} // verus!
