//! Borrowed strings handed back to the caller: the returned reference always
//! points into one of the inputs.

use vstd::prelude::*;
use vstd::string::StrSliceExecFns;

verus! {

/// The longer of two strings, measured in characters; ties go to the first.
pub fn longer<'a>(s1: &'a str, s2: &'a str) -> (r: &'a str)
    ensures
        r@ == (if s2@.len() > s1@.len() {
            s2@
        } else {
            s1@
        }),
{
    if s2.unicode_len() > s1.unicode_len() {
        s2
    } else {
        s1
    }
}

/// Always the first string; the second only tags along.
#[allow(unused_variables)]
pub fn longer_1<'a>(x: &'a str, y: &str) -> (r: &'a str)
    ensures
        r@ == x@,
{
    x
}

/// The string itself, returned with its own lifetime.
pub fn first(s: &str) -> (r: &str)
    ensures
        r@ == s@,
{
    s
}

/// An excerpt borrowed from some larger text.
pub struct ImportantExecpt<'a> {
    pub part: &'a str,
}

impl<'a> ImportantExecpt<'a> {
    /// The importance level of any excerpt.
    pub fn level(&self) -> (l: i32)
        ensures
            l == 3,
    {
        3
    }
}

} // verus!
