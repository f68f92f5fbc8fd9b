//! Handing values around: functions that give ownership away, take it and
//! give it back, or borrow instead.

use vstd::prelude::*;
use vstd::string::StringExecFns;

verus! {

/// Makes a fresh greeting and hands it to the caller.
pub fn gives_ownership() -> (s: String)
    ensures
        s@ == "hello"@,
{
    "hello".to_owned()
}

/// Takes a string and returns the very same one.
pub fn takes_and_gives_back(a_string: String) -> (s: String)
    ensures
        s == a_string,
{
    a_string
}

/// Borrows the string without taking it, so the caller keeps it. A shared
/// borrow cannot change what it borrowed.
pub fn cannot_change(s: &String) -> (n: usize)
    ensures
        n == s@.len(),
{
    crate::words::caculate_length(s)
}

/// A mutable borrow may change what it borrowed: the world is appended.
pub fn can_change(s: &mut String)
    ensures
        final(s)@ == old(s)@ + ", world"@,
{
    s.append(", world");
}

/// Moves a few strings through the functions above and back again.
pub fn func_return() -> (s: String)
    ensures
        s@ == "hello"@,
{
    let s1 = gives_ownership();
    let s2 = takes_and_gives_back(s1);
    s2
}

} // verus!
