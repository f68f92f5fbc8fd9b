//! Passing a recoverable error up the call chain: one fallible function and
//! two callers that forward its error untouched.

use vstd::prelude::*;

verus! {

/// Accepts any non-negative number and rejects the rest.
pub fn f(i: i32) -> (r: Result<i32, bool>)
    ensures
        i >= 0 ==> r == Result::<i32, bool>::Ok(i),
        i < 0 ==> r == Result::<i32, bool>::Err(false),
{
    if i >= 0 {
        Ok(i)
    } else {
        Err(false)
    }
}

/// Forwards `f`'s answer, spelling the propagation out with a match.
pub fn g1(i: i32) -> (r: Result<i32, bool>)
    ensures
        i >= 0 ==> r == Result::<i32, bool>::Ok(i),
        i < 0 ==> r == Result::<i32, bool>::Err(false),
{
    let t = f(i);
    match t {
        Ok(v) => Ok(v),
        Err(b) => Err(b),
    }
}

/// Forwards `f`'s answer, the short way.
pub fn g(i: i32) -> (r: Result<i32, bool>)
    ensures
        i >= 0 ==> r == Result::<i32, bool>::Ok(i),
        i < 0 ==> r == Result::<i32, bool>::Err(false),
{
    let t = f(i)?;
    Ok(t)
}

} // verus!
