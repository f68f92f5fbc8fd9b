//! Small string helpers: greeting a caller and slicing off the first word.

use vstd::prelude::*;
use vstd::string::StrSliceExecFns;
use vstd::string::StringExecFns;

verus! {

/// A greeting for the given name.
pub fn greeting(name: &str) -> (r: String)
    ensures
        r@ == "Hello "@ + name@ + "!"@,
{
    let mut r = "Hello ".to_owned();
    r.append(name);
    r.append("!");
    proof {
        assert(r@ =~= "Hello "@ + name@ + "!"@);
    }
    r
}

/// The length of the first word of `s`: the index of the first space, or the
/// whole length when `s` has no space.
pub fn first_word(s: &String) -> (i: usize)
    ensures
        i <= s@.len(),
        forall|k: int| 0 <= k < i ==> s@[k] != ' ',
        i < s@.len() ==> s@[i as int] == ' ',
{
    let t = s.as_str();
    let n = t.unicode_len();
    let mut i: usize = 0;
    while i < n
        invariant
            t@ == s@,
            n == s@.len(),
            i <= n,
            forall|k: int| 0 <= k < i ==> s@[k] != ' ',
        decreases n - i,
    {
        if t.get_char(i) == ' ' {
            return i;
        }
        i = i + 1;
    }
    i
}

/// The first word of `s` itself: everything up to, and not including, the
/// first space.
pub fn get_first_word(s: &String) -> (w: &str)
    ensures
        w@.len() <= s@.len(),
        w@ == s@.subrange(0, w@.len() as int),
        forall|k: int| 0 <= k < w@.len() ==> s@[k] != ' ',
        w@.len() < s@.len() ==> s@[w@.len() as int] == ' ',
{
    let i = first_word(s);
    s.as_str().substring_char(0, i)
}

/// The first word of a string slice, for callers holding a `&str`.
pub fn first_word_improvement(s: &str) -> (w: &str)
    ensures
        w@.len() <= s@.len(),
        w@ == s@.subrange(0, w@.len() as int),
        forall|k: int| 0 <= k < w@.len() ==> s@[k] != ' ',
        w@.len() < s@.len() ==> s@[w@.len() as int] == ' ',
{
    let n = s.unicode_len();
    let mut i: usize = 0;
    while i < n
        invariant
            n == s@.len(),
            i <= n,
            forall|k: int| 0 <= k < i ==> s@[k] != ' ',
        decreases n - i,
    {
        if s.get_char(i) == ' ' {
            return s.substring_char(0, i);
        }
        i = i + 1;
    }
    s.substring_char(0, i)
}

/// The length of a string, in characters.
pub fn caculate_length(s: &String) -> (n: usize)
    ensures
        n == s@.len(),
{
    s.as_str().unicode_len()
}

/// Hands the string back together with its length, for callers that gave up
/// ownership to ask.
pub fn calculate_length(s: String) -> (r: (String, usize))
    ensures
        r.0@ == s@,
        r.1 == s@.len(),
{
    let n = s.as_str().unicode_len();
    (s, n)
}

} // verus!
