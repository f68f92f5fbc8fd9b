//! Small arithmetic helpers, and the Fibonacci numbers.

use vstd::prelude::*;

verus! {

/// Adds one to the given number.
pub fn add_one(x: i32) -> (r: i32)
    requires
        x < i32::MAX,
    ensures
        r == x + 1,
{
    x + 1
}

/// Adds two numbers.
pub fn internal_adder(a: i32, b: i32) -> (r: i32)
    requires
        i32::MIN <= a + b <= i32::MAX,
    ensures
        r == a + b,
{
    a + b
}

/// Adds two to the given number.
pub fn add_two(a: i32) -> (r: i32)
    requires
        a + 2 <= i32::MAX,
    ensures
        r == a + 2,
{
    internal_adder(a, 2)
}

/// Adds two numbers.
pub fn add(a: i32, b: i32) -> (r: i32)
    requires
        i32::MIN <= a + b <= i32::MAX,
    ensures
        r == a + b,
{
    a + b
}

/// The Fibonacci numbers, with the usual seeds zero and one. Arguments of
/// one or less are their own value, matching the executable function below.
pub open spec fn spec_fib(n: int) -> int
    decreases n,
{
    if n <= 1 {
        n
    } else {
        spec_fib(n - 2) + spec_fib(n - 1)
    }
}

/// Fibonacci numbers of non-negative index are non-negative.
pub proof fn lemma_fib_non_negative(n: int)
    requires
        0 <= n,
    ensures
        spec_fib(n) >= 0,
    decreases n,
{
    if n > 1 {
        lemma_fib_non_negative(n - 2);
        lemma_fib_non_negative(n - 1);
    }
}

/// The Fibonacci sequence never decreases.
pub proof fn lemma_fib_monotonic(i: int, j: int)
    requires
        0 <= i <= j,
    ensures
        spec_fib(i) <= spec_fib(j),
    decreases j - i,
{
    if i < 2 && j < 2 {
    } else if i == j {
    } else if i == j - 1 {
        lemma_fib_non_negative(j - 2);
        assert(spec_fib(j) == spec_fib(j - 2) + spec_fib(j - 1));
        lemma_fib_monotonic(i, j - 1);
    } else {
        lemma_fib_monotonic(i, j - 1);
        lemma_fib_monotonic(i, j - 2);
        lemma_fib_non_negative(j - 2);
        assert(spec_fib(j) == spec_fib(j - 2) + spec_fib(j - 1));
    }
}

/// The `nth` Fibonacci number, by the classic double recursion. The bound on
/// `spec_fib(nth)` is exactly what keeps every intermediate sum inside `i64`.
pub fn fib(nth: i64) -> (r: i64)
    requires
        0 <= nth,
        spec_fib(nth as int) <= i64::MAX,
    ensures
        r == spec_fib(nth as int),
    decreases nth,
{
    if nth <= 1 {
        nth
    } else {
        proof {
            lemma_fib_monotonic(nth - 2, nth as int);
            lemma_fib_monotonic(nth - 1, nth as int);
            lemma_fib_non_negative(nth - 2);
            lemma_fib_non_negative(nth - 1);
        }
        let a = fib(nth - 2);
        let b = fib(nth - 1);
        a + b
    }
}

/// The largest number in a non-empty list: it is one of the entries, and no
/// entry beats it.
pub fn largest(list: &[i32]) -> (m: i32)
    requires
        list@.len() > 0,
    ensures
        list@.contains(m),
        forall|k: int| 0 <= k < list@.len() ==> list@[k] <= m,
{
    let mut m = list[0];
    let mut i: usize = 1;
    while i < list.len()
        invariant
            1 <= i <= list@.len(),
            list@.contains(m),
            forall|k: int| 0 <= k < i ==> list@[k] <= m,
        decreases list@.len() - i,
    {
        if list[i] > m {
            m = list[i];
        }
        i = i + 1;
    }
    m
}

/// A counter that counts up from one and stops telling after five.
pub struct Counter {
    count: u32,
}

impl Counter {
    /// How many times the counter has been advanced.
    pub closed spec fn count_spec(&self) -> u32 {
        self.count
    }

    /// A counter that has not counted yet.
    pub fn new() -> (c: Counter)
        ensures
            c.count_spec() == 0,
    {
        Counter { count: 0 }
    }

    /// Advances the counter: the first five steps hand the new count back,
    /// every later step hands back nothing.
    pub fn next(&mut self) -> (r: Option<u32>)
        requires
            old(self).count_spec() < u32::MAX,
        ensures
            final(self).count_spec() == old(self).count_spec() + 1,
            r == (if old(self).count_spec() + 1 < 6 {
                Some((old(self).count_spec() + 1) as u32)
            } else {
                Option::<u32>::None
            }),
    {
        self.count = self.count + 1;
        if self.count < 6 {
            Some(self.count)
        } else {
            None
        }
    }
}

} // verus!
