//! A validated guess for the number-guessing round: a value that is known,
//! by construction, to lie between 1 and 100.

use vstd::prelude::*;

verus! {

/// A number between 1 and 100, checked once at construction so that no other
/// code needs to re-validate it.
pub struct Guess {
    value: i32,
}

/// How a guess relates to the secret it is held against.
#[derive(Clone, Copy, Debug, PartialEq, Eq, Structural)]
pub enum Hint {
    TooSmall,
    TooBig,
    Correct,
}

impl Guess {
    /// The number this guess carries.
    pub closed spec fn value_spec(&self) -> i32 {
        self.value
    }

    /// Every guess that can be built holds a value in range.
    pub open spec fn wf(&self) -> bool {
        1 <= self.value_spec() <= 100
    }

    /// Wraps a value between 1 and 100. A value outside that range is a
    /// caller bug, ruled out here once and for all.
    pub fn new(value: i32) -> (g: Guess)
        requires
            1 <= value <= 100,
        ensures
            g.wf(),
            g.value_spec() == value,
    {
        Guess { value }
    }

    /// Reads the value back.
    pub fn value(&self) -> (v: i32)
        ensures
            v == self.value_spec(),
    {
        self.value
    }

    /// Compares this guess against the secret: too small, too big, or
    /// exactly right — one of the three, decided by the values alone.
    pub fn compare_to(&self, secret: &Guess) -> (h: Hint)
        ensures
            h == Hint::TooSmall <==> self.value_spec() < secret.value_spec(),
            h == Hint::TooBig <==> self.value_spec() > secret.value_spec(),
            h == Hint::Correct <==> self.value_spec() == secret.value_spec(),
    {
        if self.value < secret.value {
            Hint::TooSmall
        } else if self.value > secret.value {
            Hint::TooBig
        } else {
            Hint::Correct
        }
    }
}

/// Relies on rand::random_range: the result lies within the given range.
#[verifier::external_body]
fn random_in_hundred() -> (r: i32)
    ensures
        1 <= r <= 100,
{
    rand::random_range(1..=100)
}

/// Draws a fresh secret for a guessing round. Nothing is promised about
/// which number comes up, only that it is a well-formed guess in range.
pub fn secret_guess() -> (g: Guess)
    ensures
        g.wf(),
{
    let v = random_in_hundred();
    Guess::new(v)
}

} // verus!
