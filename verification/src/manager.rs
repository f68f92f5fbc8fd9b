//! Access management examples: public entry points, private machinery, and a
//! struct that keeps one of its fields to itself.

use vstd::prelude::*;

verus! {

/// The public entry point of the government module.
pub fn govern() {
}

/// Passes a law.
pub fn legislate() {
}

/// Reviews a law.
#[allow(dead_code)]
fn judicial() {
    legislate();
}

/// A breakfast whose fruit is the kitchen's secret.
pub struct Breakfast {
    pub toast: String,
    seasonal_fruit: String,
}

impl Breakfast {
    /// The toast the customer asked for.
    pub closed spec fn toast_text(&self) -> Seq<char> {
        self.toast@
    }

    /// The fruit the kitchen chose.
    pub closed spec fn fruit(&self) -> Seq<char> {
        self.seasonal_fruit@
    }

    /// The summer menu: your toast, and peaches while they last.
    pub fn summer(toast: &str) -> (b: Breakfast)
        ensures
            b.toast_text() == toast@,
            b.fruit() == "peaches"@,
    {
        Breakfast { toast: toast.to_owned(), seasonal_fruit: "peaches".to_owned() }
    }
}

/// Royalty, named or not.
pub enum Person {
    King { name: String },
    Quene,
}

} // verus!
