//! The three branches of a small nation, and its state breakfast.

use vstd::prelude::*;

verus! {

/// The government governs.
pub fn govern() {
}

/// The congress legislates.
pub fn legislate() {
}

/// The court reviews what the congress passed.
#[allow(dead_code)]
fn judicial() {
    legislate();
}

/// The state breakfast: the guest picks the toast, the kitchen the fruit.
pub struct Breakfast {
    pub toast: String,
    seasonal_fruit: String,
}

impl Breakfast {
    /// The toast the customer asked for.
    pub closed spec fn toast_text(&self) -> Seq<char> {
        self.toast@
    }

    /// The fruit the kitchen chose.
    pub closed spec fn fruit(&self) -> Seq<char> {
        self.seasonal_fruit@
    }

    /// The summer menu: your toast, and peaches while they last.
    pub fn summer(toast: &str) -> (b: Breakfast)
        ensures
            b.toast_text() == toast@,
            b.fruit() == "peaches"@,
    {
        Breakfast { toast: toast.to_owned(), seasonal_fruit: "peaches".to_owned() }
    }
}

/// Who sits at the head of the table.
pub enum Person {
    King { name: String },
    Quene,
}

} // verus!
