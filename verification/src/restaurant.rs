//! The restaurant: front of house takes names and orders, the back of house
//! cooks and plates a fixed summer breakfast.

use vstd::prelude::*;

verus! {

/// Puts a party on the waitlist.
pub fn add_to_waitlist() {
}

/// Seats the next party from the waitlist.
#[allow(dead_code)]
fn seat_at_table() {
}

/// Takes a table's order.
#[allow(dead_code)]
fn take_order() {
}

/// Brings an order out.
fn serve_order() {
}

/// Settles a table's bill.
#[allow(dead_code)]
fn take_payment() {
}

/// Fires the dish again and sends it back out.
#[allow(dead_code)]
fn fix_incorrect_order() {
    cook_order();
    serve_order();
}

/// Cooks one order.
fn cook_order() {
}

/// Walks up and joins the waitlist, by either door.
pub fn eat_at_waitlist() {
    crate::restaurant::add_to_waitlist();
    add_to_waitlist();
}

/// Joins the waitlist for a party of three.
pub fn eat_at_restaurant() {
    add_to_waitlist();
    add_to_waitlist();
    add_to_waitlist();
}

/// The breakfast plate: the customer picks the toast, the kitchen picks the
/// fruit of the season.
pub struct Breakfast {
    pub toast: String,
    seasonal_fruit: String,
}

impl Breakfast {
    /// The toast the customer asked for.
    pub closed spec fn toast_text(&self) -> Seq<char> {
        self.toast@
    }

    /// The fruit the kitchen chose.
    pub closed spec fn fruit(&self) -> Seq<char> {
        self.seasonal_fruit@
    }

    /// The summer menu: your toast, and peaches while they last.
    pub fn summer(toast: &str) -> (b: Breakfast)
        ensures
            b.toast_text() == toast@,
            b.fruit() == "peaches"@,
    {
        Breakfast { toast: toast.to_owned(), seasonal_fruit: "peaches".to_owned() }
    }
}

/// Who is dining.
pub enum Person {
    King { name: String },
    Quene,
}

} // verus!
