//! The restaurant front and back of house: greeting guests and preparing
//! breakfasts.

use vstd::prelude::*;

verus! {

/// Put the party on the host's waitlist.
pub fn add_to_waitlist() {
}

/// A guest arrives: they are put on the waitlist, by either door.
pub fn eat_at_restaurant() {
    add_to_waitlist();
    add_to_waitlist();
}

/// Hand a finished order to its table.
fn deliver_order() {
}

/// Remake a dish and send the order out again.
fn fix_incorrect_order() {
    cook_order();
    deliver_order();
}

/// Prepare one order.
fn cook_order() {
}

/// A breakfast order: the guest picks the toast, the kitchen picks the
/// fruit of the season.
pub struct Breakfast {
    /// The kind of toast, the guest's choice.
    pub toast: String,
    seasonal_fruit: String,
}

impl Breakfast {
    /// The chosen toast.
    pub closed spec fn toast_kind(&self) -> Seq<char> {
        self.toast@
    }

    /// The fruit that comes with the breakfast.
    pub closed spec fn fruit(&self) -> Seq<char> {
        self.seasonal_fruit@
    }

    /// A summer breakfast: the chosen toast, served with peaches.
    pub fn summer(toast: &str) -> (b: Breakfast)
        ensures
            b.toast_kind() == toast@,
            b.fruit() == "peaches"@,
    {
        Breakfast { toast: String::from_str(toast), seasonal_fruit: String::from_str("peaches") }
    }
}

/// A starter course.
pub enum Appetizer {
    /// The soup of the day.
    Soup,
    /// The house salad.
    Salad,
}

} // verus!
