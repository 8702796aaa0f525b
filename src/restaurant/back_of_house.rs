//! The kitchen: breakfasts and appetizers.
use vstd::prelude::*;

verus! {

/// Goes out front and orders a meal, as a guest would.
#[allow(dead_code)]
fn test() {
    let _request = super::eat_at_restaurant();
}

/// A breakfast: toast the guest picks, and fruit of the season that the
/// kitchen picks.
pub struct Breakfast {
    pub toast: String,
    seasonal_fruit: String,
}

impl Breakfast {
    /// The toast that the guest chose.
    pub closed spec fn toast_choice(&self) -> Seq<char> {
        self.toast@
    }

    /// The fruit that the kitchen chose.
    pub closed spec fn fruit(&self) -> Seq<char> {
        self.seasonal_fruit@
    }

    /// A summer breakfast: the given toast, with peaches.
    pub fn summer(toast: &str) -> (r: Breakfast)
        ensures
            r.toast_choice() == toast@,
            r.fruit() == "peaches"@,
    {
        Breakfast { toast: String::from_str(toast), seasonal_fruit: String::from_str("peaches") }
    }

    /// The toast that the guest chose.
    pub fn toast(&self) -> (r: &str)
        ensures
            r@ == self.toast_choice(),
    {
        self.toast.as_str()
    }

    /// Changes the toast; the fruit stays.
    pub fn set_toast(&mut self, toast: &str)
        ensures
            final(self).toast_choice() == toast@,
            final(self).fruit() == old(self).fruit(),
    {
        self.toast = String::from_str(toast);
    }
}

/// An appetizer on the menu.
pub enum Appetizer {
    Soup,
    Salad,
}

} // verus!
