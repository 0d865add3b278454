//! The kitchen's side of a restaurant: breakfasts and appetizers.
use vstd::prelude::*;
use vstd::string::*;

verus! {

/// A breakfast: the customer picks the toast; the seasonal fruit is the
/// kitchen's choice and cannot be seen from outside.
pub struct Breakfast {
    pub toast: String,
    seasonal_fruit: String,
}

impl Breakfast {
    pub closed spec fn spec_toast(&self) -> Seq<char> {
        self.toast@
    }

    pub closed spec fn spec_fruit(&self) -> Seq<char> {
        self.seasonal_fruit@
    }

    /// A summer breakfast with `toast`, served with peaches.
    pub fn summer(toast: &str) -> (r: Breakfast)
        ensures
            r.spec_toast() == toast@,
            r.spec_fruit() == "peaches"@,
    {
        Breakfast { toast: String::from_str(toast), seasonal_fruit: String::from_str("peaches") }
    }
}

#[derive(Clone, Copy, Debug, PartialEq, Eq, Structural)]
pub enum Appetizer {
    Soup,
    Salad,
}

} // verus!
