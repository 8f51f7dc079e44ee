use vstd::prelude::*;
use vstd::string::StringExecFns;

verus! {

/// A breakfast order: the customer picks the toast, the kitchen picks
/// the fruit of the season.
pub struct Breakfast {
    pub toast: String,
    seasonal_fruit: String,
}

impl Breakfast {
    /// The toast the customer picked.
    pub closed spec fn toast_choice(&self) -> Seq<char> {
        self.toast@
    }

    /// The fruit the kitchen chose.
    pub closed spec fn fruit(&self) -> Seq<char> {
        self.seasonal_fruit@
    }

    /// A summer breakfast with the given toast; the season's fruit is
    /// peaches.
    pub fn summer(toast: &str) -> (r: Breakfast)
        ensures
            r.toast_choice() == toast@,
            r.fruit() == "peaches"@,
    {
        Breakfast {
            toast: String::from_str(toast),
            seasonal_fruit: String::from_str("peaches"),
        }
    }
}

#[derive(Debug)]
pub enum Appetizer {
    Soup,
    Salad,
}

/// Remakes an order that went out wrong and sends it back out.
pub fn fix_incorrect_order() {
    cook_order();
    super::front_of_house::serving::serve_order();
}

/// Prepares an order.
pub fn cook_order() {
}

} // verus!
