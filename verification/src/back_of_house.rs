//! The kitchen: the breakfast menu, the starters, and the cooks.

use vstd::prelude::*;
use vstd::string::StringExecFns;

verus! {

/// A breakfast order. The customer picks the toast; the kitchen picks the
/// fruit, and nobody outside this module can change it afterwards.
pub struct Breakfast {
    /// The kind of toast, chosen and changeable by the customer.
    pub toast: String,
    /// Chosen by the kitchen when the order is made; private, so only the
    /// constructor ever sets it.
    seasonal_fruit: String,
}

impl Breakfast {
    /// The toast on the order, as contracts outside this module see it
    /// (the private fruit field makes the struct opaque to them).
    pub closed spec fn toast_view(self) -> Seq<char> {
        self.toast@
    }

    /// The fruit that came with this order. The field stays private; this
    /// lets contracts speak of it.
    pub closed spec fn fruit_view(self) -> Seq<char> {
        self.seasonal_fruit@
    }

    /// In summer every breakfast comes with peaches, whatever toast is asked for.
    pub fn summer(toast: &str) -> (meal: Breakfast)
        ensures
            meal.toast_view() == toast@,
            meal.fruit_view() == "peaches"@,
    {
        Breakfast {
            toast: String::from_str(toast),
            seasonal_fruit: String::from_str("peaches"),
        }
    }

    /// Read the toast on the order. Verified callers go through this:
    /// outside this module the struct is opaque to Verus, field and all.
    pub fn toast(&self) -> (t: &String)
        ensures
            t@ == self.toast_view(),
    {
        &self.toast
    }

    /// Change the toast. The kitchen keeps the fruit exactly as it was:
    /// nothing but the constructor ever picks it.
    pub fn set_toast(&mut self, toast: String)
        ensures
            final(self).toast_view() == toast@,
            final(self).fruit_view() == old(self).fruit_view(),
    {
        self.toast = toast;
    }
}

/// A starter: either soup or salad.
#[derive(Clone, Copy, PartialEq, Eq, Structural, Debug)]
pub enum Appetizer {
    Soup,
    Salad,
}

/// Remake a botched order: cook it again and send it back out.
#[allow(dead_code)]
fn fix_incorrect_order() {
    cook_order();
    super::front_of_house::serving::serve_order();
}

/// Prepare one order on the line.
fn cook_order() {
}

} // verus!
