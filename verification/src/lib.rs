//! A small restaurant, organised the way the building is: a front of house
//! that seats and serves, and a back of house that cooks. The one routine a
//! guest runs end to end orders a summer breakfast, changes the toast, and
//! returns the line the guest says about it.

use vstd::prelude::*;
use vstd::string::StringExecFns;

pub mod back_of_house;
pub mod front_of_house;

use front_of_house::hosting;
use front_of_house::hosting::add_to_wait_list;
pub use front_of_house::hosting::add_to_wait_list as atwl;

verus! {

/// Order a summer breakfast with rye toast, change the order to wheat, and
/// return exactly the line the guest says about the final order.
pub fn eat_at_restaurant() -> (line: String)
    ensures
        line@ == "I'd like Wheat toast please"@,
{
    crate::front_of_house::hosting::add_to_wait_list();
    front_of_house::hosting::add_to_wait_list();
    hosting::add_to_wait_list();
    add_to_wait_list();
    atwl();

    let mut meal = back_of_house::Breakfast::summer("Rye");
    meal.set_toast(String::from_str("Wheat"));

    let mut line = String::from_str("I'd like ");
    line.append(meal.toast().as_str());
    line.append(" toast please");
    proof {
        reveal_strlit("I'd like ");
        reveal_strlit("Wheat");
        reveal_strlit(" toast please");
        reveal_strlit("I'd like Wheat toast please");
        assert(line@ =~= "I'd like Wheat toast please"@);
    }
    line
}

} // verus!
