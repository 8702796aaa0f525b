//! A restaurant laid out as a tree of modules: the front of house, where
//! guests wait and are served, and the back of house, where meals are made.
use vstd::prelude::*;

mod front_of_house;
pub mod back_of_house;

pub use crate::restaurant::front_of_house::hosting;

verus! {

/// Orders a summer breakfast, changes its toast to wheat, and returns what
/// the guest asks for.
pub fn eat_at_restaurant() -> (r: String)
    ensures
        r@ == "I'd like Wheat toast please"@,
{
    crate::restaurant::front_of_house::hosting::add_to_waitlist();
    front_of_house::hosting::add_to_waitlist();

    let mut meal = back_of_house::Breakfast::summer("Rye");
    meal.set_toast("Wheat");
    let mut request = String::from_str("I'd like ");
    request.append(meal.toast());
    request.append(" toast please");

    let _order1 = back_of_house::Appetizer::Soup;
    let _order2 = back_of_house::Appetizer::Salad;

    hosting::add_to_waitlist();
    proof {
        reveal_strlit("I'd like ");
        reveal_strlit("Wheat");
        reveal_strlit(" toast please");
        reveal_strlit("I'd like Wheat toast please");
    }
    assert(request@ =~= "I'd like Wheat toast please"@);
    request
}

} // verus!
