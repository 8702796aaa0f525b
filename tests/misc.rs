use learnrust::enums::{value_in_cents, Coin};
use learnrust::guessing_game::{judge, secret_number, Verdict, HIGHEST, LOWEST};
use learnrust::restaurant::back_of_house::{Appetizer, Breakfast};
use learnrust::restaurant::{eat_at_restaurant, hosting};
use learnrust::variables::func_that_returns;

#[test]
fn coin_values() {
    assert_eq!(value_in_cents(Coin::Penny), 1);
    assert_eq!(value_in_cents(Coin::Nickel), 5);
    assert_eq!(value_in_cents(Coin::Dime), 10);
    assert_eq!(value_in_cents(Coin::Quarter), 25);
}

#[test]
fn judge_each_verdict() {
    assert_eq!(judge(3, 7), Verdict::TooSmall);
    assert_eq!(judge(9, 7), Verdict::TooBig);
    assert_eq!(judge(7, 7), Verdict::Win);
}

#[test]
fn secret_number_in_range() {
    let mut seen_other_than_low = false;
    for _ in 0..200 {
        let s = secret_number();
        assert!(LOWEST <= s && s <= HIGHEST);
        if s != LOWEST {
            seen_other_than_low = true;
        }
    }
    assert!(seen_other_than_low);
}

#[test]
fn restaurant_orders_wheat_toast() {
    hosting::add_to_waitlist();
    assert_eq!(eat_at_restaurant(), "I'd like Wheat toast please");
}

#[test]
fn breakfast_toast_can_change() {
    let mut meal = Breakfast::summer("Rye");
    assert_eq!(meal.toast, "Rye");
    meal.set_toast("Wheat");
    assert_eq!(meal.toast(), "Wheat");
    let _soup = Appetizer::Soup;
    let _salad = Appetizer::Salad;
}

#[test]
fn function_returns_five() {
    assert_eq!(func_that_returns(), 5);
}
