use restaurant::atwl;
use restaurant::back_of_house::Appetizer;
use restaurant::back_of_house::Breakfast;
use restaurant::eat_at_restaurant;
use restaurant::front_of_house::hosting::add_to_wait_list;
use restaurant::front_of_house::serving::serve_order;

#[test]
fn orders_wheat_toast() {
    let line = eat_at_restaurant();
    assert_eq!(line, "I'd like Wheat toast please");
}

#[test]
fn summer_keeps_the_chosen_toast() {
    let meal = Breakfast::summer("Sourdough");
    assert_eq!(meal.toast, "Sourdough");
    assert_eq!(meal.toast(), "Sourdough");
}

#[test]
fn toast_can_be_changed_after_ordering() {
    let mut meal = Breakfast::summer("Rye");
    meal.set_toast(String::from("Wheat"));
    assert_eq!(meal.toast, "Wheat");
    meal.toast = String::from("Rye");
    assert_eq!(meal.toast(), "Rye");
}

#[test]
fn appetizers_are_distinct() {
    assert!(Appetizer::Soup == Appetizer::Soup);
    assert!(Appetizer::Salad == Appetizer::Salad);
    assert!(Appetizer::Soup != Appetizer::Salad);
    assert!(matches!(Appetizer::Soup, Appetizer::Soup));
}

#[test]
fn stub_services_run() {
    add_to_wait_list();
    serve_order();
    atwl();
}
