use fitmenu::food::{balance, Balance, Food, Menu};

fn food(description: &str, quantity: u32, calories: u32, proteins: u32) -> Food {
    Food { description: description.to_string(), quantity, calories, proteins }
}

#[test]
fn a_new_menu_is_empty() {
    let menu = Menu::new("2024-01-05");
    assert_eq!(menu.date, "2024-01-05");
    assert!(menu.foods.is_empty());
    assert_eq!(menu.total_calories(), 0);
    assert_eq!(menu.total_proteins(), 0);
    assert_eq!(menu.checked_total_calories(), Some(0));
    assert_eq!(menu.checked_total_proteins(), Some(0));
}

#[test]
fn foods_are_kept_in_the_order_they_were_added() {
    let mut menu = Menu::new("2024-01-05");
    menu.add_food(food("soup", 300, 120, 8));
    menu.add_food(food("rice", 200, 260, 5));
    menu.add_food(food("soup", 300, 120, 8));
    assert_eq!(menu.date, "2024-01-05");
    assert_eq!(
        menu.foods,
        vec![food("soup", 300, 120, 8), food("rice", 200, 260, 5), food("soup", 300, 120, 8)]
    );
}

#[test]
fn totals_add_up_every_food() {
    let mut menu = Menu::new("2024-01-05");
    menu.add_food(food("soup", 300, 120, 8));
    assert_eq!(menu.total_calories(), 120);
    assert_eq!(menu.total_proteins(), 8);
    menu.add_food(food("rice", 200, 260, 5));
    menu.add_food(food("water", 500, 0, 0));
    assert_eq!(menu.total_calories(), 380);
    assert_eq!(menu.total_proteins(), 13);
    assert_eq!(menu.checked_total_calories(), Some(380));
    assert_eq!(menu.checked_total_proteins(), Some(13));
}

#[test]
fn totals_that_do_not_fit_are_none() {
    let mut menu = Menu::new("2024-01-05");
    menu.add_food(food("a", 1, u32::MAX - 1, 1));
    menu.add_food(food("b", 1, 1, u32::MAX));
    assert_eq!(menu.checked_total_calories(), Some(u32::MAX));
    assert_eq!(menu.checked_total_proteins(), None);
    menu.add_food(food("c", 1, 1, 0));
    assert_eq!(menu.checked_total_calories(), None);
    menu.add_food(food("d", 1, 0, 0));
    assert_eq!(menu.checked_total_calories(), None);
    assert_eq!(menu.checked_total_proteins(), None);
}

#[test]
fn a_total_is_held_against_its_target() {
    assert_eq!(balance(2500, 2000), Balance::Reached(500));
    assert_eq!(balance(2000, 2000), Balance::Reached(0));
    assert_eq!(balance(1999, 2000), Balance::Short(1));
    assert_eq!(balance(0, u32::MAX), Balance::Short(u32::MAX));
    assert_eq!(balance(u32::MAX, 0), Balance::Reached(u32::MAX));
    assert_eq!(balance(0, 0), Balance::Reached(0));
}

#[test]
fn food_is_copied_and_compared_field_by_field() {
    let soup = food("soup", 300, 120, 8);
    assert_eq!(soup.clone(), soup);
    assert_ne!(soup, food("soup", 300, 120, 9));
    assert_ne!(soup, food("soup", 300, 121, 8));
    assert_ne!(soup, food("soup", 301, 120, 8));
    assert_ne!(soup, food("Soup", 300, 120, 8));
    assert_eq!(Food::default(), food("", 0, 0, 0));
}
