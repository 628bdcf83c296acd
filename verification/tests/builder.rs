use fitmenu::builder::{parse_fragments, parse_text_nodes};
use fitmenu::error::{Field, ParseError};
use fitmenu::food::Food;

fn texts(fragments: &[&str]) -> Vec<String> {
    fragments.iter().map(|fragment| fragment.to_string()).collect()
}

fn chicken() -> Food {
    Food {
        description: "Chicken Breast: grilled".to_string(),
        quantity: 150,
        calories: 250,
        proteins: 30,
    }
}

#[test]
fn round_trip_of_one_record() {
    let fragments = texts(&["\nChicken Breast: grilled", "Gramaj: 150g", "250 kcal", "proteine: 30g"]);
    assert_eq!(parse_fragments(&fragments), Ok(vec![chicken()]));
}

#[test]
fn no_fragments_hold_no_records() {
    assert_eq!(parse_fragments(&Vec::new()), Ok(Vec::new()));
    assert_eq!(parse_fragments(&texts(&["", "   ", "Meniul zilei"])), Ok(Vec::new()));
}

#[test]
fn four_fragments_in_any_order_make_the_same_record() {
    let parts = ["\nChicken Breast: grilled", "Gramaj: 150g", "250 kcal", "proteine: 30g"];
    let orders: [[usize; 4]; 6] =
        [[0, 1, 2, 3], [3, 2, 1, 0], [1, 0, 3, 2], [2, 3, 0, 1], [1, 2, 3, 0], [3, 0, 1, 2]];
    for order in orders {
        let fragments: Vec<String> = order.iter().map(|i| parts[*i].to_string()).collect();
        assert_eq!(parse_fragments(&fragments), Ok(vec![chicken()]));
    }
}

#[test]
fn records_come_out_in_page_order() {
    let fragments = texts(&[
        "\nChicken Breast: grilled",
        "Gramaj: 150g",
        "filler",
        "250 kcal",
        "proteine: 30g",
        "\n- Orez basmati",
        "proteine 6 g",
        "310kcal",
        "Gramaje: 200 ml",
        "",
    ]);
    let rice =
        Food { description: " Orez basmati".to_string(), quantity: 200, calories: 310, proteins: 6 };
    assert_eq!(parse_fragments(&fragments), Ok(vec![chicken(), rice]));
}

#[test]
fn end_of_input_inside_a_record_is_truncation() {
    let fragments = texts(&["\nChicken Breast: grilled", "Gramaj: 150g"]);
    assert_eq!(parse_fragments(&fragments), Err(ParseError::Truncated));
    let fragments = texts(&[
        "\nChicken Breast: grilled",
        "Gramaj: 150g",
        "250 kcal",
        "proteine: 30g",
        "10 kcal",
    ]);
    assert_eq!(parse_fragments(&fragments), Err(ParseError::Truncated));
}

#[test]
fn a_repeated_field_stops_the_builder() {
    let fragments = texts(&["Gramaj: 150g", "Gramaj: 200g", "250 kcal", "proteine: 30g", "\n-x"]);
    assert_eq!(parse_fragments(&fragments), Err(ParseError::DuplicateField(Field::Quantity)));
    let fragments = texts(&["\n- one", "\n- two"]);
    assert_eq!(parse_fragments(&fragments), Err(ParseError::DuplicateField(Field::Description)));
}

#[test]
fn zero_quantity_fails_validation() {
    let fragments = texts(&["\nChicken Breast: grilled", "Gramaj: 0g", "250 kcal", "proteine: 30g"]);
    assert_eq!(parse_fragments(&fragments), Err(ParseError::InvalidRecord(Field::Quantity)));
}

#[test]
fn zero_calories_and_zero_proteins_fail_validation() {
    let fragments = texts(&["\nChicken Breast: grilled", "Gramaj: 5g", "0 kcal", "proteine: 30g"]);
    assert_eq!(parse_fragments(&fragments), Err(ParseError::InvalidRecord(Field::Calories)));
    let fragments = texts(&["\nChicken Breast: grilled", "Gramaj: 5g", "9 kcal", "proteine: 0g"]);
    assert_eq!(parse_fragments(&fragments), Err(ParseError::InvalidRecord(Field::Proteins)));
}

#[test]
fn empty_description_fails_validation() {
    let fragments = texts(&["\n-", "Gramaj: 150g", "250 kcal", "proteine: 30g"]);
    assert_eq!(parse_fragments(&fragments), Err(ParseError::InvalidRecord(Field::Description)));
}

#[test]
fn a_number_that_does_not_fit_stops_the_builder() {
    let fragments = texts(&["\n- soup", "Gramaj: 150g", "4294967296 kcal", "proteine: 30g"]);
    assert_eq!(parse_fragments(&fragments), Err(ParseError::NotANumber));
}

#[test]
fn the_first_error_decides() {
    let fragments = texts(&["Gramaj: 0g", "Gramaj: 1g", "99999999999 kcal"]);
    assert_eq!(parse_fragments(&fragments), Err(ParseError::DuplicateField(Field::Quantity)));
}

#[test]
fn the_header_node_is_passed_over() {
    let nodes = texts(&[
        "\n- header that looks like a description",
        "\nChicken Breast: grilled",
        "Gramaj: 150g",
        "250 kcal",
        "proteine: 30g",
    ]);
    let menu = parse_text_nodes("2024-01-05", &nodes).unwrap();
    assert_eq!(menu.date, "2024-01-05");
    assert_eq!(menu.foods, vec![chicken()]);
    assert_eq!(parse_fragments(&nodes), Err(ParseError::DuplicateField(Field::Description)));
}

#[test]
fn a_page_without_nodes_is_an_empty_menu() {
    let menu = parse_text_nodes("2024-01-05", &Vec::new()).unwrap();
    assert_eq!(menu.date, "2024-01-05");
    assert!(menu.foods.is_empty());
    let menu = parse_text_nodes("d", &texts(&["250 kcal"])).unwrap();
    assert!(menu.foods.is_empty());
}

#[test]
fn text_nodes_that_end_inside_a_record_are_truncated() {
    let nodes = texts(&["header", "250 kcal"]);
    assert_eq!(parse_text_nodes("d", &nodes).err(), Some(ParseError::Truncated));
}
