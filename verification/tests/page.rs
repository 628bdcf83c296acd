use fitmenu::error::{Field, ParseError};
use fitmenu::food::Food;
use fitmenu::html::{PAGE_LIMIT, SELECTOR_LIMIT};
use fitmenu::page::{
    attribute_of, is_plain_selector, text_nodes_of, today_arguments_from_page,
    today_menu_from_page, DETAILS_ATTRIBUTE, DETAILS_SELECTOR, MENU_SELECTOR,
};

const DETAILS: &str = "<html><body><div class=\"modal-body\"><h4>Meniul zilei</h4>\
\nChicken Breast: grilled<p>Gramaj: 150g</p><span>250 kcal</span><b>proteine: 30g</b>\
<ul><li>\n- Orez basmati</li><li>Gramaje: 200 ml</li><li>310kcal, proteine 6 g</li></ul>\
</div><div class=\"modal-footer\">999 kcal</div></body></html>";

const PROGRAM: &str = "<html><body><div class=\"btn-detalii\">\
<a href=\"#\" onclick=\"detalii_meniu(1805, '2023-11-30', '12')\">Detalii</a>\
<a onclick=\"detalii_meniu(1, '2000-01-01', '2')\">Altele</a></div></body></html>";

#[test]
fn text_nodes_come_in_document_order() {
    let nodes = text_nodes_of(DETAILS, MENU_SELECTOR).unwrap();
    assert_eq!(
        nodes,
        vec![
            "Meniul zilei",
            "\nChicken Breast: grilled",
            "Gramaj: 150g",
            "250 kcal",
            "proteine: 30g",
            "\n- Orez basmati",
            "Gramaje: 200 ml",
            "310kcal, proteine 6 g",
        ]
    );
}

#[test]
fn text_nodes_of_the_first_match_only() {
    let body = "<div><p>one</p><p>two<i>three</i></p></div>";
    assert_eq!(text_nodes_of(body, "p"), Ok(vec!["one".to_string()]));
    assert_eq!(text_nodes_of(body, "p + p"), Ok(vec!["two".to_string(), "three".to_string()]));
    assert_eq!(text_nodes_of("<p></p>", "p"), Ok(Vec::new()));
}

#[test]
fn a_missing_element_is_reported() {
    assert_eq!(text_nodes_of("<p>one</p>", "div.modal-body"), Err(ParseError::MissingElement));
    assert_eq!(text_nodes_of("", "p"), Err(ParseError::MissingElement));
    assert_eq!(attribute_of("<p>one</p>", "a", "onclick"), Err(ParseError::MissingElement));
}

#[test]
fn an_invalid_selector_is_reported() {
    assert_eq!(text_nodes_of("<p>one</p>", "p >"), Err(ParseError::InvalidSelector));
    assert_eq!(attribute_of("<p>one</p>", "[", "onclick"), Err(ParseError::InvalidSelector));
}

#[test]
fn an_attribute_is_read_from_the_first_match() {
    assert_eq!(
        attribute_of(PROGRAM, DETAILS_SELECTOR, DETAILS_ATTRIBUTE),
        Ok("detalii_meniu(1805, '2023-11-30', '12')".to_string())
    );
    assert_eq!(attribute_of(PROGRAM, DETAILS_SELECTOR, "href"), Ok("#".to_string()));
    assert_eq!(attribute_of("<a onclick=\"\">x</a>", "a", "onclick"), Ok(String::new()));
}

#[test]
fn a_missing_attribute_is_reported() {
    assert_eq!(
        attribute_of(PROGRAM, DETAILS_SELECTOR, "title"),
        Err(ParseError::MissingAttribute)
    );
}

#[test]
fn the_menu_is_built_from_the_details_page() {
    let menu = today_menu_from_page("2023-11-30", DETAILS).unwrap();
    assert_eq!(menu.date, "2023-11-30");
    assert_eq!(
        menu.foods,
        vec![
            Food {
                description: "Chicken Breast: grilled".to_string(),
                quantity: 150,
                calories: 250,
                proteins: 30,
            },
            Food {
                description: " Orez basmati".to_string(),
                quantity: 200,
                calories: 310,
                proteins: 6,
            },
        ]
    );
    assert_eq!(menu.total_calories(), 560);
    assert_eq!(menu.total_proteins(), 36);
}

#[test]
fn a_page_without_the_container_has_no_menu() {
    let body = "<html><body><div class=\"other\">250 kcal</div></body></html>";
    assert_eq!(today_menu_from_page("d", body).err(), Some(ParseError::MissingElement));
}

#[test]
fn an_empty_container_is_an_empty_menu() {
    let body = "<div class=\"modal-body\"></div>";
    let menu = today_menu_from_page("d", body).unwrap();
    assert!(menu.foods.is_empty());
    let body = "<div class=\"modal-body\">250 kcal</div>";
    let menu = today_menu_from_page("d", body).unwrap();
    assert!(menu.foods.is_empty());
}

#[test]
fn a_malformed_details_page_is_rejected() {
    let body = "<div class=\"modal-body\"><h4>x</h4><p>250 kcal</p><p>300 kcal</p></div>";
    assert_eq!(
        today_menu_from_page("d", body).err(),
        Some(ParseError::DuplicateField(Field::Calories))
    );
    let body = "<div class=\"modal-body\"><h4>x</h4><p>250 kcal</p></div>";
    assert_eq!(today_menu_from_page("d", body).err(), Some(ParseError::Truncated));
}

#[test]
fn the_arguments_are_read_from_the_program_page() {
    assert_eq!(
        today_arguments_from_page(PROGRAM),
        Ok(("1805".to_string(), "2023-11-30".to_string(), "12".to_string()))
    );
}

#[test]
fn a_program_page_without_the_link_has_no_arguments() {
    let body = "<div class=\"btn-detalii\"><span onclick=\"f(1, '2', '3')\">x</span></div>";
    assert_eq!(today_arguments_from_page(body), Err(ParseError::MissingElement));
    let body = "<div class=\"btn-detalii\"><a href=\"#\">x</a></div>";
    assert_eq!(today_arguments_from_page(body), Err(ParseError::MissingAttribute));
    let body = "<div class=\"btn-detalii\"><a onclick=\"f()\">x</a></div>";
    assert_eq!(today_arguments_from_page(body), Err(ParseError::ArgumentsNotFound));
}

#[test]
fn a_page_beyond_the_limit_is_not_read() {
    let mut body = String::from("<div class=\"modal-body\"><p>x</p></div><a onclick=\"f\">y</a>");
    assert_eq!(text_nodes_of(&body, "p"), Ok(vec!["x".to_string()]));
    assert_eq!(attribute_of(&body, "a", "onclick"), Ok("f".to_string()));
    body.push_str(&" ".repeat(PAGE_LIMIT + 1 - body.len()));
    assert_eq!(body.len(), PAGE_LIMIT + 1);
    assert_eq!(text_nodes_of(&body, "p"), Err(ParseError::PageTooLong));
    assert_eq!(text_nodes_of(&body, "p >"), Err(ParseError::PageTooLong));
    assert_eq!(attribute_of(&body, "a", "onclick"), Err(ParseError::PageTooLong));
    assert_eq!(today_menu_from_page("d", &body).err(), Some(ParseError::PageTooLong));
    assert_eq!(today_arguments_from_page(&body), Err(ParseError::PageTooLong));
}

#[test]
fn the_limit_counts_bytes() {
    assert_eq!(PAGE_LIMIT, 268_435_456);
    let mut body = "\u{e9}".repeat(PAGE_LIMIT / 2);
    assert_eq!(body.len(), PAGE_LIMIT);
    body.push('\u{e9}');
    assert_eq!(text_nodes_of(&body, "p"), Err(ParseError::PageTooLong));
}

#[test]
fn a_selector_beyond_the_limit_is_not_used() {
    let body = "<p>x</p><a onclick=\"f\">y</a>";
    assert_eq!(SELECTOR_LIMIT, 1024);
    let mut selector = String::from("p");
    selector.push_str(&" ".repeat(SELECTOR_LIMIT - 1));
    assert_eq!(selector.len(), SELECTOR_LIMIT);
    assert!(is_plain_selector(&selector));
    assert_eq!(text_nodes_of(body, &selector), Ok(vec!["x".to_string()]));
    selector.push(' ');
    assert!(!is_plain_selector(&selector));
    assert_eq!(text_nodes_of(body, &selector), Err(ParseError::InvalidSelector));
    assert_eq!(attribute_of(body, &selector, "onclick"), Err(ParseError::InvalidSelector));
    let accents = "\u{e9}".repeat(SELECTOR_LIMIT / 2);
    assert!(is_plain_selector(&accents));
    assert!(!is_plain_selector(&format!("{}e", accents)));
}

#[test]
fn a_selector_inside_a_selector_is_not_used() {
    let body = "<div><p>x</p></div><a onclick=\"f\">y</a>";
    assert!(!is_plain_selector("div:has(p)"));
    assert!(!is_plain_selector("p:not(.x)"));
    assert!(!is_plain_selector("("));
    assert!(!is_plain_selector("p:nth-child(1)"));
    assert_eq!(text_nodes_of(body, "div:has(p)"), Err(ParseError::InvalidSelector));
    assert_eq!(text_nodes_of(body, "p:not(.x)"), Err(ParseError::InvalidSelector));
    assert_eq!(attribute_of(body, "a:is(a)", "onclick"), Err(ParseError::InvalidSelector));
}

#[test]
fn plain_selectors_are_chains_of_simple_parts() {
    assert!(is_plain_selector(""));
    assert!(is_plain_selector(MENU_SELECTOR));
    assert!(is_plain_selector(DETAILS_SELECTOR));
    assert!(is_plain_selector("ul > li + li ~ li a[href=\"#\"].x#y"));
    assert!(is_plain_selector("p)"));
    let body = "<ul><li>a</li><li><b>c</b></li></ul>";
    assert_eq!(text_nodes_of(body, "ul > li + li b"), Ok(vec!["c".to_string()]));
}
