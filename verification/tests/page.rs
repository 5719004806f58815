use page_elements::element::ElementData;
use page_elements::markup::{Attribute, AttributeName, Markup, Tag};
use page_elements::page::PageController;
use page_elements::paragraph::Paragraph;
use page_elements::registry::ElementRegistry;
use page_elements::setting_pane::{emitted_value, FieldState, SettingPane};
use page_elements::style::Style;

fn p_node(css: &str, text: &str) -> Markup {
    Markup::Element {
        tag: Tag::P,
        attributes: vec![Attribute { name: AttributeName::Style, value: css.to_string() }],
        text: text.to_string(),
    }
}

fn a_node(href: &str, css: &str, text: &str) -> Markup {
    Markup::Element {
        tag: Tag::A,
        attributes: vec![
            Attribute { name: AttributeName::Href, value: href.to_string() },
            Attribute { name: AttributeName::Style, value: css.to_string() },
        ],
        text: text.to_string(),
    }
}

fn plain(value: &str, id: u8) -> ElementData {
    ElementData::from(Paragraph::with_id(value.to_string(), Style::default(), id))
}

#[test]
fn empty_input_emits_absence() {
    assert_eq!(emitted_value(String::new()), None);
}

#[test]
fn input_red_emits_red() {
    assert_eq!(emitted_value("red".to_string()), Some("red".to_string()));
}

#[test]
fn input_is_passed_on_unchecked() {
    assert_eq!(emitted_value(" ".to_string()), Some(" ".to_string()));
    assert_eq!(emitted_value("not a colour;".to_string()), Some("not a colour;".to_string()));
}

#[test]
fn pane_moves_between_its_two_states() {
    let mut pane = SettingPane::new();
    assert_eq!(pane.state, FieldState::Empty);
    assert_eq!(pane.on_input("r".to_string()), Some("r".to_string()));
    assert_eq!(pane.state, FieldState::HasText);
    assert_eq!(pane.on_input("re".to_string()), Some("re".to_string()));
    assert_eq!(pane.state, FieldState::HasText);
    assert_eq!(pane.on_input(String::new()), None);
    assert_eq!(pane.state, FieldState::Empty);
    assert_eq!(pane.on_input(String::new()), None);
    assert_eq!(pane.state, FieldState::Empty);
}

#[test]
fn initial_render_shows_the_sample_content() {
    let page = PageController::with_ids(1, 2);
    assert_eq!(
        page.render(),
        vec![
            p_node("background-color:#666666;color:#222222;", "hoge"),
            a_node(
                "https://www.google.co.jp",
                "background-color:#666666;color:#222222;",
                "hoge"
            ),
        ]
    );
}

#[test]
fn input_restyles_the_paragraph() {
    let mut page = PageController::with_ids(1, 2);
    assert_eq!(page.render()[0], p_node("background-color:#666666;color:#222222;", "hoge"));
    page.on_input("#000000".to_string());
    assert_eq!(page.render()[0], p_node("background-color:#000000;color:#222222;", "hoge"));
    assert_eq!(page.paragraph.id, 1);
    assert_eq!(
        page.render()[1],
        a_node("https://www.google.co.jp", "background-color:#666666;color:#222222;", "hoge")
    );
    assert_eq!(page.anchor.id, 2);
}

#[test]
fn passed_on_value_restyles_the_paragraph() {
    let mut page = PageController::with_ids(1, 2);
    let mut pane = SettingPane::new();
    let value = pane.on_input("#000000".to_string());
    page.set_background_color(value);
    assert_eq!(page.render()[0], p_node("background-color:#000000;color:#222222;", "hoge"));
}

#[test]
fn cleared_input_takes_the_background_away() {
    let mut page = PageController::with_ids(1, 2);
    page.on_input("#000000".to_string());
    page.on_input(String::new());
    assert_eq!(page.render()[0], p_node("color:#222222;", "hoge"));
    page.on_input("red".to_string());
    assert_eq!(page.render()[0], p_node("background-color:red;color:#222222;", "hoge"));
}

#[test]
fn restyled_paragraph_is_the_same_element() {
    let mut page = PageController::with_ids(1, 2);
    let before = page.elements();
    page.on_input("#000000".to_string());
    let after = page.elements();
    assert!(before.elements[0] == after.elements[0]);
    assert!(before == after);
    assert_ne!(before.render(), after.render());
}

#[test]
fn new_page_has_the_sample_content() {
    let page = PageController::new();
    let same = PageController::with_ids(page.paragraph.id, page.anchor.id);
    assert_eq!(page.render(), same.render());
    assert_eq!(page.paragraph, same.paragraph);
    assert_eq!(page.anchor, same.anchor);
    assert_eq!(page.clone().render(), page.render());
}

#[test]
fn page_elements_are_the_paragraph_then_the_anchor() {
    let page = PageController::with_ids(10, 20);
    let registry = page.elements();
    assert_eq!(registry.len(), 2);
    assert_eq!(registry.elements[0].component_name(), "paragraph");
    assert_eq!(*registry.elements[0].id(), 10);
    assert_eq!(registry.elements[1].component_name(), "anchor");
    assert_eq!(*registry.elements[1].id(), 20);
}

#[test]
fn registry_renders_in_insertion_order() {
    let mut registry = ElementRegistry::new();
    assert_eq!(registry.len(), 0);
    assert_eq!(registry.render(), Vec::<Markup>::new());
    registry.push(plain("one", 1));
    registry.push(plain("two", 2));
    registry.push(plain("three", 3));
    assert_eq!(registry.len(), 3);
    assert_eq!(registry.render(), vec![p_node("", "one"), p_node("", "two"), p_node("", "three")]);
}

#[test]
fn registries_are_equal_by_the_tokens_in_order() {
    let mut left = ElementRegistry::new();
    let mut right = ElementRegistry::new();
    assert!(left == right);
    left.push(plain("one", 1));
    assert!(left != right);
    right.push(plain("uno", 1));
    assert!(left == right);
    left.push(plain("two", 2));
    right.push(plain("two", 3));
    assert!(left != right);
    let mut swapped = ElementRegistry::new();
    swapped.push(plain("two", 2));
    swapped.push(plain("one", 1));
    assert!(left != swapped);
}
