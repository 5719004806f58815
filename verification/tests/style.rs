use page_elements::style::Style;

fn style(color: Option<&str>, background_color: Option<&str>) -> Style {
    Style {
        color: color.map(String::from),
        background_color: background_color.map(String::from),
    }
}

#[test]
fn css_of_both_colors_puts_background_first() {
    let css = style(Some("#222222"), Some("#666666")).to_css();
    assert_eq!(css, "background-color:#666666;color:#222222;");
}

#[test]
fn css_of_background_alone() {
    assert_eq!(style(None, Some("red")).to_css(), "background-color:red;");
}

#[test]
fn css_of_color_alone() {
    assert_eq!(style(Some("blue"), None).to_css(), "color:blue;");
}

#[test]
fn css_of_no_color_is_empty() {
    assert_eq!(style(None, None).to_css(), "");
    assert_eq!(Style::default().to_css(), "");
}

#[test]
fn css_is_the_same_on_every_call() {
    let s = style(Some("a"), Some("b"));
    assert_eq!(s.to_css(), s.to_css());
    assert_eq!(s.to_css(), s.clone().to_css());
}

#[test]
fn css_takes_the_values_as_they_are() {
    assert_eq!(style(Some(""), Some("")).to_css(), "background-color:;color:;");
    assert_eq!(
        style(Some("rgb(1, 2, 3)"), Some("color:x")).to_css(),
        "background-color:color:x;color:rgb(1, 2, 3);"
    );
}

#[test]
fn with_background_color_replaces_it_and_keeps_the_color() {
    let before = style(Some("#222222"), Some("#666666"));
    let after = before.with_background_color(Some("#000000".to_string()));
    assert_eq!(after.background_color, Some("#000000".to_string()));
    assert_eq!(after.color, Some("#222222".to_string()));
    assert_eq!(after.to_css(), "background-color:#000000;color:#222222;");
}

#[test]
fn with_background_color_leaves_the_receiver_alone() {
    let before = style(Some("#222222"), Some("#666666"));
    let _ = before.with_background_color(None);
    assert_eq!(before, style(Some("#222222"), Some("#666666")));
}

#[test]
fn with_background_color_none_takes_it_away() {
    let after = style(Some("#222222"), Some("#666666")).with_background_color(None);
    assert_eq!(after.background_color, None);
    assert_eq!(after.color, Some("#222222".to_string()));
    assert_eq!(after.to_css(), "color:#222222;");
}

#[test]
fn with_background_color_on_a_style_without_colors() {
    let after = Style::default().with_background_color(Some("red".to_string()));
    assert_eq!(after, style(None, Some("red")));
}

#[test]
fn default_style_has_no_colors() {
    let s = Style::default();
    assert_eq!(s.color, None);
    assert_eq!(s.background_color, None);
}

#[test]
fn styles_are_equal_by_their_colors() {
    assert_eq!(style(Some("a"), Some("b")), style(Some("a"), Some("b")));
    assert_ne!(style(Some("a"), Some("b")), style(Some("a"), Some("c")));
    assert_ne!(style(Some("a"), Some("b")), style(Some("c"), Some("b")));
    assert_ne!(style(Some("a"), None), style(None, Some("a")));
    assert_ne!(style(None, None), style(Some(""), None));
    assert_eq!(style(None, None), Style::default());
}

#[test]
fn clone_of_a_style_is_equal_to_it() {
    let s = style(Some("a"), None);
    assert_eq!(s.clone(), s);
}
