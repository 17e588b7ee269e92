use storybook2::element::{div, img, svg, text, Element};
use storybook2::style::Style;

#[test]
fn div_starts_without_children() {
    assert_eq!(div(Style::new()), Element::Div { style: Style::new(), children: vec![] });
    assert_eq!(
        div(Style::new().flex()),
        Element::Div { style: Style::new().flex(), children: vec![] }
    );
}

#[test]
fn img_svg_and_text_hold_what_they_are_given() {
    assert_eq!(
        img(Style::new().rounded_full(), "http://github.com/as-cii.png?s=50"),
        Element::Img {
            style: Style::new().rounded_full(),
            uri: "http://github.com/as-cii.png?s=50".to_string(),
        }
    );
    assert_eq!(
        svg(Style::new().w_3p5(), "icons/radix/caret-up.svg"),
        Element::Svg { style: Style::new().w_3p5(), path: "icons/radix/caret-up.svg".to_string() }
    );
    assert_eq!(text("Find..."), Element::Text { content: "Find...".to_string() });
    assert_eq!(text(""), Element::Text { content: String::new() });
}

#[test]
fn child_goes_after_the_children_that_are_there() {
    let built = div(Style::new()).child(text("a")).child(text("b")).child(div(Style::new()));
    assert_eq!(
        built,
        Element::Div {
            style: Style::new(),
            children: vec![text("a"), text("b"), div(Style::new())],
        }
    );
}

#[test]
fn children_go_after_the_children_that_are_there() {
    let built = div(Style::new().flex_col())
        .child(text("a"))
        .children(vec![text("b"), text("c")])
        .children(vec![])
        .child(text("d"));
    assert_eq!(
        built,
        Element::Div {
            style: Style::new().flex_col(),
            children: vec![text("a"), text("b"), text("c"), text("d")],
        }
    );
}

#[test]
fn only_a_box_takes_children() {
    assert_eq!(text("a").child(text("b")), text("a"));
    assert_eq!(
        img(Style::new(), "u").child(text("b")).children(vec![text("c")]),
        img(Style::new(), "u")
    );
    assert_eq!(svg(Style::new(), "p").children(vec![text("c")]), svg(Style::new(), "p"));
}
