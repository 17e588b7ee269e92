use storybook2::style::{
    AlignItems, Display, FlexDirection, JustifyContent, Length, Overflow, Radius, ScrollState,
    Style, TextSize,
};
use storybook2::theme::Hsla;

fn unset() -> Style {
    Style {
        display: Display::Block,
        flex_direction: FlexDirection::Row,
        align_items: None,
        justify_content: None,
        gap: None,
        width: None,
        height: None,
        padding_top: None,
        padding_right: None,
        padding_bottom: None,
        padding_left: None,
        border_top: false,
        border_right: false,
        border_bottom: false,
        border_left: false,
        border_color: None,
        fill: None,
        corner_radius: None,
        overflow_y: Overflow::Visible,
        text_color: None,
        text_size: None,
        font_family: None,
    }
}

fn scale(half_steps: u32) -> Option<Length> {
    Some(Length::Scale { half_steps })
}

fn red() -> Hsla {
    Hsla { h: 0.0f32.to_bits(), s: 1.0f32.to_bits(), l: 0.5f32.to_bits(), a: 1.0f32.to_bits() }
}

fn blue() -> Hsla {
    Hsla { h: 0.66f32.to_bits(), s: 1.0f32.to_bits(), l: 0.5f32.to_bits(), a: 0.5f32.to_bits() }
}

#[test]
fn new_style_has_nothing_set() {
    assert_eq!(Style::new(), unset());
}

#[test]
fn default_scroll_state_is_the_first() {
    assert_eq!(ScrollState::default(), ScrollState { id: 0 });
}

#[test]
fn widths_set_the_width_alone() {
    assert_eq!(Style::new().w_64(), Style { width: scale(128), ..unset() });
    assert_eq!(Style::new().w_3p5(), Style { width: scale(7), ..unset() });
    assert_eq!(Style::new().w_full(), Style { width: Some(Length::Full), ..unset() });
}

#[test]
fn heights_set_the_height_alone() {
    assert_eq!(Style::new().h_7(), Style { height: scale(14), ..unset() });
    assert_eq!(Style::new().h_3p5(), Style { height: scale(7), ..unset() });
    assert_eq!(Style::new().h_full(), Style { height: Some(Length::Full), ..unset() });
}

#[test]
fn size_sets_width_and_height() {
    assert_eq!(Style::new().size_3p5(), Style { width: scale(7), height: scale(7), ..unset() });
    assert_eq!(Style::new().size_3p5(), Style::new().w_3p5().h_3p5());
}

#[test]
fn paddings_set_their_sides() {
    assert_eq!(
        Style::new().px_2(),
        Style { padding_left: scale(4), padding_right: scale(4), ..unset() }
    );
    assert_eq!(
        Style::new().py_2(),
        Style { padding_top: scale(4), padding_bottom: scale(4), ..unset() }
    );
    assert_eq!(Style::new().pb_1(), Style { padding_bottom: scale(2), ..unset() });
    assert_eq!(Style::new().py_2().pb_1(), Style { padding_top: scale(4), padding_bottom: scale(2), ..unset() });
}

#[test]
fn gap_sets_the_gap() {
    assert_eq!(Style::new().gap_1(), Style { gap: scale(2), ..unset() });
}

#[test]
fn flex_settings_set_their_fields() {
    assert_eq!(Style::new().flex(), Style { display: Display::Flex, ..unset() });
    assert_eq!(Style::new().flex_col(), Style { flex_direction: FlexDirection::Column, ..unset() });
    assert_eq!(
        Style::new().items_center(),
        Style { align_items: Some(AlignItems::Center), ..unset() }
    );
    assert_eq!(
        Style::new().justify_between(),
        Style { justify_content: Some(JustifyContent::SpaceBetween), ..unset() }
    );
}

#[test]
fn borders_set_their_sides() {
    assert_eq!(
        Style::new().border(),
        Style {
            border_top: true,
            border_right: true,
            border_bottom: true,
            border_left: true,
            ..unset()
        }
    );
    assert_eq!(Style::new().border_t(), Style { border_top: true, ..unset() });
    assert_eq!(Style::new().border_b(), Style { border_bottom: true, ..unset() });
}

#[test]
fn colours_go_where_they_are_put() {
    assert_eq!(Style::new().border_color(red()), Style { border_color: Some(red()), ..unset() });
    assert_eq!(Style::new().fill(red()), Style { fill: Some(red()), ..unset() });
    assert_eq!(Style::new().text_color(red()), Style { text_color: Some(red()), ..unset() });
    assert_eq!(
        Style::new().fill(red()).text_color(blue()).fill(blue()),
        Style { fill: Some(blue()), text_color: Some(blue()), ..unset() }
    );
}

#[test]
fn colour_channels_keep_their_bits() {
    let color = blue();
    assert_eq!(f32::from_bits(color.h), 0.66f32);
    assert_eq!(f32::from_bits(color.a), 0.5f32);
    match Style::new().fill(color).fill {
        Some(kept) => assert_eq!(kept, color),
        None => panic!("the fill is not set"),
    }
}

#[test]
fn text_settings_set_their_fields() {
    assert_eq!(Style::new().text_sm(), Style { text_size: Some(TextSize::Sm), ..unset() });
    assert_eq!(
        Style::new().font("Courier"),
        Style { font_family: Some("Courier".to_string()), ..unset() }
    );
}

#[test]
fn rounded_full_rounds_all_the_way() {
    assert_eq!(Style::new().rounded_full(), Style { corner_radius: Some(Radius::Full), ..unset() });
}

#[test]
fn overflow_y_scroll_binds_the_state() {
    assert_eq!(
        Style::new().overflow_y_scroll(ScrollState { id: 5 }),
        Style { overflow_y: Overflow::Scroll(ScrollState { id: 5 }), ..unset() }
    );
}

#[test]
fn later_settings_keep_earlier_ones() {
    let style = Style::new().h_7().px_2().flex().items_center();
    assert_eq!(
        style,
        Style {
            display: Display::Flex,
            height: scale(14),
            padding_left: scale(4),
            padding_right: scale(4),
            align_items: Some(AlignItems::Center),
            ..unset()
        }
    );
    assert_eq!(Style::new().border_color(red()).border(), Style::new().border().border_color(red()));
}
