//! What can be said about the look and the layout of one element.
//!
//! A [`Style`] starts with nothing set and is refined step by step; each step
//! sets the fields it is named after and leaves every other field alone.

use crate::theme::Hsla;
use vstd::prelude::*;

verus! {

/// An extent: a place on the spacing scale, or all of the parent.
#[derive(Clone, Copy, Debug, PartialEq, Eq, Hash, Structural)]
pub enum Length {
    /// A place on the spacing scale, counted in half steps, so that the steps
    /// between the whole ones (such as three and a half) have a number too.
    Scale { half_steps: u32 },
    /// The whole extent of the parent.
    Full,
}

/// How far the corners of an element are rounded.
#[derive(Clone, Copy, Debug, PartialEq, Eq, Hash, Structural)]
pub enum Radius {
    Sm,
    Md,
    Lg,
    /// All the way: a square becomes a circle.
    Full,
}

/// How an element lays out its children.
#[derive(Clone, Copy, Debug, PartialEq, Eq, Hash, Structural)]
pub enum Display {
    Block,
    Flex,
}

/// The main axis of a flex container.
#[derive(Clone, Copy, Debug, PartialEq, Eq, Hash, Structural)]
pub enum FlexDirection {
    Row,
    Column,
}

/// Where children sit on the cross axis.
#[derive(Clone, Copy, Debug, PartialEq, Eq, Hash, Structural)]
pub enum AlignItems {
    Start,
    Center,
    End,
}

/// How children are spread over the main axis.
#[derive(Clone, Copy, Debug, PartialEq, Eq, Hash, Structural)]
pub enum JustifyContent {
    Start,
    Center,
    End,
    SpaceBetween,
}

/// A named text size.
#[derive(Clone, Copy, Debug, PartialEq, Eq, Hash, Structural)]
pub enum TextSize {
    Xs,
    Sm,
    Base,
    Lg,
    Xl,
}

/// Names one scroll position that the host keeps.
///
/// The library never reads or moves the position. It only says which element
/// scrolls by it, so a name is all it holds.
#[derive(Clone, Copy, Debug, PartialEq, Eq, Hash, Structural)]
pub struct ScrollState {
    pub id: u64,
}

impl Default for ScrollState {
    fn default() -> (state: ScrollState)
        ensures
            state == (ScrollState { id: 0 }),
    {
        ScrollState { id: 0 }
    }
}

/// What an element does with content that is taller than itself.
#[derive(Clone, Copy, Debug, PartialEq, Eq, Hash, Structural)]
pub enum Overflow {
    /// The content is shown as it is.
    Visible,
    /// The element scrolls, by the position that the state names.
    Scroll(ScrollState),
}

/// The style of one element.
#[derive(Debug, PartialEq, Eq)]
pub struct Style {
    pub display: Display,
    pub flex_direction: FlexDirection,
    pub align_items: Option<AlignItems>,
    pub justify_content: Option<JustifyContent>,
    pub gap: Option<Length>,
    pub width: Option<Length>,
    pub height: Option<Length>,
    pub padding_top: Option<Length>,
    pub padding_right: Option<Length>,
    pub padding_bottom: Option<Length>,
    pub padding_left: Option<Length>,
    pub border_top: bool,
    pub border_right: bool,
    pub border_bottom: bool,
    pub border_left: bool,
    pub border_color: Option<Hsla>,
    pub fill: Option<Hsla>,
    pub corner_radius: Option<Radius>,
    pub overflow_y: Overflow,
    pub text_color: Option<Hsla>,
    pub text_size: Option<TextSize>,
    pub font_family: Option<String>,
}

/// A [`Style`] as a mathematical value: the same fields, with the font's name
/// as a sequence of characters.
pub struct StyleView {
    pub display: Display,
    pub flex_direction: FlexDirection,
    pub align_items: Option<AlignItems>,
    pub justify_content: Option<JustifyContent>,
    pub gap: Option<Length>,
    pub width: Option<Length>,
    pub height: Option<Length>,
    pub padding_top: Option<Length>,
    pub padding_right: Option<Length>,
    pub padding_bottom: Option<Length>,
    pub padding_left: Option<Length>,
    pub border_top: bool,
    pub border_right: bool,
    pub border_bottom: bool,
    pub border_left: bool,
    pub border_color: Option<Hsla>,
    pub fill: Option<Hsla>,
    pub corner_radius: Option<Radius>,
    pub overflow_y: Overflow,
    pub text_color: Option<Hsla>,
    pub text_size: Option<TextSize>,
    pub font_family: Option<Seq<char>>,
}

impl StyleView {
    /// The style in which nothing is set: a block that is as large as its
    /// content, without padding, border, colours or font, and does not scroll.
    pub open spec fn unset() -> StyleView {
        StyleView {
            display: Display::Block,
            flex_direction: FlexDirection::Row,
            align_items: None,
            justify_content: None,
            gap: None,
            width: None,
            height: None,
            padding_top: None,
            padding_right: None,
            padding_bottom: None,
            padding_left: None,
            border_top: false,
            border_right: false,
            border_bottom: false,
            border_left: false,
            border_color: None,
            fill: None,
            corner_radius: None,
            overflow_y: Overflow::Visible,
            text_color: None,
            text_size: None,
            font_family: None,
        }
    }

    /// Whether the element is as wide as it is high, both being set.
    pub open spec fn is_square(self) -> bool {
        self.width is Some && self.width == self.height
    }

    /// Whether the element scrolls.
    pub open spec fn scrolls(self) -> bool {
        self.overflow_y is Scroll
    }
}

impl View for Style {
    type V = StyleView;

    open spec fn view(&self) -> StyleView {
        StyleView {
            display: self.display,
            flex_direction: self.flex_direction,
            align_items: self.align_items,
            justify_content: self.justify_content,
            gap: self.gap,
            width: self.width,
            height: self.height,
            padding_top: self.padding_top,
            padding_right: self.padding_right,
            padding_bottom: self.padding_bottom,
            padding_left: self.padding_left,
            border_top: self.border_top,
            border_right: self.border_right,
            border_bottom: self.border_bottom,
            border_left: self.border_left,
            border_color: self.border_color,
            fill: self.fill,
            corner_radius: self.corner_radius,
            overflow_y: self.overflow_y,
            text_color: self.text_color,
            text_size: self.text_size,
            font_family: match self.font_family {
                Some(name) => Some(name@),
                None => None,
            },
        }
    }
}

impl Style {
    /// The style in which nothing is set.
    pub fn new() -> (style: Style)
        ensures
            style@ == StyleView::unset(),
    {
        Style {
            display: Display::Block,
            flex_direction: FlexDirection::Row,
            align_items: None,
            justify_content: None,
            gap: None,
            width: None,
            height: None,
            padding_top: None,
            padding_right: None,
            padding_bottom: None,
            padding_left: None,
            border_top: false,
            border_right: false,
            border_bottom: false,
            border_left: false,
            border_color: None,
            fill: None,
            corner_radius: None,
            overflow_y: Overflow::Visible,
            text_color: None,
            text_size: None,
            font_family: None,
        }
    }

    /// Width: step 64 of the scale.
    pub fn w_64(self) -> (style: Style)
        ensures
            style@ == (StyleView { width: Some(Length::Scale { half_steps: 128 }), ..self@ }),
    {
        Style { width: Some(Length::Scale { half_steps: 128 }), ..self }
    }

    /// Width: step three and a half of the scale.
    pub fn w_3p5(self) -> (style: Style)
        ensures
            style@ == (StyleView { width: Some(Length::Scale { half_steps: 7 }), ..self@ }),
    {
        Style { width: Some(Length::Scale { half_steps: 7 }), ..self }
    }

    /// Width: all of the parent's.
    pub fn w_full(self) -> (style: Style)
        ensures
            style@ == (StyleView { width: Some(Length::Full), ..self@ }),
    {
        Style { width: Some(Length::Full), ..self }
    }

    /// Height: step 7 of the scale.
    pub fn h_7(self) -> (style: Style)
        ensures
            style@ == (StyleView { height: Some(Length::Scale { half_steps: 14 }), ..self@ }),
    {
        Style { height: Some(Length::Scale { half_steps: 14 }), ..self }
    }

    /// Height: step three and a half of the scale.
    pub fn h_3p5(self) -> (style: Style)
        ensures
            style@ == (StyleView { height: Some(Length::Scale { half_steps: 7 }), ..self@ }),
    {
        Style { height: Some(Length::Scale { half_steps: 7 }), ..self }
    }

    /// Height: all of the parent's.
    pub fn h_full(self) -> (style: Style)
        ensures
            style@ == (StyleView { height: Some(Length::Full), ..self@ }),
    {
        Style { height: Some(Length::Full), ..self }
    }

    /// Width and height: step three and a half of the scale.
    pub fn size_3p5(self) -> (style: Style)
        ensures
            style@ == (StyleView {
                width: Some(Length::Scale { half_steps: 7 }),
                height: Some(Length::Scale { half_steps: 7 }),
                ..self@
            }),
    {
        Style {
            width: Some(Length::Scale { half_steps: 7 }),
            height: Some(Length::Scale { half_steps: 7 }),
            ..self
        }
    }

    /// Padding left and right: step 2 of the scale.
    pub fn px_2(self) -> (style: Style)
        ensures
            style@ == (StyleView {
                padding_left: Some(Length::Scale { half_steps: 4 }),
                padding_right: Some(Length::Scale { half_steps: 4 }),
                ..self@
            }),
    {
        Style {
            padding_left: Some(Length::Scale { half_steps: 4 }),
            padding_right: Some(Length::Scale { half_steps: 4 }),
            ..self
        }
    }

    /// Padding above and below: step 2 of the scale.
    pub fn py_2(self) -> (style: Style)
        ensures
            style@ == (StyleView {
                padding_top: Some(Length::Scale { half_steps: 4 }),
                padding_bottom: Some(Length::Scale { half_steps: 4 }),
                ..self@
            }),
    {
        Style {
            padding_top: Some(Length::Scale { half_steps: 4 }),
            padding_bottom: Some(Length::Scale { half_steps: 4 }),
            ..self
        }
    }

    /// Padding below: step 1 of the scale.
    pub fn pb_1(self) -> (style: Style)
        ensures
            style@ == (StyleView { padding_bottom: Some(Length::Scale { half_steps: 2 }), ..self@ }),
    {
        Style { padding_bottom: Some(Length::Scale { half_steps: 2 }), ..self }
    }

    /// Space between children: step 1 of the scale.
    pub fn gap_1(self) -> (style: Style)
        ensures
            style@ == (StyleView { gap: Some(Length::Scale { half_steps: 2 }), ..self@ }),
    {
        Style { gap: Some(Length::Scale { half_steps: 2 }), ..self }
    }

    /// Lays the children out as a flex container does.
    pub fn flex(self) -> (style: Style)
        ensures
            style@ == (StyleView { display: Display::Flex, ..self@ }),
    {
        Style { display: Display::Flex, ..self }
    }

    /// Main axis: from top to bottom.
    pub fn flex_col(self) -> (style: Style)
        ensures
            style@ == (StyleView { flex_direction: FlexDirection::Column, ..self@ }),
    {
        Style { flex_direction: FlexDirection::Column, ..self }
    }

    /// Children sit in the middle of the cross axis.
    pub fn items_center(self) -> (style: Style)
        ensures
            style@ == (StyleView { align_items: Some(AlignItems::Center), ..self@ }),
    {
        Style { align_items: Some(AlignItems::Center), ..self }
    }

    /// The first child sits at the start of the main axis, the last at its
    /// end, the free space between them.
    pub fn justify_between(self) -> (style: Style)
        ensures
            style@ == (StyleView { justify_content: Some(JustifyContent::SpaceBetween), ..self@ }),
    {
        Style { justify_content: Some(JustifyContent::SpaceBetween), ..self }
    }

    /// A border on all four sides.
    pub fn border(self) -> (style: Style)
        ensures
            style@ == (StyleView {
                border_top: true,
                border_right: true,
                border_bottom: true,
                border_left: true,
                ..self@
            }),
    {
        Style { border_top: true, border_right: true, border_bottom: true, border_left: true, ..self }
    }

    /// A border above.
    pub fn border_t(self) -> (style: Style)
        ensures
            style@ == (StyleView { border_top: true, ..self@ }),
    {
        Style { border_top: true, ..self }
    }

    /// A border below.
    pub fn border_b(self) -> (style: Style)
        ensures
            style@ == (StyleView { border_bottom: true, ..self@ }),
    {
        Style { border_bottom: true, ..self }
    }

    /// The colour of the border.
    pub fn border_color(self, color: Hsla) -> (style: Style)
        ensures
            style@ == (StyleView { border_color: Some(color), ..self@ }),
    {
        Style { border_color: Some(color), ..self }
    }

    /// The colour that the element is filled with.
    pub fn fill(self, color: Hsla) -> (style: Style)
        ensures
            style@ == (StyleView { fill: Some(color), ..self@ }),
    {
        Style { fill: Some(color), ..self }
    }

    /// Corners rounded all the way.
    pub fn rounded_full(self) -> (style: Style)
        ensures
            style@ == (StyleView { corner_radius: Some(Radius::Full), ..self@ }),
    {
        Style { corner_radius: Some(Radius::Full), ..self }
    }

    /// Content that is too tall scrolls, by the position that `state` names.
    pub fn overflow_y_scroll(self, state: ScrollState) -> (style: Style)
        ensures
            style@ == (StyleView { overflow_y: Overflow::Scroll(state), ..self@ }),
    {
        Style { overflow_y: Overflow::Scroll(state), ..self }
    }

    /// The colour of the text.
    pub fn text_color(self, color: Hsla) -> (style: Style)
        ensures
            style@ == (StyleView { text_color: Some(color), ..self@ }),
    {
        Style { text_color: Some(color), ..self }
    }

    /// Small text.
    pub fn text_sm(self) -> (style: Style)
        ensures
            style@ == (StyleView { text_size: Some(TextSize::Sm), ..self@ }),
    {
        Style { text_size: Some(TextSize::Sm), ..self }
    }

    /// The font, by its family's name.
    pub fn font(self, family: &str) -> (style: Style)
        ensures
            style@ == (StyleView { font_family: Some(family@), ..self@ }),
    {
        Style { font_family: Some(family.to_owned()), ..self }
    }
}

} // verus!
