//! The collaboration panel: a scrolling list of sections and, below it, a
//! search bar.
//!
//! [`CollabPanel::render`] builds the panel as an [`Element`] from a theme.
//! What it builds is [`panel_tree`], which this file states as a value, part by
//! part, and about which it proves what a reader may want to rely on.

use crate::element::{
    div, img, lemma_regions_of_one_child, lemma_regions_of_still_children, svg, text, views, Element,
    ElementView,
};
use crate::style::{
    AlignItems, Display, FlexDirection, JustifyContent, Length, Overflow, Radius, ScrollState,
    Style, StyleView, TextSize,
};
use crate::theme::Theme;
use vstd::prelude::*;

verus! {

/// How often the cycle of sample contacts is shown.
pub const CONTACT_REPETITIONS: usize = 10;

/// The state of one collaboration panel: the name of its scroll position.
#[derive(Clone, Copy, Debug, PartialEq, Eq, Structural)]
pub struct CollabPanel {
    pub scroll_state: ScrollState,
}

/// The asset path of the caret that a section header shows: the caret that
/// points down while the section is expanded, the one that points up while it
/// is collapsed.
pub open spec fn caret_icon(expanded: bool) -> Seq<char> {
    if expanded {
        "icons/radix/caret-down.svg"@
    } else {
        "icons/radix/caret-up.svg"@
    }
}

/// The caret of a section header: a small icon in the theme's muted
/// foreground.
pub open spec fn header_caret(expanded: bool, theme: Theme) -> ElementView {
    ElementView::Svg {
        style: StyleView {
            width: Some(Length::Scale { half_steps: 7 }),
            height: Some(Length::Scale { half_steps: 7 }),
            fill: Some(theme.middle.variant.default.foreground),
            ..StyleView::unset()
        },
        path: caret_icon(expanded),
    }
}

/// The left part of a section header: the label, in small text.
pub open spec fn header_label_box(label: Seq<char>) -> ElementView {
    ElementView::Div {
        style: StyleView {
            display: Display::Flex,
            gap: Some(Length::Scale { half_steps: 2 }),
            text_size: Some(TextSize::Sm),
            ..StyleView::unset()
        },
        children: seq![ElementView::Text { content: label }],
    }
}

/// The right part of a section header: the caret, centred over the header's
/// height.
pub open spec fn header_caret_box(expanded: bool, theme: Theme) -> ElementView {
    ElementView::Div {
        style: StyleView {
            display: Display::Flex,
            height: Some(Length::Full),
            gap: Some(Length::Scale { half_steps: 2 }),
            align_items: Some(AlignItems::Center),
            ..StyleView::unset()
        },
        children: seq![header_caret(expanded, theme)],
    }
}

/// The header of a section: a row of fixed height with the label at its left
/// end and the caret at its right end.
pub open spec fn header_tree(label: Seq<char>, expanded: bool, theme: Theme) -> ElementView {
    ElementView::Div {
        style: StyleView {
            display: Display::Flex,
            height: Some(Length::Scale { half_steps: 14 }),
            padding_left: Some(Length::Scale { half_steps: 4 }),
            padding_right: Some(Length::Scale { half_steps: 4 }),
            justify_content: Some(JustifyContent::SpaceBetween),
            align_items: Some(AlignItems::Center),
            ..StyleView::unset()
        },
        children: seq![header_label_box(label), header_caret_box(expanded, theme)],
    }
}

/// The avatar of a list row: a small square image, rounded to a circle, under
/// the theme's positive foreground.
pub open spec fn item_avatar(avatar_uri: Seq<char>, theme: Theme) -> ElementView {
    ElementView::Img {
        style: StyleView {
            width: Some(Length::Scale { half_steps: 7 }),
            height: Some(Length::Scale { half_steps: 7 }),
            corner_radius: Some(Radius::Full),
            fill: Some(theme.middle.positive.default.foreground),
            ..StyleView::unset()
        },
        uri: avatar_uri,
    }
}

/// What a list row holds: the avatar and, after it, the label, in small text.
pub open spec fn item_content(avatar_uri: Seq<char>, label: Seq<char>, theme: Theme) -> ElementView {
    ElementView::Div {
        style: StyleView {
            display: Display::Flex,
            align_items: Some(AlignItems::Center),
            gap: Some(Length::Scale { half_steps: 2 }),
            text_size: Some(TextSize::Sm),
            ..StyleView::unset()
        },
        children: seq![item_avatar(avatar_uri, theme), ElementView::Text { content: label }],
    }
}

/// One row of a list: a row of fixed height around its content.
pub open spec fn item_tree(avatar_uri: Seq<char>, label: Seq<char>, theme: Theme) -> ElementView {
    ElementView::Div {
        style: StyleView {
            display: Display::Flex,
            height: Some(Length::Scale { half_steps: 14 }),
            padding_left: Some(Length::Scale { half_steps: 4 }),
            padding_right: Some(Length::Scale { half_steps: 4 }),
            align_items: Some(AlignItems::Center),
            ..StyleView::unset()
        },
        children: seq![item_content(avatar_uri, label, theme)],
    }
}

/// The address of the avatar of the sample contact in row `i`: three contacts
/// take turns.
pub open spec fn contact_avatar(i: int) -> Seq<char> {
    if i % 3 == 0 {
        "http://github.com/as-cii.png?s=50"@
    } else if i % 3 == 1 {
        "http://github.com/nathansobo.png?s=50"@
    } else {
        "http://github.com/maxbrunsfeld.png?s=50"@
    }
}

/// The name of the sample contact in row `i`.
pub open spec fn contact_label(i: int) -> Seq<char> {
    if i % 3 == 0 {
        "as-cii"@
    } else if i % 3 == 1 {
        "nathansobo"@
    } else {
        "maxbrunsfeld"@
    }
}

/// The rows of the contacts section: the three sample contacts, in turn, as
/// often as [`CONTACT_REPETITIONS`] says.
pub open spec fn contact_rows(theme: Theme) -> Seq<ElementView> {
    Seq::new(
        3 * CONTACT_REPETITIONS as nat,
        |i: int| item_tree(contact_avatar(i), contact_label(i), theme),
    )
}

/// The style of a section below the pinned block.
pub open spec fn section_style() -> StyleView {
    StyleView {
        display: Display::Flex,
        flex_direction: FlexDirection::Column,
        padding_top: Some(Length::Scale { half_steps: 4 }),
        padding_bottom: Some(Length::Scale { half_steps: 4 }),
        ..StyleView::unset()
    }
}

/// The pinned block: on the theme's lowest elevation, closed by a border
/// below, the header of the sample channel over one sample contact.
pub open spec fn pinned_block(theme: Theme) -> ElementView {
    ElementView::Div {
        style: StyleView {
            fill: Some(theme.lowest.base.default.background),
            padding_bottom: Some(Length::Scale { half_steps: 2 }),
            border_color: Some(theme.lowest.base.default.border),
            border_bottom: true,
            ..StyleView::unset()
        },
        children: seq![
            header_tree("#CRDB 🗃️"@, true, theme),
            item_tree("http://github.com/maxbrunsfeld.png?s=50"@, "maxbrunsfeld"@, theme),
        ],
    }
}

/// The channels section: its header, and no rows.
pub open spec fn channels_section(theme: Theme) -> ElementView {
    ElementView::Div {
        style: section_style(),
        children: seq![header_tree("CHANNELS"@, true, theme)],
    }
}

/// The contacts section: its header, then the rows of the sample contacts.
pub open spec fn contacts_section(theme: Theme) -> ElementView {
    ElementView::Div {
        style: section_style(),
        children: seq![header_tree("CONTACTS"@, true, theme)] + contact_rows(theme),
    }
}

/// The body of the panel: the three blocks, one below the other, in a box
/// that scrolls by the position that `scroll_state` names.
pub open spec fn scroll_body(scroll_state: ScrollState, theme: Theme) -> ElementView {
    ElementView::Div {
        style: StyleView {
            display: Display::Flex,
            flex_direction: FlexDirection::Column,
            width: Some(Length::Full),
            overflow_y: Overflow::Scroll(scroll_state),
            ..StyleView::unset()
        },
        children: seq![pinned_block(theme), channels_section(theme), contacts_section(theme)],
    }
}

/// The words in the search bar.
pub open spec fn footer_label(theme: Theme) -> ElementView {
    ElementView::Div {
        style: StyleView {
            text_size: Some(TextSize::Sm),
            text_color: Some(theme.middle.variant.default.foreground),
            ..StyleView::unset()
        },
        children: seq![ElementView::Text { content: "Find..."@ }],
    }
}

/// The search bar: a row of fixed height under a border, with its words.
pub open spec fn footer(theme: Theme) -> ElementView {
    ElementView::Div {
        style: StyleView {
            display: Display::Flex,
            height: Some(Length::Scale { half_steps: 14 }),
            padding_left: Some(Length::Scale { half_steps: 4 }),
            padding_right: Some(Length::Scale { half_steps: 4 }),
            border_top: true,
            border_color: Some(theme.middle.variant.default.border),
            align_items: Some(AlignItems::Center),
            ..StyleView::unset()
        },
        children: seq![footer_label(theme)],
    }
}

/// The whole panel: a column of fixed width and full height, bordered and
/// filled from the theme's middle elevation and set in Courier, with the
/// scrolling body above the search bar.
pub open spec fn panel_tree(scroll_state: ScrollState, theme: Theme) -> ElementView {
    ElementView::Div {
        style: StyleView {
            display: Display::Flex,
            flex_direction: FlexDirection::Column,
            width: Some(Length::Scale { half_steps: 128 }),
            height: Some(Length::Full),
            font_family: Some("Courier"@),
            text_color: Some(theme.middle.base.default.foreground),
            border_color: Some(theme.middle.base.default.border),
            border_top: true,
            border_right: true,
            border_bottom: true,
            border_left: true,
            fill: Some(theme.middle.base.default.background),
            ..StyleView::unset()
        },
        children: seq![scroll_body(scroll_state, theme), footer(theme)],
    }
}

/// Whether two themes agree in the eight colours that the panel reads: on
/// the lowest elevation the base background and border, on the middle one the
/// base foreground, border and background, the muted foreground and border,
/// and the positive foreground, each in its default state.
pub open spec fn same_where_read(theme: Theme, other: Theme) -> bool {
    &&& theme.lowest.base.default.background == other.lowest.base.default.background
    &&& theme.lowest.base.default.border == other.lowest.base.default.border
    &&& theme.middle.base.default == other.middle.base.default
    &&& theme.middle.variant.default.foreground == other.middle.variant.default.foreground
    &&& theme.middle.variant.default.border == other.middle.variant.default.border
    &&& theme.middle.positive.default.foreground == other.middle.positive.default.foreground
}

/// The asset path of the caret that a section header shows, if `header` has
/// the shape of one.
pub open spec fn caret_path(header: ElementView) -> Option<Seq<char>> {
    match header.child(1).child(0) {
        ElementView::Svg { path, .. } => Some(path),
        _ => None,
    }
}

/// Whether `element` is a list row of the given theme, whatever its avatar and
/// label.
pub open spec fn is_item_row(element: ElementView, theme: Theme) -> bool {
    exists|avatar_uri: Seq<char>, label: Seq<char>|
        element == item_tree(avatar_uri, label, theme)
}

impl CollabPanel {
    /// A panel whose list has not been scrolled.
    pub fn new() -> (panel: CollabPanel)
        ensures
            panel.scroll_state == (ScrollState { id: 0 }),
    {
        CollabPanel { scroll_state: ScrollState::default() }
    }

    /// Builds the panel for the given theme: one box around the scrolling
    /// body, with its three blocks, and the search bar. Of all its elements
    /// only the body scrolls, and the third block holds its header and the
    /// rows of the sample contacts. The panel's own state stays as it is.
    pub fn render(&mut self, theme: &Theme) -> (panel: Element)
        ensures
            *final(self) == *old(self),
            panel@ == panel_tree(old(self).scroll_state, *theme),
            panel@.children().len() == 2,
            panel@.child(0).style().overflow_y == Overflow::Scroll(old(self).scroll_state),
            panel@.child(0).children().len() == 3,
            panel@.child(0).child(2).children().len() == 1 + 3 * CONTACT_REPETITIONS,
            panel@.scroll_regions() == 1,
    {
        proof {
            lemma_panel_layout(self.scroll_state, *theme);
            lemma_contacts_rows(*theme);
        }
        let pinned = div(
            Style::new().fill(theme.lowest.base.default.background).pb_1().border_color(
                theme.lowest.base.default.border,
            ).border_b(),
        ).child(self.list_section_header("#CRDB 🗃️", true, theme)).child(
            self.list_item("http://github.com/maxbrunsfeld.png?s=50", "maxbrunsfeld", theme),
        );
        assert(pinned@.children() =~= pinned_block(*theme).children());

        let channels = div(Style::new().py_2().flex().flex_col()).child(
            self.list_section_header("CHANNELS", true, theme),
        );

        let mut rows: Vec<Element> = Vec::new();
        let mut round: usize = 0;
        while round < CONTACT_REPETITIONS
            invariant
                round <= CONTACT_REPETITIONS,
                rows@.len() == 3 * round,
                forall|i: int|
                    0 <= i < rows@.len() ==> (#[trigger] rows@[i])@ == item_tree(
                        contact_avatar(i),
                        contact_label(i),
                        *theme,
                    ),
            decreases CONTACT_REPETITIONS - round,
        {
            rows.push(self.list_item("http://github.com/as-cii.png?s=50", "as-cii", theme));
            rows.push(self.list_item("http://github.com/nathansobo.png?s=50", "nathansobo", theme));
            rows.push(
                self.list_item("http://github.com/maxbrunsfeld.png?s=50", "maxbrunsfeld", theme),
            );
            round = round + 1;
        }
        assert(views(rows@) =~= contact_rows(*theme));
        let contacts = div(Style::new().py_2().flex().flex_col()).child(
            self.list_section_header("CONTACTS", true, theme),
        ).children(rows);

        let body = div(
            Style::new().w_full().flex().flex_col().overflow_y_scroll(self.scroll_state),
        ).child(pinned).child(channels).child(contacts);
        assert(body@.children() =~= scroll_body(self.scroll_state, *theme).children());

        let find = div(
            Style::new().text_sm().text_color(theme.middle.variant.default.foreground),
        ).child(text("Find..."));
        let footer = div(
            Style::new().h_7().px_2().border_t().border_color(
                theme.middle.variant.default.border,
            ).flex().items_center(),
        ).child(find);

        let panel = div(
            Style::new().w_64().h_full().flex().flex_col().font("Courier").text_color(
                theme.middle.base.default.foreground,
            ).border_color(theme.middle.base.default.border).border().fill(
                theme.middle.base.default.background,
            ),
        ).child(body).child(footer);
        assert(panel@.children() =~= panel_tree(self.scroll_state, *theme).children());
        panel
    }

    /// The header of a section with the given label. Its caret points down if
    /// the section is expanded and up if it is not.
    pub fn list_section_header(&self, label: &str, expanded: bool, theme: &Theme) -> (header:
        Element)
        ensures
            header@ == header_tree(label@, expanded, *theme),
            caret_path(header@) == Some(caret_icon(expanded)),
    {
        let icon = svg(
            Style::new().w_3p5().h_3p5().fill(theme.middle.variant.default.foreground),
            if expanded {
                "icons/radix/caret-down.svg"
            } else {
                "icons/radix/caret-up.svg"
            },
        );
        let header = div(Style::new().h_7().px_2().flex().justify_between().items_center())
            .child(div(Style::new().flex().gap_1().text_sm()).child(text(label)))
            .child(div(Style::new().flex().h_full().gap_1().items_center()).child(icon));
        assert(header@.children() =~= header_tree(label@, expanded, *theme).children());
        header
    }

    /// The row of one entry: first its avatar, loaded from `avatar_uri`, then
    /// its label. The avatar is square and round, whatever the address.
    pub fn list_item(&self, avatar_uri: &str, label: &str, theme: &Theme) -> (item: Element)
        ensures
            item@ == item_tree(avatar_uri@, label@, *theme),
            item@.child(0).children().len() == 2,
            item@.child(0).child(0) matches ElementView::Img { style, uri } && uri == avatar_uri@
                && style.is_square() && style.corner_radius == Some(Radius::Full),
            item@.child(0).child(1) == (ElementView::Text { content: label@ }),
    {
        let avatar = img(
            Style::new().size_3p5().rounded_full().fill(theme.middle.positive.default.foreground),
            avatar_uri,
        );
        let content = div(Style::new().flex().items_center().gap_1().text_sm()).child(
            avatar,
        ).child(text(label));
        assert(content@.children() =~= item_content(avatar_uri@, label@, *theme).children());
        div(Style::new().h_7().px_2().flex().items_center()).child(content)
    }
}

/// The caret of a section header follows the `expanded` flag and nothing
/// else: an expanded header shows the caret that points down, a collapsed one
/// the caret that points up, these two differ, and two headers show the same
/// caret exactly if their flags agree, whatever their labels and themes.
pub proof fn lemma_caret_follows_flag(
    label: Seq<char>,
    expanded: bool,
    theme: Theme,
    other_label: Seq<char>,
    other_expanded: bool,
    other_theme: Theme,
)
    ensures
        caret_path(header_tree(label, true, theme)) == Some("icons/radix/caret-down.svg"@),
        caret_path(header_tree(label, false, theme)) == Some("icons/radix/caret-up.svg"@),
        caret_icon(true) != caret_icon(false),
        caret_path(header_tree(label, expanded, theme)) == caret_path(
            header_tree(other_label, other_expanded, other_theme),
        ) <==> expanded == other_expanded,
{
    reveal_strlit("icons/radix/caret-down.svg");
    reveal_strlit("icons/radix/caret-up.svg");
    assert(caret_icon(true).len() != caret_icon(false).len());
    assert(caret_path(header_tree(label, expanded, theme)) == Some(caret_icon(expanded)));
    assert(caret_path(header_tree(other_label, other_expanded, other_theme)) == Some(
        caret_icon(other_expanded),
    ));
}

/// In a list row the avatar comes first and the label second, and nothing
/// else is in it. The avatar is as wide as it is high and rounded all the way,
/// and its style is the same for every address.
pub proof fn lemma_item_layout(
    avatar_uri: Seq<char>,
    label: Seq<char>,
    theme: Theme,
    other_uri: Seq<char>,
)
    ensures
        item_tree(avatar_uri, label, theme).children() == seq![
            item_content(avatar_uri, label, theme),
        ],
        item_content(avatar_uri, label, theme).children().len() == 2,
        item_content(avatar_uri, label, theme).child(0) == item_avatar(avatar_uri, theme),
        item_content(avatar_uri, label, theme).child(1) == (ElementView::Text { content: label }),
        item_avatar(avatar_uri, theme) is Img,
        item_avatar(avatar_uri, theme).style().is_square(),
        item_avatar(avatar_uri, theme).style().corner_radius == Some(Radius::Full),
        item_avatar(avatar_uri, theme).style() == item_avatar(other_uri, theme).style(),
{
}

/// The contacts section holds its header and then exactly
/// `3 * CONTACT_REPETITIONS`, that is 30, list rows: row `i` is that of the
/// sample contact whose turn it is. The header is no list row.
pub proof fn lemma_contacts_rows(theme: Theme)
    ensures
        contact_rows(theme).len() == 30,
        contacts_section(theme).children().len() == 31,
        contacts_section(theme).child(0) == header_tree("CONTACTS"@, true, theme),
        !is_item_row(contacts_section(theme).child(0), theme),
        forall|i: int|
            0 <= i < 30 ==> #[trigger] contacts_section(theme).child(1 + i) == item_tree(
                contact_avatar(i),
                contact_label(i),
                theme,
            ),
        forall|i: int|
            1 <= i < 31 ==> is_item_row(#[trigger] contacts_section(theme).child(i), theme),
{
    let section = contacts_section(theme);
    let header = header_tree("CONTACTS"@, true, theme);
    assert forall|avatar_uri: Seq<char>, label: Seq<char>|
        header != #[trigger] item_tree(avatar_uri, label, theme) by {
        assert(header.children().len() == 2);
        assert(item_tree(avatar_uri, label, theme).children().len() == 1);
    }
    assert forall|i: int| 1 <= i < 31 implies is_item_row(#[trigger] section.child(i), theme) by {
        assert(section.child(i) == item_tree(contact_avatar(i - 1), contact_label(i - 1), theme));
    }
}

/// No element of a section header scrolls.
pub proof fn lemma_header_is_still(label: Seq<char>, expanded: bool, theme: Theme)
    ensures
        header_tree(label, expanded, theme).scroll_regions() == 0,
{
    let header = header_tree(label, expanded, theme);
    lemma_regions_of_still_children(header_label_box(label).child(0));
    lemma_regions_of_still_children(header_label_box(label));
    lemma_regions_of_still_children(header_caret(expanded, theme));
    lemma_regions_of_still_children(header_caret_box(expanded, theme));
    assert(header.child(0) == header_label_box(label));
    assert(header.child(1) == header_caret_box(expanded, theme));
    lemma_regions_of_still_children(header);
}

/// No element of a list row scrolls.
pub proof fn lemma_item_is_still(avatar_uri: Seq<char>, label: Seq<char>, theme: Theme)
    ensures
        item_tree(avatar_uri, label, theme).scroll_regions() == 0,
{
    let content = item_content(avatar_uri, label, theme);
    lemma_regions_of_still_children(content.child(0));
    lemma_regions_of_still_children(content.child(1));
    lemma_regions_of_still_children(content);
    lemma_regions_of_still_children(item_tree(avatar_uri, label, theme));
}

/// The panel is one box around two: first the scrolling body, then the search
/// bar. The body scrolls by the panel's own scroll position and holds the
/// three blocks: the pinned block, the channels section and the contacts
/// section, each under its header, every header expanded. In the whole tree
/// the body is the only element that scrolls.
pub proof fn lemma_panel_layout(scroll_state: ScrollState, theme: Theme)
    ensures
        panel_tree(scroll_state, theme) is Div,
        panel_tree(scroll_state, theme).children() == seq![
            scroll_body(scroll_state, theme),
            footer(theme),
        ],
        scroll_body(scroll_state, theme).style().overflow_y == Overflow::Scroll(scroll_state),
        scroll_body(scroll_state, theme).children() == seq![
            pinned_block(theme),
            channels_section(theme),
            contacts_section(theme),
        ],
        pinned_block(theme).child(0) == header_tree("#CRDB 🗃️"@, true, theme),
        channels_section(theme).child(0) == header_tree("CHANNELS"@, true, theme),
        contacts_section(theme).child(0) == header_tree("CONTACTS"@, true, theme),
        channels_section(theme).children().len() == 1,
        caret_path(pinned_block(theme).child(0)) == Some("icons/radix/caret-down.svg"@),
        caret_path(channels_section(theme).child(0)) == Some("icons/radix/caret-down.svg"@),
        caret_path(contacts_section(theme).child(0)) == Some("icons/radix/caret-down.svg"@),
        panel_tree(scroll_state, theme).scroll_regions() == 1,
{
    let panel = panel_tree(scroll_state, theme);
    let body = scroll_body(scroll_state, theme);

    let pinned = pinned_block(theme);
    lemma_header_is_still("#CRDB 🗃️"@, true, theme);
    lemma_item_is_still("http://github.com/maxbrunsfeld.png?s=50"@, "maxbrunsfeld"@, theme);
    lemma_regions_of_still_children(pinned);

    let channels = channels_section(theme);
    lemma_header_is_still("CHANNELS"@, true, theme);
    lemma_regions_of_still_children(channels);

    let contacts = contacts_section(theme);
    lemma_header_is_still("CONTACTS"@, true, theme);
    assert forall|i: int| 0 <= i < contacts.children().len() implies (#[trigger] contacts.child(
        i,
    )).scroll_regions() == 0 by {
        if i > 0 {
            lemma_item_is_still(contact_avatar(i - 1), contact_label(i - 1), theme);
        }
    }
    lemma_regions_of_still_children(contacts);

    assert(body.child(0) == pinned && body.child(1) == channels && body.child(2) == contacts);
    lemma_regions_of_still_children(body);

    lemma_regions_of_still_children(footer_label(theme).child(0));
    lemma_regions_of_still_children(footer_label(theme));
    lemma_regions_of_still_children(footer(theme));

    assert(panel.child(0) == body && panel.child(1) == footer(theme));
    lemma_regions_of_one_child(panel, 0);
}

/// The panel reads eight colours of the theme and no others: themes that
/// agree in these give the same panel, whatever else they hold.
pub proof fn lemma_panel_reads_fixed_slots(scroll_state: ScrollState, theme: Theme, other: Theme)
    requires
        same_where_read(theme, other),
    ensures
        panel_tree(scroll_state, theme) == panel_tree(scroll_state, other),
{
    assert forall|label: Seq<char>, expanded: bool|
        header_tree(label, expanded, theme) == header_tree(label, expanded, other) by {}
    assert forall|avatar_uri: Seq<char>, label: Seq<char>|
        item_tree(avatar_uri, label, theme) == item_tree(avatar_uri, label, other) by {}
    assert(contact_rows(theme) =~= contact_rows(other));
}

/// Rendering a panel leaves it as it was, so rendering it again under the
/// same theme gives the same tree again.
pub proof fn lemma_render_again(
    panel: CollabPanel,
    theme: Theme,
    after_first: CollabPanel,
    first: ElementView,
    after_second: CollabPanel,
    second: ElementView,
)
    requires
        after_first == panel,
        first == panel_tree(panel.scroll_state, theme),
        after_second == after_first,
        second == panel_tree(after_first.scroll_state, theme),
    ensures
        second == first,
        after_second == panel,
{
}

} // verus!
