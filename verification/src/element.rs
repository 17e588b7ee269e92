//! The tree that a panel is described by.
//!
//! An [`Element`] is a box with a style and children, an image, an icon or a
//! run of text. Only a box has children, and text has no style of its own: it
//! takes the text style of the boxes around it.

use crate::style::{Style, StyleView};
use vstd::prelude::*;

verus! {

/// One node of the tree, with everything below it.
#[derive(Debug, PartialEq, Eq)]
pub enum Element {
    /// A box around its children, which are laid out in their order.
    Div { style: Style, children: Vec<Element> },
    /// An image that the host loads from `uri`.
    Img { style: Style, uri: String },
    /// A vector icon that the host finds among its assets under `path`.
    Svg { style: Style, path: String },
    /// A run of text.
    Text { content: String },
}

/// An [`Element`] as a mathematical value.
pub enum ElementView {
    Div { style: StyleView, children: Seq<ElementView> },
    Img { style: StyleView, uri: Seq<char> },
    Svg { style: StyleView, path: Seq<char> },
    Text { content: Seq<char> },
}

impl Element {
    /// The element as a mathematical value, children and all.
    pub open spec fn tree(&self) -> ElementView
        decreases self,
    {
        match self {
            Element::Div { style, children } => ElementView::Div {
                style: style@,
                children: Seq::new(
                    children@.len(),
                    |i: int|
                        if 0 <= i < children@.len() {
                            children@[i].tree()
                        } else {
                            arbitrary()
                        },
                ),
            },
            Element::Img { style, uri } => ElementView::Img { style: style@, uri: uri@ },
            Element::Svg { style, path } => ElementView::Svg { style: style@, path: path@ },
            Element::Text { content } => ElementView::Text { content: content@ },
        }
    }
}

impl View for Element {
    type V = ElementView;

    open spec fn view(&self) -> ElementView {
        self.tree()
    }
}

/// The views of the elements of `elements`, in their order.
pub open spec fn views(elements: Seq<Element>) -> Seq<ElementView> {
    elements.map_values(|e: Element| e@)
}

impl ElementView {
    /// The children of a box, in their order; of anything else, none.
    pub open spec fn children(self) -> Seq<ElementView> {
        match self {
            ElementView::Div { children, .. } => children,
            _ => Seq::empty(),
        }
    }

    /// The child at place `i`.
    pub open spec fn child(self, i: int) -> ElementView
        recommends
            0 <= i < self.children().len(),
    {
        self.children()[i]
    }

    /// The style of a box, an image or an icon; of text, the unset style.
    pub open spec fn style(self) -> StyleView {
        match self {
            ElementView::Div { style, .. } => style,
            ElementView::Img { style, .. } => style,
            ElementView::Svg { style, .. } => style,
            ElementView::Text { .. } => StyleView::unset(),
        }
    }

    /// How many elements of the tree scroll, the element itself counted.
    pub open spec fn scroll_regions(self) -> nat
        decreases self, 1nat,
    {
        let own: nat = if self.style().scrolls() {
            1
        } else {
            0
        };
        own + total(self.child_regions())
    }

    /// For each child, how many elements scroll in it.
    pub open spec fn child_regions(self) -> Seq<nat>
        decreases self, 0nat,
    {
        match self {
            ElementView::Div { children, .. } => Seq::new(
                children.len(),
                |i: int|
                    if 0 <= i < children.len() {
                        children[i].scroll_regions()
                    } else {
                        0
                    },
            ),
            _ => Seq::empty(),
        }
    }

    /// A box with `more` after the children it has; anything else as it is.
    pub open spec fn with_children(self, more: Seq<ElementView>) -> ElementView {
        match self {
            ElementView::Div { style, children } => ElementView::Div {
                style,
                children: children + more,
            },
            _ => self,
        }
    }

    /// A box with `child` after the children it has; anything else as it is.
    pub open spec fn with_child(self, child: ElementView) -> ElementView {
        match self {
            ElementView::Div { style, children } => ElementView::Div {
                style,
                children: children.push(child),
            },
            _ => self,
        }
    }
}

/// The sum of the numbers in `counts`.
pub open spec fn total(counts: Seq<nat>) -> nat
    decreases counts.len(),
{
    if counts.len() == 0 {
        0
    } else {
        total(counts.drop_last()) + counts.last()
    }
}

/// Numbers that are all zero add up to zero.
pub proof fn lemma_total_of_zeros(counts: Seq<nat>)
    requires
        forall|i: int| 0 <= i < counts.len() ==> counts[i] == 0,
    ensures
        total(counts) == 0,
    decreases counts.len(),
{
    if counts.len() > 0 {
        lemma_total_of_zeros(counts.drop_last());
    }
}

/// Numbers that are all zero but one add up to that one.
pub proof fn lemma_total_with_one(counts: Seq<nat>, at: int)
    requires
        0 <= at < counts.len(),
        forall|i: int| 0 <= i < counts.len() && i != at ==> counts[i] == 0,
    ensures
        total(counts) == counts[at],
    decreases counts.len(),
{
    if at == counts.len() - 1 {
        lemma_total_of_zeros(counts.drop_last());
    } else {
        lemma_total_with_one(counts.drop_last(), at);
    }
}

/// Where no child of an element scrolls anywhere, the element holds one
/// scrolling element if it scrolls itself, and none if it does not.
pub proof fn lemma_regions_of_still_children(element: ElementView)
    requires
        forall|i: int|
            0 <= i < element.children().len() ==> (#[trigger] element.child(i)).scroll_regions()
                == 0,
    ensures
        element.scroll_regions() == if element.style().scrolls() {
            1nat
        } else {
            0nat
        },
{
    let counts = element.child_regions();
    assert forall|i: int| 0 <= i < counts.len() implies counts[i] == 0 by {
        assert(element.child(i).scroll_regions() == 0);
    }
    lemma_total_of_zeros(counts);
}

/// An element that does not scroll, around one child that holds some
/// scrolling elements and others that hold none, holds as many as that child.
pub proof fn lemma_regions_of_one_child(element: ElementView, at: int)
    requires
        !element.style().scrolls(),
        0 <= at < element.children().len(),
        forall|i: int|
            0 <= i < element.children().len() && i != at ==> (#[trigger] element.child(
                i,
            )).scroll_regions() == 0,
    ensures
        element.scroll_regions() == element.child(at).scroll_regions(),
{
    let counts = element.child_regions();
    assert forall|i: int| 0 <= i < counts.len() && i != at implies counts[i] == 0 by {
        assert(element.child(i).scroll_regions() == 0);
    }
    lemma_total_with_one(counts, at);
}

/// The view of a box is the box of its style's view and its children's views.
pub proof fn lemma_div_view(element: Element)
    requires
        element is Div,
    ensures
        element@ == (ElementView::Div {
            style: element->Div_style@,
            children: views(element->children@),
        }),
{
    assert(element@.children() =~= views(element->children@));
}

/// An empty box with the given style.
pub fn div(style: Style) -> (element: Element)
    ensures
        element@ == (ElementView::Div { style: style@, children: Seq::empty() }),
{
    let element = Element::Div { style, children: Vec::new() };
    proof {
        lemma_div_view(element);
        assert(views(element->children@) =~= Seq::empty());
    }
    element
}

/// An image with the given style, to be loaded from `uri`.
pub fn img(style: Style, uri: &str) -> (element: Element)
    ensures
        element@ == (ElementView::Img { style: style@, uri: uri@ }),
{
    Element::Img { style, uri: uri.to_owned() }
}

/// An icon with the given style, to be found under `path`.
pub fn svg(style: Style, path: &str) -> (element: Element)
    ensures
        element@ == (ElementView::Svg { style: style@, path: path@ }),
{
    Element::Svg { style, path: path.to_owned() }
}

/// A run of text.
pub fn text(content: &str) -> (element: Element)
    ensures
        element@ == (ElementView::Text { content: content@ }),
{
    Element::Text { content: content.to_owned() }
}

impl Element {
    /// Puts `child` after the children that a box has. Only a box takes
    /// children: anything else comes back as it is.
    pub fn child(self, child: Element) -> (element: Element)
        ensures
            element@ == self@.with_child(child@),
    {
        proof {
            if self is Div {
                lemma_div_view(self);
            }
        }
        match self {
            Element::Div { style, children } => {
                let mut children = children;
                let ghost before = children@;
                let ghost added = child@;
                children.push(child);
                let element = Element::Div { style, children };
                proof {
                    lemma_div_view(element);
                    assert(views(element->children@) =~= views(before).push(added));
                }
                element
            },
            other => other,
        }
    }

    /// Puts all of `more`, in their order, after the children that a box has.
    /// Only a box takes children: anything else comes back as it is.
    pub fn children(self, more: Vec<Element>) -> (element: Element)
        ensures
            element@ == self@.with_children(views(more@)),
    {
        proof {
            if self is Div {
                lemma_div_view(self);
            }
        }
        match self {
            Element::Div { style, children } => {
                let mut children = children;
                let mut more = more;
                let ghost before = children@;
                let ghost added = more@;
                children.append(&mut more);
                let element = Element::Div { style, children };
                proof {
                    lemma_div_view(element);
                    assert(views(element->children@) =~= views(before) + views(added));
                }
                element
            },
            other => other,
        }
    }
}

} // verus!
