//! The tree of typed nodes that rendering produces.
//!
//! A node has a tag, attributes in the order in which they are written, and
//! text. Whatever displays the page turns these nodes into its own.

use vstd::prelude::*;
use vstd::std_specs::cmp::PartialEqSpecImpl;

verus! {

/// The element types that a node can have.
#[derive(Debug, Clone, Copy, PartialEq, Eq, Structural)]
pub enum Tag {
    /// A paragraph, `p`.
    P,
    /// A hyperlink, `a`.
    A,
}

impl Tag {
    /// The tag as it is written in markup.
    pub open spec fn name_text(self) -> Seq<char> {
        match self {
            Tag::P => "p"@,
            Tag::A => "a"@,
        }
    }

    /// The tag as it is written in markup.
    pub fn name(self) -> (name: &'static str)
        ensures
            name@ == self.name_text(),
    {
        match self {
            Tag::P => "p",
            Tag::A => "a",
        }
    }
}

/// The attributes that a node can carry.
#[derive(Debug, Clone, Copy, PartialEq, Eq, Structural)]
pub enum AttributeName {
    /// The target of a hyperlink, `href`.
    Href,
    /// The inline CSS of the element, `style`.
    Style,
}

impl AttributeName {
    /// The attribute's name as it is written in markup.
    pub open spec fn name_text(self) -> Seq<char> {
        match self {
            AttributeName::Href => "href"@,
            AttributeName::Style => "style"@,
        }
    }

    /// The attribute's name as it is written in markup.
    pub fn name(self) -> (name: &'static str)
        ensures
            name@ == self.name_text(),
    {
        match self {
            AttributeName::Href => "href",
            AttributeName::Style => "style",
        }
    }
}

/// The mathematical value of an [`Attribute`].
pub struct AttributeView {
    pub name: AttributeName,
    pub value: Seq<char>,
}

/// An attribute of a node: a name and the value given to it.
#[derive(Debug)]
pub struct Attribute {
    pub name: AttributeName,
    pub value: String,
}

impl View for Attribute {
    type V = AttributeView;

    open spec fn view(&self) -> AttributeView {
        AttributeView { name: self.name, value: self.value@ }
    }
}

impl PartialEq for Attribute {
    /// Two attributes are equal when name and value are.
    fn eq(&self, other: &Self) -> (same: bool) {
        self.name == other.name && self.value == other.value
    }
}

impl PartialEqSpecImpl for Attribute {
    open spec fn obeys_eq_spec() -> bool {
        true
    }

    open spec fn eq_spec(&self, other: &Self) -> bool {
        self@ == other@
    }
}

/// The views of a list of attributes, in the same order.
pub open spec fn attribute_views(attributes: Seq<Attribute>) -> Seq<AttributeView> {
    attributes.map_values(|attribute: Attribute| attribute@)
}

/// The mathematical value of a [`Markup`].
pub enum MarkupView {
    Element { tag: Tag, attributes: Seq<AttributeView>, text: Seq<char> },
    Empty,
}

/// What rendering produces: one element with its text, or nothing.
#[derive(Debug)]
pub enum Markup {
    /// An element with its attributes, in order, and its text content.
    Element { tag: Tag, attributes: Vec<Attribute>, text: String },
    /// No output at all.
    Empty,
}

impl View for Markup {
    type V = MarkupView;

    open spec fn view(&self) -> MarkupView {
        match self {
            Markup::Element { tag, attributes, text } => MarkupView::Element {
                tag: *tag,
                attributes: attribute_views(attributes@),
                text: text@,
            },
            Markup::Empty => MarkupView::Empty,
        }
    }
}

/// Whether two lists hold equal attributes in the same order.
fn same_attributes(left: &Vec<Attribute>, right: &Vec<Attribute>) -> (same: bool)
    ensures
        same == (attribute_views(left@) == attribute_views(right@)),
{
    if left.len() != right.len() {
        assert(attribute_views(left@).len() != attribute_views(right@).len());
        return false;
    }
    let mut i: usize = 0;
    while i < left.len()
        invariant
            i <= left.len(),
            left.len() == right.len(),
            forall|j: int| 0 <= j < i ==> (#[trigger] left@[j])@ == right@[j]@,
        decreases left.len() - i,
    {
        if !(left[i] == right[i]) {
            assert(attribute_views(left@)[i as int] != attribute_views(right@)[i as int]);
            return false;
        }
        i += 1;
    }
    assert(attribute_views(left@) =~= attribute_views(right@));
    true
}

impl PartialEq for Markup {
    /// Two nodes are equal when both are nothing, or both are elements with
    /// the same tag, equal attributes in the same order, and the same text.
    fn eq(&self, other: &Self) -> (same: bool) {
        match (self, other) {
            (
                Markup::Element { tag, attributes, text },
                Markup::Element { tag: other_tag, attributes: other_attributes, text: other_text },
            ) => *tag == *other_tag && same_attributes(attributes, other_attributes) && *text
                == *other_text,
            (Markup::Empty, Markup::Empty) => true,
            _ => false,
        }
    }
}

impl PartialEqSpecImpl for Markup {
    open spec fn obeys_eq_spec() -> bool {
        true
    }

    open spec fn eq_spec(&self, other: &Self) -> bool {
        self@ == other@
    }
}

} // verus!
