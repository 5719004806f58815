//! The anchor: a styled hyperlink.

use crate::element::{Componentable, ElementData, ElementView, RawElementData};
use crate::fields::{ElementFields, ElementFieldsView};
use crate::identity::{gen_id, Id};
use crate::kind::ComponentKind;
use crate::markup::{
    attribute_views, Attribute, AttributeName, AttributeView, Markup, MarkupView, Tag,
};
use crate::style::{Style, StyleView};
use vstd::prelude::*;
use vstd::std_specs::cmp::PartialEqSpecImpl;

verus! {

/// The mathematical value of an [`Anchor`].
pub struct AnchorView {
    pub text: Seq<char>,
    pub href: Seq<char>,
    pub style: StyleView,
    pub id: Id,
}

impl AnchorView {
    /// What an anchor renders to: an `a` element that carries the link
    /// target, then the style's CSS, and holds the text.
    pub open spec fn markup(self) -> MarkupView {
        MarkupView::Element {
            tag: Tag::A,
            attributes: seq![
                AttributeView { name: AttributeName::Href, value: self.href },
                AttributeView { name: AttributeName::Style, value: self.style.css() },
            ],
            text: self.text,
        }
    }

    /// The anchor taken apart: its link target is among the fields.
    pub open spec fn fields(self) -> ElementFieldsView {
        ElementFieldsView {
            text: self.text,
            href: Some(self.href),
            style: self.style,
            id: self.id,
        }
    }

    /// The anchor that a set of fields makes: without a link target among
    /// them, it links to the empty text.
    pub open spec fn of_fields(fields: ElementFieldsView) -> AnchorView {
        AnchorView {
            text: fields.text,
            href: fields.href_or_empty(),
            style: fields.style,
            id: fields.id,
        }
    }

    /// The anchor with another style, and the same text, target and identity.
    pub open spec fn with_style(self, style: StyleView) -> AnchorView {
        AnchorView { text: self.text, href: self.href, style, id: self.id }
    }
}

/// A hyperlink with its text, its target, its style and its identity token.
#[derive(Debug)]
pub struct Anchor {
    pub text: String,
    pub href: String,
    pub style: Style,
    pub id: Id,
}

impl View for Anchor {
    type V = AnchorView;

    open spec fn view(&self) -> AnchorView {
        AnchorView { text: self.text@, href: self.href@, style: self.style@, id: self.id }
    }
}

impl Clone for Anchor {
    fn clone(&self) -> (copy: Self)
        ensures
            copy == *self,
    {
        Anchor {
            text: self.text.clone(),
            href: self.href.clone(),
            style: self.style.clone(),
            id: self.id,
        }
    }
}

impl PartialEq for Anchor {
    /// Two anchors are equal when text, target, style and token are.
    fn eq(&self, other: &Self) -> (same: bool) {
        self.text == other.text && self.href == other.href && self.style == other.style && self.id
            == other.id
    }
}

impl PartialEqSpecImpl for Anchor {
    open spec fn obeys_eq_spec() -> bool {
        true
    }

    open spec fn eq_spec(&self, other: &Self) -> bool {
        self@ == other@
    }
}

impl Anchor {
    /// An anchor with a token of its own, drawn at random.
    pub fn new(text: String, href: String, style: Style) -> (anchor: Anchor)
        ensures
            anchor@.text == text@,
            anchor@.href == href@,
            anchor@.style == style@,
    {
        Anchor::with_id(text, href, style, gen_id())
    }

    /// An anchor with the token `id`.
    pub fn with_id(text: String, href: String, style: Style, id: Id) -> (anchor: Anchor)
        ensures
            anchor@ == (AnchorView { text: text@, href: href@, style: style@, id }),
    {
        Anchor { text, href, style, id }
    }

    /// A copy of the anchor in another style: same text, target and token.
    pub fn with_style(&self, style: Style) -> (restyled: Anchor)
        ensures
            restyled@ == self@.with_style(style@),
    {
        Anchor { text: self.text.clone(), href: self.href.clone(), style, id: self.id }
    }

    /// The anchor taken apart into the fields common to all kinds.
    pub fn fields(&self) -> (fields: ElementFields)
        ensures
            fields@ == self@.fields(),
    {
        ElementFields {
            text: self.text.clone(),
            href: Some(self.href.clone()),
            style: self.style.clone(),
            id: self.id,
        }
    }

    /// The anchor that `fields` makes. Without a link target among them, the
    /// anchor links to the empty text.
    pub fn from_fields(fields: &ElementFields) -> (anchor: Anchor)
        ensures
            anchor@ == AnchorView::of_fields(fields@),
    {
        let href = match &fields.href {
            Some(href) => href.clone(),
            None => String::new(),
        };
        Anchor { text: fields.text.clone(), href, style: fields.style.clone(), id: fields.id }
    }
}

impl RawElementData for Anchor {
    open spec fn identity(&self) -> Id {
        self.id
    }

    open spec fn markup(&self) -> MarkupView {
        self@.markup()
    }

    fn id(&self) -> (id: &Id) {
        &self.id
    }

    fn render_html(&self) -> (html: Markup) {
        let mut attributes: Vec<Attribute> = Vec::new();
        attributes.push(Attribute { name: AttributeName::Href, value: self.href.clone() });
        attributes.push(Attribute { name: AttributeName::Style, value: self.style.to_css() });
        assert(attribute_views(attributes@) =~= seq![
            AttributeView { name: AttributeName::Href, value: self@.href },
            AttributeView { name: AttributeName::Style, value: self@.style.css() },
        ]);
        Markup::Element { tag: Tag::A, attributes, text: self.text.clone() }
    }
}

impl Componentable for Anchor {
    open spec fn kind(&self) -> ComponentKind {
        ComponentKind::Anchor
    }

    open spec fn wrapped(&self) -> ElementView {
        ElementView::Anchor(self@)
    }

    fn component_name(&self) -> (name: &'static str) {
        ComponentKind::Anchor.name()
    }

    fn element_data(&self) -> (handle: ElementData) {
        ElementData::Anchor(self.clone())
    }
}

} // verus!
