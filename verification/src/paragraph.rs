//! The paragraph: a run of styled text.

use crate::element::{Componentable, ElementData, ElementView, RawElementData};
use crate::fields::{ElementFields, ElementFieldsView};
use crate::identity::{gen_id, Id};
use crate::kind::ComponentKind;
use crate::markup::{
    attribute_views, Attribute, AttributeName, AttributeView, Markup, MarkupView, Tag,
};
use crate::style::{Style, StyleView};
use vstd::prelude::*;
use vstd::std_specs::cmp::PartialEqSpecImpl;

verus! {

/// The mathematical value of a [`Paragraph`].
pub struct ParagraphView {
    pub value: Seq<char>,
    pub style: StyleView,
    pub id: Id,
}

impl ParagraphView {
    /// What a paragraph renders to: a `p` element that carries the style's
    /// CSS and holds the text.
    pub open spec fn markup(self) -> MarkupView {
        MarkupView::Element {
            tag: Tag::P,
            attributes: seq![AttributeView { name: AttributeName::Style, value: self.style.css() }],
            text: self.value,
        }
    }

    /// The paragraph taken apart: it has no link target.
    pub open spec fn fields(self) -> ElementFieldsView {
        ElementFieldsView { text: self.value, href: None, style: self.style, id: self.id }
    }

    /// The paragraph that a set of fields makes: a link target is left out.
    pub open spec fn of_fields(fields: ElementFieldsView) -> ParagraphView {
        ParagraphView { value: fields.text, style: fields.style, id: fields.id }
    }

    /// The paragraph with another style, and the same text and identity.
    pub open spec fn with_style(self, style: StyleView) -> ParagraphView {
        ParagraphView { value: self.value, style, id: self.id }
    }
}

/// A paragraph of text with its style and its identity token.
#[derive(Debug)]
pub struct Paragraph {
    pub value: String,
    pub style: Style,
    pub id: Id,
}

impl View for Paragraph {
    type V = ParagraphView;

    open spec fn view(&self) -> ParagraphView {
        ParagraphView { value: self.value@, style: self.style@, id: self.id }
    }
}

impl Clone for Paragraph {
    fn clone(&self) -> (copy: Self)
        ensures
            copy == *self,
    {
        Paragraph { value: self.value.clone(), style: self.style.clone(), id: self.id }
    }
}

impl PartialEq for Paragraph {
    /// Two paragraphs are equal when text, style and token are.
    fn eq(&self, other: &Self) -> (same: bool) {
        self.value == other.value && self.style == other.style && self.id == other.id
    }
}

impl PartialEqSpecImpl for Paragraph {
    open spec fn obeys_eq_spec() -> bool {
        true
    }

    open spec fn eq_spec(&self, other: &Self) -> bool {
        self@ == other@
    }
}

impl Paragraph {
    /// A paragraph with a token of its own, drawn at random.
    pub fn new(value: String, style: Style) -> (paragraph: Paragraph)
        ensures
            paragraph@.value == value@,
            paragraph@.style == style@,
    {
        Paragraph::with_id(value, style, gen_id())
    }

    /// A paragraph with the token `id`.
    pub fn with_id(value: String, style: Style, id: Id) -> (paragraph: Paragraph)
        ensures
            paragraph@ == (ParagraphView { value: value@, style: style@, id }),
    {
        Paragraph { value, style, id }
    }

    /// A copy of the paragraph in another style: same text, same token.
    pub fn with_style(&self, style: Style) -> (restyled: Paragraph)
        ensures
            restyled@ == self@.with_style(style@),
    {
        Paragraph { value: self.value.clone(), style, id: self.id }
    }

    /// The paragraph taken apart into the fields common to all kinds.
    pub fn fields(&self) -> (fields: ElementFields)
        ensures
            fields@ == self@.fields(),
    {
        ElementFields {
            text: self.value.clone(),
            href: None,
            style: self.style.clone(),
            id: self.id,
        }
    }

    /// The paragraph that `fields` makes. A link target among them is left
    /// out.
    pub fn from_fields(fields: &ElementFields) -> (paragraph: Paragraph)
        ensures
            paragraph@ == ParagraphView::of_fields(fields@),
    {
        Paragraph { value: fields.text.clone(), style: fields.style.clone(), id: fields.id }
    }
}

impl RawElementData for Paragraph {
    open spec fn identity(&self) -> Id {
        self.id
    }

    open spec fn markup(&self) -> MarkupView {
        self@.markup()
    }

    fn id(&self) -> (id: &Id) {
        &self.id
    }

    fn render_html(&self) -> (html: Markup) {
        let mut attributes: Vec<Attribute> = Vec::new();
        attributes.push(Attribute { name: AttributeName::Style, value: self.style.to_css() });
        assert(attribute_views(attributes@) =~= seq![
            AttributeView { name: AttributeName::Style, value: self@.style.css() },
        ]);
        Markup::Element { tag: Tag::P, attributes, text: self.value.clone() }
    }
}

impl Componentable for Paragraph {
    open spec fn kind(&self) -> ComponentKind {
        ComponentKind::Paragraph
    }

    open spec fn wrapped(&self) -> ElementView {
        ElementView::Paragraph(self@)
    }

    fn component_name(&self) -> (name: &'static str) {
        ComponentKind::Paragraph.name()
    }

    fn element_data(&self) -> (handle: ElementData) {
        ElementData::Paragraph(self.clone())
    }
}

} // verus!
