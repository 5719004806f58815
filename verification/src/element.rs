//! The element handle: one type that holds an element of any kind, renders
//! it, tells its identity, and takes it apart and puts it together again.

use crate::anchor::{Anchor, AnchorView};
use crate::fields::{ElementFields, ElementFieldsView};
use crate::identity::Id;
use crate::kind::{lemma_kind_of_its_name, ComponentKind};
use crate::markup::{Markup, MarkupView};
use crate::paragraph::{Paragraph, ParagraphView};
use vstd::prelude::*;
use vstd::std_specs::cmp::PartialEqSpecImpl;
use vstd::std_specs::convert::FromSpecImpl;

verus! {

/// What a handle asks of the element that it holds: its identity token and
/// its markup.
pub trait RawElementData {
    /// The identity token of the element.
    spec fn identity(&self) -> Id;

    /// What the element renders to.
    spec fn markup(&self) -> MarkupView;

    /// The identity token of the element.
    fn id(&self) -> (id: &Id)
        ensures
            *id == self.identity(),
    ;

    /// Renders the element.
    fn render_html(&self) -> (html: Markup)
        ensures
            html@ == self.markup(),
    ;
}

/// An element that can be put behind a handle.
pub trait Componentable: RawElementData + PartialEq {
    /// The kind of the element.
    spec fn kind(&self) -> ComponentKind;

    /// The value of the handle that holds this element.
    spec fn wrapped(&self) -> ElementView;

    /// The name of the element's kind.
    fn component_name(&self) -> (name: &'static str)
        ensures
            name@ == self.kind().name_text(),
    ;

    /// A handle that holds a copy of the element: it renders to the same
    /// markup, and has the same identity and kind.
    fn element_data(&self) -> (handle: ElementData)
        ensures
            handle@ == self.wrapped(),
            handle@.markup() == self.markup(),
            handle@.id() == self.identity(),
            handle@.kind() == self.kind(),
    ;
}

/// The mathematical value of an [`ElementData`].
pub enum ElementView {
    Paragraph(ParagraphView),
    Anchor(AnchorView),
}

impl ElementView {
    /// The identity token of the element held.
    pub open spec fn id(self) -> Id {
        match self {
            ElementView::Paragraph(paragraph) => paragraph.id,
            ElementView::Anchor(anchor) => anchor.id,
        }
    }

    /// The kind of the element held.
    pub open spec fn kind(self) -> ComponentKind {
        match self {
            ElementView::Paragraph(_) => ComponentKind::Paragraph,
            ElementView::Anchor(_) => ComponentKind::Anchor,
        }
    }

    /// What the handle renders to: the markup of the element held.
    pub open spec fn markup(self) -> MarkupView {
        match self {
            ElementView::Paragraph(paragraph) => paragraph.markup(),
            ElementView::Anchor(anchor) => anchor.markup(),
        }
    }

    /// The element held, taken apart.
    pub open spec fn fields(self) -> ElementFieldsView {
        match self {
            ElementView::Paragraph(paragraph) => paragraph.fields(),
            ElementView::Anchor(anchor) => anchor.fields(),
        }
    }

    /// Whether two handles hold the same element: whether their tokens are
    /// equal, whatever else they hold.
    pub open spec fn same_identity(self, other: ElementView) -> bool {
        self.id() == other.id()
    }

    /// The element of kind `kind` that the fields of this one make.
    pub open spec fn rebuilt_as(self, kind: ComponentKind) -> ElementView {
        match kind {
            ComponentKind::Paragraph => ElementView::Paragraph(
                ParagraphView::of_fields(self.fields()),
            ),
            ComponentKind::Anchor => ElementView::Anchor(AnchorView::of_fields(self.fields())),
        }
    }

    /// What the handle renders to when its element is rebuilt as the kind
    /// that `name` stands for: nothing, where `name` stands for no kind.
    pub open spec fn markup_as(self, name: Seq<char>) -> MarkupView {
        match ComponentKind::of_name(name) {
            Some(kind) => self.rebuilt_as(kind).markup(),
            None => MarkupView::Empty,
        }
    }
}

/// A handle on one element of any kind.
#[derive(Debug)]
pub enum ElementData {
    Paragraph(Paragraph),
    Anchor(Anchor),
}

impl View for ElementData {
    type V = ElementView;

    open spec fn view(&self) -> ElementView {
        match self {
            ElementData::Paragraph(paragraph) => ElementView::Paragraph(paragraph@),
            ElementData::Anchor(anchor) => ElementView::Anchor(anchor@),
        }
    }
}

impl Clone for ElementData {
    fn clone(&self) -> (copy: Self)
        ensures
            copy == *self,
    {
        match self {
            ElementData::Paragraph(paragraph) => ElementData::Paragraph(paragraph.clone()),
            ElementData::Anchor(anchor) => ElementData::Anchor(anchor.clone()),
        }
    }
}

impl PartialEq for ElementData {
    /// Two handles are equal when their identity tokens are, whatever else
    /// they hold.
    fn eq(&self, other: &Self) -> (same: bool) {
        *self.id() == *other.id()
    }
}

impl PartialEqSpecImpl for ElementData {
    open spec fn obeys_eq_spec() -> bool {
        true
    }

    open spec fn eq_spec(&self, other: &Self) -> bool {
        self@.same_identity(other@)
    }
}

impl From<Paragraph> for ElementData {
    /// The handle that holds `paragraph`.
    fn from(paragraph: Paragraph) -> (handle: Self) {
        ElementData::Paragraph(paragraph)
    }
}

impl FromSpecImpl<Paragraph> for ElementData {
    open spec fn obeys_from_spec() -> bool {
        true
    }

    open spec fn from_spec(paragraph: Paragraph) -> Self {
        ElementData::Paragraph(paragraph)
    }
}

impl From<Anchor> for ElementData {
    /// The handle that holds `anchor`.
    fn from(anchor: Anchor) -> (handle: Self) {
        ElementData::Anchor(anchor)
    }
}

impl FromSpecImpl<Anchor> for ElementData {
    open spec fn obeys_from_spec() -> bool {
        true
    }

    open spec fn from_spec(anchor: Anchor) -> Self {
        ElementData::Anchor(anchor)
    }
}

impl ElementData {
    /// Renders the element held, as the element itself would.
    pub fn render(&self) -> (html: Markup)
        ensures
            html@ == self@.markup(),
    {
        match self {
            ElementData::Paragraph(paragraph) => paragraph.render_html(),
            ElementData::Anchor(anchor) => anchor.render_html(),
        }
    }

    /// The identity token of the element held.
    pub fn id(&self) -> (id: &Id)
        ensures
            *id == self@.id(),
    {
        match self {
            ElementData::Paragraph(paragraph) => paragraph.id(),
            ElementData::Anchor(anchor) => anchor.id(),
        }
    }

    /// The name of the kind of the element held.
    pub fn component_name(&self) -> (name: &'static str)
        ensures
            name@ == self@.kind().name_text(),
    {
        match self {
            ElementData::Paragraph(paragraph) => paragraph.component_name(),
            ElementData::Anchor(anchor) => anchor.component_name(),
        }
    }

    /// The element held, taken apart into the fields common to all kinds.
    pub fn fields(&self) -> (fields: ElementFields)
        ensures
            fields@ == self@.fields(),
    {
        match self {
            ElementData::Paragraph(paragraph) => paragraph.fields(),
            ElementData::Anchor(anchor) => anchor.fields(),
        }
    }

    /// The paragraph that the fields of the element held make.
    pub fn to_paragraph(&self) -> (paragraph: Paragraph)
        ensures
            paragraph@ == ParagraphView::of_fields(self@.fields()),
    {
        Paragraph::from_fields(&self.fields())
    }

    /// The anchor that the fields of the element held make. It links to the
    /// empty text where the element held has no link target.
    pub fn to_anchor(&self) -> (anchor: Anchor)
        ensures
            anchor@ == AnchorView::of_fields(self@.fields()),
    {
        Anchor::from_fields(&self.fields())
    }

    /// A handle on the element of kind `kind` that the fields of the element
    /// held make.
    pub fn rebuild(&self, kind: ComponentKind) -> (handle: ElementData)
        ensures
            handle@ == self@.rebuilt_as(kind),
    {
        match kind {
            ComponentKind::Paragraph => ElementData::Paragraph(self.to_paragraph()),
            ComponentKind::Anchor => ElementData::Anchor(self.to_anchor()),
        }
    }

    /// Renders the element held as the kind that `component_name` stands
    /// for. A name that stands for no kind renders nothing.
    pub fn render_as(&self, component_name: &str) -> (html: Markup)
        ensures
            html@ == self@.markup_as(component_name@),
            ComponentKind::of_name(component_name@) is None ==> html@ == MarkupView::Empty,
    {
        match ComponentKind::from_name(component_name) {
            Some(kind) => self.rebuild(kind).render(),
            None => Markup::Empty,
        }
    }
}

/// A handle renders to exactly what the element that it holds renders to.
pub proof fn lemma_wrapping_keeps_markup(paragraph: ParagraphView, anchor: AnchorView)
    ensures
        ElementView::Paragraph(paragraph).markup() == paragraph.markup(),
        ElementView::Anchor(anchor).markup() == anchor.markup(),
{
}

/// Two handles are the same exactly when the elements that they hold were
/// given the same identity token: kind, text, link target and style play no
/// part.
pub proof fn lemma_same_identity_is_same_token(
    paragraph: ParagraphView,
    other_paragraph: ParagraphView,
    anchor: AnchorView,
    other_anchor: AnchorView,
)
    ensures
        ElementView::Paragraph(paragraph).same_identity(ElementView::Paragraph(other_paragraph))
            <==> paragraph.id == other_paragraph.id,
        ElementView::Anchor(anchor).same_identity(ElementView::Anchor(other_anchor)) <==> anchor.id
            == other_anchor.id,
        ElementView::Paragraph(paragraph).same_identity(ElementView::Anchor(anchor))
            <==> paragraph.id == anchor.id,
        ElementView::Anchor(anchor).same_identity(ElementView::Paragraph(paragraph)) <==> anchor.id
            == paragraph.id,
{
}

/// An element that is taken apart and put together again as its own kind is
/// the element that it was.
pub proof fn lemma_rebuilding_gives_the_element_back(paragraph: ParagraphView, anchor: AnchorView)
    ensures
        ParagraphView::of_fields(ElementView::Paragraph(paragraph).fields()) == paragraph,
        AnchorView::of_fields(ElementView::Anchor(anchor).fields()) == anchor,
{
}

/// A handle that is rebuilt as the kind of the element that it holds is
/// unchanged, and rendering it under the name of that kind gives its markup.
pub proof fn lemma_own_kind_changes_nothing(element: ElementView)
    ensures
        element.rebuilt_as(element.kind()) == element,
        element.markup_as(element.kind().name_text()) == element.markup(),
{
    lemma_kind_of_its_name(element.kind());
}

} // verus!
