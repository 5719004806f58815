//! The page controller: it owns the elements of the page, takes what the
//! settings pane passes on, and renders the page from what it then holds.

use crate::anchor::{Anchor, AnchorView};
use crate::element::{ElementData, ElementView};
use crate::identity::{gen_id, Id};
use crate::markup::{Markup, MarkupView};
use crate::paragraph::{Paragraph, ParagraphView};
use crate::registry::{markup_of_all, markup_views, ElementRegistry};
use crate::setting_pane::{emitted, emitted_value};
use crate::style::{Style, StyleView};
use crate::text::optional_text;
use vstd::prelude::*;

verus! {

/// The mathematical value of a [`PageController`].
pub struct PageView {
    pub paragraph: ParagraphView,
    pub anchor: AnchorView,
}

/// The style of the sample content.
pub open spec fn sample_style() -> StyleView {
    StyleView { color: Some("#222222"@), background_color: Some("#666666"@) }
}

/// The sample content that a page starts with: a paragraph and a hyperlink
/// in the same fixed colours, with the given identity tokens.
pub open spec fn sample_page(paragraph_id: Id, anchor_id: Id) -> PageView {
    PageView {
        paragraph: ParagraphView { value: "hoge"@, style: sample_style(), id: paragraph_id },
        anchor: AnchorView {
            text: "hoge"@,
            href: "https://www.google.co.jp"@,
            style: sample_style(),
            id: anchor_id,
        },
    }
}

impl PageView {
    /// The page after the background colour of its paragraph is replaced.
    /// The paragraph keeps its text, its text colour and its identity; the
    /// hyperlink is as it was.
    pub open spec fn with_background_color(self, background_color: Option<Seq<char>>) -> PageView {
        PageView {
            paragraph: self.paragraph.with_style(
                self.paragraph.style.with_background_color(background_color),
            ),
            anchor: self.anchor,
        }
    }

    /// The page after the settings field has come to hold `raw`.
    pub open spec fn after_input(self, raw: Seq<char>) -> PageView {
        self.with_background_color(emitted(raw))
    }

    /// The elements of the page in the order in which they are shown: the
    /// paragraph, then the hyperlink.
    pub open spec fn elements(self) -> Seq<ElementView> {
        seq![ElementView::Paragraph(self.paragraph), ElementView::Anchor(self.anchor)]
    }

    /// What the page renders to.
    pub open spec fn markup(self) -> Seq<MarkupView> {
        markup_of_all(self.elements())
    }
}

/// The state of the page: the paragraph, which the settings pane restyles,
/// and the hyperlink.
#[derive(Debug)]
pub struct PageController {
    pub paragraph: Paragraph,
    pub anchor: Anchor,
}

impl View for PageController {
    type V = PageView;

    open spec fn view(&self) -> PageView {
        PageView { paragraph: self.paragraph@, anchor: self.anchor@ }
    }
}

impl Clone for PageController {
    fn clone(&self) -> (copy: Self)
        ensures
            copy == *self,
    {
        PageController { paragraph: self.paragraph.clone(), anchor: self.anchor.clone() }
    }
}

/// The style of the sample content.
fn new_sample_style() -> (style: Style)
    ensures
        style@ == sample_style(),
{
    Style { color: Some("#222222".to_owned()), background_color: Some("#666666".to_owned()) }
}

impl PageController {
    /// A page with the sample content, each element with a token of its
    /// own, drawn at random.
    pub fn new() -> (page: PageController)
        ensures
            page@ == sample_page(page@.paragraph.id, page@.anchor.id),
    {
        let paragraph_id = gen_id();
        let anchor_id = gen_id();
        PageController::with_ids(paragraph_id, anchor_id)
    }

    /// A page with the sample content and the given identity tokens.
    pub fn with_ids(paragraph_id: Id, anchor_id: Id) -> (page: PageController)
        ensures
            page@ == sample_page(paragraph_id, anchor_id),
    {
        PageController {
            paragraph: Paragraph::with_id("hoge".to_owned(), new_sample_style(), paragraph_id),
            anchor: Anchor::with_id(
                "hoge".to_owned(),
                "https://www.google.co.jp".to_owned(),
                new_sample_style(),
                anchor_id,
            ),
        }
    }

    /// Replaces the paragraph by a copy with the background colour
    /// `background_color`, or with none where that is `None`.
    pub fn set_background_color(&mut self, background_color: Option<String>)
        ensures
            final(self)@ == old(self)@.with_background_color(optional_text(background_color)),
    {
        let style = self.paragraph.style.with_background_color(background_color);
        self.paragraph = self.paragraph.with_style(style);
    }

    /// Takes one change of the settings field, which now holds `raw`: the
    /// empty text takes the paragraph's background colour away, any other
    /// text becomes that colour.
    pub fn on_input(&mut self, raw: String)
        ensures
            final(self)@ == old(self)@.after_input(raw@),
    {
        self.set_background_color(emitted_value(raw));
    }

    /// The elements of the page behind their handles, in the order in which
    /// they are shown.
    pub fn elements(&self) -> (registry: ElementRegistry)
        ensures
            registry@ == self@.elements(),
    {
        let mut registry = ElementRegistry::new();
        registry.push(ElementData::from(self.paragraph.clone()));
        registry.push(ElementData::from(self.anchor.clone()));
        assert(registry@ =~= self@.elements());
        registry
    }

    /// Renders the page from what it now holds.
    pub fn render(&self) -> (rendered: Vec<Markup>)
        ensures
            markup_views(rendered@) == self@.markup(),
    {
        self.elements().render()
    }
}

/// A change of the settings field gives the paragraph the background colour
/// that the field passes on and changes nothing else: the paragraph keeps its
/// text, its text colour and its identity, and the hyperlink is rendered as
/// before.
pub proof fn lemma_input_restyles_the_paragraph_alone(page: PageView, raw: Seq<char>)
    ensures
        page.after_input(raw).paragraph.style.background_color == emitted(raw),
        page.after_input(raw).paragraph.style.color == page.paragraph.style.color,
        page.after_input(raw).paragraph.value == page.paragraph.value,
        page.after_input(raw).paragraph.id == page.paragraph.id,
        page.after_input(raw).anchor == page.anchor,
        page.after_input(raw).markup().len() == 2,
        page.after_input(raw).markup()[0] == page.after_input(raw).paragraph.markup(),
        page.after_input(raw).markup()[1] == page.markup()[1],
        page.after_input(raw).elements()[0].same_identity(page.elements()[0]),
{
}

} // verus!
