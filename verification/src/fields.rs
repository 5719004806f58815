//! The fields that every kind of element can be taken apart into, and put
//! together from again.

use crate::identity::Id;
use crate::style::{Style, StyleView};
use crate::text::optional_text;
use vstd::prelude::*;

verus! {

/// The mathematical value of an [`ElementFields`].
pub struct ElementFieldsView {
    pub text: Seq<char>,
    pub href: Option<Seq<char>>,
    pub style: StyleView,
    pub id: Id,
}

/// The data of an element, whatever its kind: its text, its style, its
/// identity token, and a link target where the kind has one.
#[derive(Debug)]
pub struct ElementFields {
    pub text: String,
    pub href: Option<String>,
    pub style: Style,
    pub id: Id,
}

impl View for ElementFields {
    type V = ElementFieldsView;

    open spec fn view(&self) -> ElementFieldsView {
        ElementFieldsView {
            text: self.text@,
            href: optional_text(self.href),
            style: self.style@,
            id: self.id,
        }
    }
}

impl ElementFieldsView {
    /// The link target, or the empty text where there is none.
    pub open spec fn href_or_empty(self) -> Seq<char> {
        match self.href {
            Some(href) => href,
            None => Seq::empty(),
        }
    }
}

} // verus!
