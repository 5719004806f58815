//! The kinds of element and the names by which they are dispatched.

use crate::text::same_text;
use vstd::prelude::*;

verus! {

/// The kinds of element that a page can show.
#[derive(Debug, Clone, Copy, PartialEq, Eq, Structural)]
pub enum ComponentKind {
    Paragraph,
    Anchor,
}

impl ComponentKind {
    /// The name of the kind.
    pub open spec fn name_text(self) -> Seq<char> {
        match self {
            ComponentKind::Paragraph => "paragraph"@,
            ComponentKind::Anchor => "anchor"@,
        }
    }

    /// The kind that a name stands for, if it stands for one.
    pub open spec fn of_name(name: Seq<char>) -> Option<ComponentKind> {
        if name == ComponentKind::Paragraph.name_text() {
            Some(ComponentKind::Paragraph)
        } else if name == ComponentKind::Anchor.name_text() {
            Some(ComponentKind::Anchor)
        } else {
            None
        }
    }

    /// The name of the kind: `paragraph` or `anchor`.
    pub fn name(self) -> (name: &'static str)
        ensures
            name@ == self.name_text(),
    {
        match self {
            ComponentKind::Paragraph => "paragraph",
            ComponentKind::Anchor => "anchor",
        }
    }

    /// The kind that `name` stands for; `None` for any other name.
    pub fn from_name(name: &str) -> (kind: Option<ComponentKind>)
        ensures
            kind == Self::of_name(name@),
    {
        if same_text(name, ComponentKind::Paragraph.name()) {
            Some(ComponentKind::Paragraph)
        } else if same_text(name, ComponentKind::Anchor.name()) {
            Some(ComponentKind::Anchor)
        } else {
            None
        }
    }
}

/// Every kind is found again by its name, so the two names differ.
pub proof fn lemma_kind_of_its_name(kind: ComponentKind)
    ensures
        ComponentKind::of_name(kind.name_text()) == Some(kind),
{
    reveal_strlit("paragraph");
    reveal_strlit("anchor");
    assert(ComponentKind::Paragraph.name_text().len() != ComponentKind::Anchor.name_text().len());
}

} // verus!
