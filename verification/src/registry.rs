//! The element registry: the elements of a page, in the order in which they
//! are shown.

use crate::element::{ElementData, ElementView};
use crate::markup::{Markup, MarkupView};
use vstd::prelude::*;
use vstd::std_specs::cmp::PartialEqSpecImpl;

verus! {

/// The values of a list of handles, in the same order.
pub open spec fn element_views(elements: Seq<ElementData>) -> Seq<ElementView> {
    elements.map_values(|element: ElementData| element@)
}

/// The values of a list of markup nodes, in the same order.
pub open spec fn markup_views(nodes: Seq<Markup>) -> Seq<MarkupView> {
    nodes.map_values(|node: Markup| node@)
}

/// What a list of elements renders to: the markup of each, in the same order.
pub open spec fn markup_of_all(elements: Seq<ElementView>) -> Seq<MarkupView> {
    elements.map_values(|element: ElementView| element.markup())
}

/// Whether two lists hold the same elements at the same places, going by
/// identity.
pub open spec fn same_elements(left: Seq<ElementView>, right: Seq<ElementView>) -> bool {
    &&& left.len() == right.len()
    &&& forall|i: int| 0 <= i < left.len() ==> (#[trigger] left[i]).same_identity(right[i])
}

/// The elements of a page. The order of insertion is the order of rendering.
#[derive(Debug)]
pub struct ElementRegistry {
    pub elements: Vec<ElementData>,
}

impl View for ElementRegistry {
    type V = Seq<ElementView>;

    open spec fn view(&self) -> Seq<ElementView> {
        element_views(self.elements@)
    }
}

impl PartialEq for ElementRegistry {
    /// Two registries are equal when they hold the same elements at the same
    /// places, going by identity.
    fn eq(&self, other: &Self) -> (same: bool) {
        if self.elements.len() != other.elements.len() {
            return false;
        }
        let mut i: usize = 0;
        while i < self.elements.len()
            invariant
                i <= self.elements.len(),
                self.elements.len() == other.elements.len(),
                forall|j: int| 0 <= j < i ==> (#[trigger] self@[j]).same_identity(other@[j]),
            decreases self.elements.len() - i,
        {
            if !(self.elements[i] == other.elements[i]) {
                assert(!self@[i as int].same_identity(other@[i as int]));
                return false;
            }
            i += 1;
        }
        true
    }
}

impl PartialEqSpecImpl for ElementRegistry {
    open spec fn obeys_eq_spec() -> bool {
        true
    }

    open spec fn eq_spec(&self, other: &Self) -> bool {
        same_elements(self@, other@)
    }
}

impl ElementRegistry {
    /// A registry without elements.
    pub fn new() -> (registry: ElementRegistry)
        ensures
            registry@ == Seq::<ElementView>::empty(),
    {
        let registry = ElementRegistry { elements: Vec::new() };
        assert(registry@ =~= Seq::<ElementView>::empty());
        registry
    }

    /// The number of elements.
    pub fn len(&self) -> (len: usize)
        ensures
            len == self@.len(),
    {
        self.elements.len()
    }

    /// Adds `element` after the elements that are there.
    pub fn push(&mut self, element: ElementData)
        ensures
            final(self)@ == old(self)@.push(element@),
    {
        self.elements.push(element);
        assert(self@ =~= old(self)@.push(element@));
    }

    /// Renders every element, in order.
    pub fn render(&self) -> (rendered: Vec<Markup>)
        ensures
            markup_views(rendered@) == markup_of_all(self@),
            rendered@.len() == self@.len(),
            forall|i: int| 0 <= i < self@.len() ==> (#[trigger] rendered@[i])@ == self@[i].markup(),
    {
        let mut rendered: Vec<Markup> = Vec::new();
        let mut i: usize = 0;
        while i < self.elements.len()
            invariant
                i <= self.elements.len(),
                rendered@.len() == i,
                forall|j: int| 0 <= j < i ==> (#[trigger] rendered@[j])@ == self@[j].markup(),
            decreases self.elements.len() - i,
        {
            rendered.push(self.elements[i].render());
            i += 1;
        }
        assert(markup_views(rendered@) =~= markup_of_all(self@));
        rendered
    }
}

/// Rendering keeps the order of insertion: what is added last is rendered
/// last, after all that was rendered before.
pub proof fn lemma_render_follows_insertion(elements: Seq<ElementView>, element: ElementView)
    ensures
        markup_of_all(elements.push(element)) == markup_of_all(elements).push(element.markup()),
        forall|i: int|
            0 <= i < elements.len() ==> #[trigger] markup_of_all(elements)[i]
                == elements[i].markup(),
{
    assert(markup_of_all(elements.push(element)) =~= markup_of_all(elements).push(
        element.markup(),
    ));
}

} // verus!
