//! The two colour properties of an element and their CSS text.

use crate::text::{clone_optional_text, optional_text, same_optional_text};
use vstd::prelude::*;
use vstd::std_specs::cmp::PartialEqSpecImpl;
use vstd::string::*;

verus! {

/// The CSS property name of the background colour.
pub open spec fn background_color_property() -> Seq<char> {
    "background-color"@
}

/// The CSS property name of the text colour.
pub open spec fn color_property() -> Seq<char> {
    "color"@
}

/// One CSS declaration: a property and the value given to it.
pub struct Declaration {
    pub property: Seq<char>,
    pub value: Seq<char>,
}

impl Declaration {
    /// The text of the declaration: the property, a colon, the value, a semicolon.
    pub open spec fn text(self) -> Seq<char> {
        self.property + seq![':'] + self.value + seq![';']
    }
}

/// The text of a list of declarations, one after the other.
pub open spec fn declarations_text(declarations: Seq<Declaration>) -> Seq<char>
    decreases declarations.len(),
{
    if declarations.len() == 0 {
        Seq::empty()
    } else {
        declarations_text(declarations.drop_last()) + declarations.last().text()
    }
}

/// The zero or one declarations that an optional value gives to a property.
pub open spec fn optional_declaration(property: Seq<char>, value: Option<Seq<char>>) -> Seq<
    Declaration,
> {
    match value {
        Some(v) => seq![Declaration { property, value: v }],
        None => Seq::empty(),
    }
}

/// Whether some declaration of the list is about `property`.
pub open spec fn declares(declarations: Seq<Declaration>, property: Seq<char>) -> bool {
    exists|i: int| 0 <= i < declarations.len() && (#[trigger] declarations[i]).property == property
}

/// The mathematical value of a [`Style`].
pub struct StyleView {
    pub color: Option<Seq<char>>,
    pub background_color: Option<Seq<char>>,
}

impl StyleView {
    /// The declarations of the style, in the order in which they are written:
    /// the background colour first, the text colour second.
    pub open spec fn declarations(self) -> Seq<Declaration> {
        optional_declaration(background_color_property(), self.background_color)
            + optional_declaration(color_property(), self.color)
    }

    /// The CSS text of the style.
    pub open spec fn css(self) -> Seq<char> {
        declarations_text(self.declarations())
    }

    /// The style with its background colour replaced and its text colour kept.
    pub open spec fn with_background_color(self, background_color: Option<Seq<char>>) -> StyleView {
        StyleView { color: self.color, background_color }
    }
}

/// A text colour and a background colour, each of which may be absent.
///
/// A style is a value: changing it means making a new one.
#[derive(Debug)]
pub struct Style {
    pub color: Option<String>,
    pub background_color: Option<String>,
}

impl View for Style {
    type V = StyleView;

    open spec fn view(&self) -> StyleView {
        StyleView {
            color: optional_text(self.color),
            background_color: optional_text(self.background_color),
        }
    }
}

impl Clone for Style {
    fn clone(&self) -> (copy: Self)
        ensures
            copy == *self,
    {
        Style {
            color: clone_optional_text(&self.color),
            background_color: clone_optional_text(&self.background_color),
        }
    }
}

impl Default for Style {
    /// The style without any colour.
    fn default() -> (style: Self)
        ensures
            style@ == (StyleView { color: None, background_color: None }),
    {
        Style { color: None, background_color: None }
    }
}

impl PartialEq for Style {
    /// Two styles are equal when they hold the same colours.
    fn eq(&self, other: &Self) -> (same: bool) {
        same_optional_text(&self.color, &other.color) && same_optional_text(
            &self.background_color,
            &other.background_color,
        )
    }
}

impl PartialEqSpecImpl for Style {
    open spec fn obeys_eq_spec() -> bool {
        true
    }

    open spec fn eq_spec(&self, other: &Self) -> bool {
        self@ == other@
    }
}

impl Style {
    /// The CSS text of the style: one declaration for each colour that is
    /// present, the background colour before the text colour. A style
    /// without colours gives the empty text.
    pub fn to_css(&self) -> (css: String)
        ensures
            css@ == self@.css(),
    {
        let mut css = String::new();
        let ghost mut written: Seq<Declaration> = Seq::empty();
        if let Some(background_color) = &self.background_color {
            css.append("background-color:");
            css.append(background_color.as_str());
            css.append(";");
            proof {
                reveal_strlit("background-color:");
                reveal_strlit("background-color");
                reveal_strlit(";");
                let declaration = Declaration {
                    property: background_color_property(),
                    value: background_color@,
                };
                lemma_declarations_text_push(written, declaration);
                assert(css@ =~= declarations_text(written) + declaration.text());
                written = written.push(declaration);
            }
        }
        if let Some(color) = &self.color {
            css.append("color:");
            css.append(color.as_str());
            css.append(";");
            proof {
                reveal_strlit("color:");
                reveal_strlit("color");
                reveal_strlit(";");
                let declaration = Declaration { property: color_property(), value: color@ };
                lemma_declarations_text_push(written, declaration);
                assert(css@ =~= declarations_text(written) + declaration.text());
                written = written.push(declaration);
            }
        }
        assert(written =~= self@.declarations());
        css
    }

    /// A new style with the background colour replaced by `background_color`
    /// and the text colour kept.
    pub fn with_background_color(&self, background_color: Option<String>) -> (restyled: Style)
        ensures
            restyled@ == self@.with_background_color(optional_text(background_color)),
            restyled@.background_color == optional_text(background_color),
            restyled@.color == self@.color,
    {
        Style { color: clone_optional_text(&self.color), background_color }
    }
}

/// Writing one more declaration appends its text.
pub proof fn lemma_declarations_text_push(declarations: Seq<Declaration>, last: Declaration)
    ensures
        declarations_text(declarations.push(last)) == declarations_text(declarations)
            + last.text(),
{
    assert(declarations.push(last).drop_last() =~= declarations);
}

/// The two property names differ.
pub proof fn lemma_properties_differ()
    ensures
        background_color_property() != color_property(),
{
    reveal_strlit("background-color");
    reveal_strlit("color");
    assert(background_color_property().len() != color_property().len());
}

/// A style declares a property exactly when it has the colour that the
/// property names, it declares that colour as the property's value, and the
/// background colour always comes before the text colour.
pub proof fn lemma_declarations_follow_colors(style: StyleView)
    ensures
        declares(style.declarations(), background_color_property())
            <==> style.background_color is Some,
        declares(style.declarations(), color_property()) <==> style.color is Some,
        forall|i: int|
            0 <= i < style.declarations().len() && (#[trigger] style.declarations()[i]).property
                == background_color_property() ==> style.background_color == Some(
                style.declarations()[i].value,
            ),
        forall|i: int|
            0 <= i < style.declarations().len() && (#[trigger] style.declarations()[i]).property
                == color_property() ==> style.color == Some(style.declarations()[i].value),
        forall|i: int, j: int|
            0 <= i < style.declarations().len() && 0 <= j < style.declarations().len() && (
            #[trigger] style.declarations()[i]).property == background_color_property() && (
            #[trigger] style.declarations()[j]).property == color_property() ==> i < j,
{
    lemma_properties_differ();
    let declarations = style.declarations();
    if style.background_color is Some {
        assert(declarations[0].property == background_color_property());
    }
    if style.color is Some {
        assert(declarations.last().property == color_property());
    }
}

/// The CSS text of a style, written out for each combination of colours
/// present and absent.
pub proof fn lemma_css_text(style: StyleView)
    ensures
        style.css() == match (style.background_color, style.color) {
            (None, None) => Seq::<char>::empty(),
            (Some(b), None) => (Declaration {
                property: background_color_property(),
                value: b,
            }).text(),
            (None, Some(c)) => (Declaration { property: color_property(), value: c }).text(),
            (Some(b), Some(c)) => (Declaration {
                property: background_color_property(),
                value: b,
            }).text() + (Declaration { property: color_property(), value: c }).text(),
        },
{
    match (style.background_color, style.color) {
        (None, None) => {
            assert(style.declarations() =~= Seq::empty());
        },
        (Some(b), None) => {
            let d = Declaration { property: background_color_property(), value: b };
            assert(style.declarations() =~= Seq::empty().push(d));
            lemma_declarations_text_push(Seq::empty(), d);
            assert(style.css() =~= d.text());
        },
        (None, Some(c)) => {
            let d = Declaration { property: color_property(), value: c };
            assert(style.declarations() =~= Seq::empty().push(d));
            lemma_declarations_text_push(Seq::empty(), d);
            assert(style.css() =~= d.text());
        },
        (Some(b), Some(c)) => {
            let d = Declaration { property: background_color_property(), value: b };
            let e = Declaration { property: color_property(), value: c };
            assert(style.declarations() =~= Seq::empty().push(d).push(e));
            lemma_declarations_text_push(Seq::empty(), d);
            lemma_declarations_text_push(Seq::empty().push(d), e);
            assert(style.css() =~= d.text() + e.text());
        },
    }
}

} // verus!
