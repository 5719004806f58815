//! The settings pane: one text field whose every change is passed on.

use crate::text::optional_text;
use vstd::prelude::*;

verus! {

/// The two states of the text field.
#[derive(Debug, Clone, Copy, PartialEq, Eq, Structural)]
pub enum FieldState {
    /// The field holds no text.
    Empty,
    /// The field holds some text.
    HasText,
}

/// What the pane passes on when its field holds `raw`: nothing for the empty
/// text, else the text as it is.
pub open spec fn emitted(raw: Seq<char>) -> Option<Seq<char>> {
    if raw.len() == 0 {
        None
    } else {
        Some(raw)
    }
}

/// The state of a field that holds `raw`.
pub open spec fn state_of(raw: Seq<char>) -> FieldState {
    if raw.len() == 0 {
        FieldState::Empty
    } else {
        FieldState::HasText
    }
}

/// What the pane passes on when its field holds `raw`: `None` for the empty
/// text, else `raw` itself. The text is not checked in any way.
pub fn emitted_value(raw: String) -> (value: Option<String>)
    ensures
        optional_text(value) == emitted(raw@),
{
    if raw.as_str().is_empty() {
        None
    } else {
        Some(raw)
    }
}

/// The settings pane.
#[derive(Debug)]
pub struct SettingPane {
    pub state: FieldState,
}

impl SettingPane {
    /// A pane whose field is empty.
    pub fn new() -> (pane: SettingPane)
        ensures
            pane.state == FieldState::Empty,
    {
        SettingPane { state: FieldState::Empty }
    }

    /// Takes one change of the field, which now holds `raw`: moves to the
    /// state of that text and returns what is passed on.
    pub fn on_input(&mut self, raw: String) -> (value: Option<String>)
        ensures
            final(self).state == state_of(raw@),
            optional_text(value) == emitted(raw@),
    {
        let value = emitted_value(raw);
        self.state = match &value {
            Some(_) => FieldState::HasText,
            None => FieldState::Empty,
        };
        value
    }
}

} // verus!
