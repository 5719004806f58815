//! Styled page elements behind one polymorphic handle.

pub mod anchor;
pub mod element;
pub mod fields;
pub mod identity;
pub mod kind;
pub mod markup;
pub mod page;
pub mod paragraph;
pub mod registry;
pub mod setting_pane;
pub mod style;
pub mod text;
