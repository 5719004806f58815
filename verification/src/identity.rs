//! Identity tokens: what tells one element from another.

use vstd::prelude::*;

verus! {

/// The identity token of an element.
///
/// Tokens are drawn at random from a space of 256 values, so two elements
/// can receive the same token: nothing detects that.
pub type Id = u8;

/// Draws a token with `rand::random`.
///
/// Nothing is claimed of the token: any value of [`Id`] can come back, and
/// two calls may or may not give the same one. `rand::random` panics when
/// the thread's generator cannot be seeded from the operating system.
#[verifier::external_body]
pub(crate) fn gen_id() -> (id: Id) {
    rand::random()
}

} // verus!
