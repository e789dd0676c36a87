//! Action rules for a Coup-style bluffing card game.
//!
//! The crate is a stateless catalogue of the declarable player actions.
//! It answers, for each action, its economic effect (coins gained or
//! paid), whether it can be challenged, by which counter-actions it can
//! be blocked given who is asking, and its display label.

use vstd::prelude::*;

pub mod action;

verus! {

/// An opaque player identity. The catalogue only ever compares two of
/// them for equality; it never creates or stores one.
#[derive(Debug, Clone, Copy, PartialEq, Eq, Structural, Hash)]
pub struct PlayerID(pub u64);

} // verus!
