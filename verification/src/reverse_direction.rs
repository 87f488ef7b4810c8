//! Reversal zones. A zone carries no state of its own: its whole effect
//! is the `Reversal` tag on its collider's owning object, which the
//! contact classifier reads and the motion resolver turns into a facing
//! flip and a horizontal hard stop.

use vstd::prelude::*;

verus! {

/// The marker script of a reversal zone.
#[derive(Clone, Copy, Debug, PartialEq, Eq, Structural, Default)]
pub struct ReverseDirection {}

} // verus!
