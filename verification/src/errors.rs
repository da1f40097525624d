//! The one way in which rendering fails.

use vstd::prelude::*;

verus! {

/// A draw, print or status-line request that could not be satisfied: its
/// position lies outside the viewport, or the backend refused it.
#[derive(Clone, Copy, Debug, PartialEq, Eq, Structural)]
pub struct RenderError {}

} // verus!
