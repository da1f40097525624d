//! Semantic palette roles.

use vstd::prelude::*;

verus! {

/// The palette role a piece of text is drawn with. The backend maps each
/// role to concrete terminal colors.
#[derive(Clone, Copy, Debug, PartialEq, Eq, Structural)]
pub enum Colors {
    Default,
    Focused,
    Inverted,
    Insert,
    Warning,
}

} // verus!
