//! Text weight roles.

use vstd::prelude::*;

verus! {

/// The weight a piece of text is drawn with.
#[derive(Clone, Copy, Debug, PartialEq, Eq, Structural)]
pub enum Style {
    Default,
    Bold,
}

} // verus!
