//! The renderers of the editor's modes.

pub mod normal;
pub mod search_select;
