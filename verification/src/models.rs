//! The editor state that renderers read.

pub mod search_select;
pub mod workspace;

pub use self::search_select::{SearchSelectConfig, SearchSelectMode, SearchSelectView};
pub use self::workspace::{BufferSummary, BufferSummaryView, Workspace};
