//! What a renderer reads of the workspace.

use crate::view::data::{StatusLineData, StatusLineView};
use vstd::prelude::*;

verus! {

/// What a renderer reads of the open buffer: whether it holds unsaved
/// changes, and the status-line segment that summarises it (its path, its
/// position in the file), which is computed elsewhere.
#[derive(Clone, Debug, PartialEq, Eq)]
pub struct BufferSummary {
    pub modified: bool,
    pub status: StatusLineData,
}

/// The mathematical value of a buffer summary.
pub struct BufferSummaryView {
    pub modified: bool,
    pub status: StatusLineView,
}

impl View for BufferSummary {
    type V = BufferSummaryView;

    open spec fn view(&self) -> BufferSummaryView {
        BufferSummaryView { modified: self.modified, status: self.status@ }
    }
}

/// The workspace as a renderer sees it: the current buffer, if one is open.
#[derive(Clone, Debug, PartialEq, Eq)]
pub struct Workspace {
    pub current_buffer: Option<BufferSummary>,
}

impl View for Workspace {
    type V = Option<BufferSummaryView>;

    open spec fn view(&self) -> Option<BufferSummaryView> {
        match self.current_buffer {
            Some(buffer) => Some(buffer@),
            None => None,
        }
    }
}

} // verus!
