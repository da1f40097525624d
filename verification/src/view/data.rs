//! Status-line segments.

use super::color::Colors;
use super::style::Style;
use vstd::prelude::*;

verus! {

/// One segment of the status line: its text and how it is drawn. Segments
/// are laid out left to right in the order given; nothing here checks that
/// they fit the row.
#[derive(Clone, Debug, PartialEq, Eq)]
pub struct StatusLineData {
    pub content: String,
    pub style: Style,
    pub colors: Colors,
}

/// The mathematical value of a status-line segment.
pub struct StatusLineView {
    pub content: Seq<char>,
    pub style: Style,
    pub colors: Colors,
}

impl View for StatusLineData {
    type V = StatusLineView;

    open spec fn view(&self) -> StatusLineView {
        StatusLineView { content: self.content@, style: self.style, colors: self.colors }
    }
}

/// The values of a row of segments, in order.
pub open spec fn segments_view(data: Seq<StatusLineData>) -> Seq<StatusLineView> {
    data.map_values(|d: StatusLineData| d@)
}

impl StatusLineData {
    /// A segment with a copy of the given text.
    pub fn new(content: &str, style: Style, colors: Colors) -> (data: StatusLineData)
        ensures
            data@.content == content@,
            data@.style == style,
            data@.colors == colors,
    {
        StatusLineData { content: String::from_str(content), style, colors }
    }

    /// A copy of this segment.
    pub fn duplicate(&self) -> (data: StatusLineData)
        ensures
            data@ == self@,
    {
        StatusLineData { content: self.content.clone(), style: self.style, colors: self.colors }
    }
}

} // verus!
