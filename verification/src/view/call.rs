//! The requests a frame is made of.

use super::color::Colors;
use super::data::{segments_view, StatusLineData, StatusLineView};
use super::position::{Cell, Position};
use super::style::Style;
use vstd::prelude::*;

verus! {

/// One request to the terminal backend.
#[derive(Clone, Debug, PartialEq, Eq)]
pub enum DrawCall {
    /// Blank the pending frame.
    Clear,
    /// Draw the visible part of the current buffer, with neither a selection
    /// nor a highlighted term.
    Buffer,
    /// Draw these segments, left to right, on the status row.
    StatusLine(Vec<StatusLineData>),
    /// Write `content` starting at `position`.
    Print { position: Position, style: Style, colors: Colors, content: String },
    /// Show the hardware cursor at the position, or hide it.
    Cursor(Option<Position>),
    /// Commit the pending frame to the screen.
    Present,
}

/// The mathematical value of a request. A print may name any cell of the
/// plane; whether the viewport holds that cell is a separate question.
pub enum DrawCallView {
    Clear,
    Buffer,
    StatusLine(Seq<StatusLineView>),
    Print { position: Cell, style: Style, colors: Colors, content: Seq<char> },
    Cursor(Option<Cell>),
    Present,
}

impl View for DrawCall {
    type V = DrawCallView;

    open spec fn view(&self) -> DrawCallView {
        match *self {
            DrawCall::Clear => DrawCallView::Clear,
            DrawCall::Buffer => DrawCallView::Buffer,
            DrawCall::StatusLine(data) => DrawCallView::StatusLine(segments_view(data@)),
            DrawCall::Print { position, style, colors, content } => DrawCallView::Print {
                position: position@,
                style,
                colors,
                content: content@,
            },
            DrawCall::Cursor(position) => DrawCallView::Cursor(
                match position {
                    Some(p) => Some(p@),
                    None => None,
                },
            ),
            DrawCall::Present => DrawCallView::Present,
        }
    }
}

/// The values of a list of requests, in order.
pub open spec fn calls_view(calls: Seq<DrawCall>) -> Seq<DrawCallView> {
    calls.map_values(|c: DrawCall| c@)
}

/// A request to write `content` at row `line`, column `offset`.
pub open spec fn print_at(
    line: int,
    offset: int,
    style: Style,
    colors: Colors,
    content: Seq<char>,
) -> DrawCallView {
    DrawCallView::Print { position: Cell { line, offset }, style, colors, content }
}

/// A request to show the cursor at row `line`, column `offset`.
pub open spec fn cursor_at(line: int, offset: int) -> DrawCallView {
    DrawCallView::Cursor(Some(Cell { line, offset }))
}

impl DrawCallView {
    /// Whether the request prints text that starts on the given row.
    pub open spec fn prints_on(self, line: int) -> bool {
        self matches DrawCallView::Print { position, .. } && position.line == line
    }

    /// Whether a viewport of the given size accepts the request. Only a print
    /// can be refused, and only for where it starts: text that runs past the
    /// right edge is the backend's to clip.
    pub open spec fn accepted(self, height: nat, width: nat) -> bool {
        match self {
            DrawCallView::Print { position, .. } => position.within(height, width),
            _ => true,
        }
    }
}

} // verus!
