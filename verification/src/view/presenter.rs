//! The per-frame rendering session.

use super::call::{calls_view, print_at, DrawCall, DrawCallView};
use super::color::Colors;
use super::data::{segments_view, StatusLineData};
use super::frame::committed;
use super::position::Position;
use super::style::Style;
use crate::errors::RenderError;
use vstd::prelude::*;

verus! {

/// A rendering session over a viewport of fixed size. It records, in order,
/// the requests of the frame being built; the backend performs them later.
pub struct Presenter {
    height: usize,
    width: usize,
    calls: Vec<DrawCall>,
}

/// The mathematical value of a session: its geometry and the requests
/// recorded since the frame was last cleared.
pub struct PresenterView {
    pub height: nat,
    pub width: nat,
    pub calls: Seq<DrawCallView>,
}

impl PresenterView {
    /// Whether the frame has been committed: its last request is the commit.
    pub open spec fn presented(self) -> bool {
        committed(self.calls)
    }

    /// This session with one more request recorded.
    pub open spec fn with(self, call: DrawCallView) -> PresenterView {
        PresenterView { height: self.height, width: self.width, calls: self.calls.push(call) }
    }
}

impl View for Presenter {
    type V = PresenterView;

    closed spec fn view(&self) -> PresenterView {
        PresenterView {
            height: self.height as nat,
            width: self.width as nat,
            calls: calls_view(self.calls@),
        }
    }
}

impl Presenter {
    /// A session over a viewport of `height` rows and `width` columns, with
    /// nothing recorded.
    pub fn new(height: usize, width: usize) -> (presenter: Presenter)
        ensures
            presenter@.height == height,
            presenter@.width == width,
            presenter@.calls == Seq::<DrawCallView>::empty(),
    {
        let presenter = Presenter { height, width, calls: Vec::new() };
        assert(presenter@.calls =~= Seq::<DrawCallView>::empty());
        presenter
    }

    /// The number of rows of the viewport.
    pub fn height(&self) -> (height: usize)
        ensures
            height == self@.height,
    {
        self.height
    }

    /// The number of columns of the viewport.
    pub fn width(&self) -> (width: usize)
        ensures
            width == self@.width,
    {
        self.width
    }

    /// The requests recorded so far, oldest first.
    pub fn calls(&self) -> (calls: &Vec<DrawCall>)
        ensures
            calls_view(calls@) == self@.calls,
    {
        &self.calls
    }

    /// Whether the frame has been committed.
    pub fn presented(&self) -> (presented: bool)
        ensures
            presented == self@.presented(),
    {
        let n: usize = self.calls.len();
        if n == 0 {
            false
        } else {
            match &self.calls[n - 1] {
                DrawCall::Present => true,
                _ => false,
            }
        }
    }

    fn record(&mut self, call: DrawCall)
        ensures
            final(self)@ == old(self)@.with(call@),
    {
        self.calls.push(call);
        assert(calls_view(self.calls@) =~= calls_view(old(self).calls@).push(call@));
    }

    /// Blanks the pending frame: whatever was recorded is dropped, and the
    /// frame starts over with the request to clear the screen.
    pub fn clear(&mut self)
        ensures
            final(self)@.height == old(self)@.height,
            final(self)@.width == old(self)@.width,
            final(self)@.calls == seq![DrawCallView::Clear],
    {
        self.calls = Vec::new();
        self.calls.push(DrawCall::Clear);
        assert(calls_view(self.calls@) =~= seq![DrawCallView::Clear]);
    }

    /// Requests the visible part of the current buffer.
    pub fn draw_buffer(&mut self)
        ensures
            final(self)@ == old(self)@.with(DrawCallView::Buffer),
    {
        self.record(DrawCall::Buffer);
    }

    /// Requests the given segments on the status row, in the order given.
    pub fn draw_status_line(&mut self, data: Vec<StatusLineData>)
        ensures
            final(self)@ == old(self)@.with(DrawCallView::StatusLine(segments_view(data@))),
    {
        self.record(DrawCall::StatusLine(data));
    }

    /// Requests `content` at `position`. A position outside the viewport is
    /// refused: nothing is recorded and the error is returned.
    pub fn print(
        &mut self,
        position: &Position,
        style: Style,
        colors: Colors,
        content: &str,
    ) -> (result: Result<(), RenderError>)
        ensures
            result is Ok <==> position@.within(old(self)@.height, old(self)@.width),
            result is Ok ==> final(self)@ == old(self)@.with(
                print_at(position.line as int, position.offset as int, style, colors, content@),
            ),
            result is Err ==> final(self)@ == old(self)@,
    {
        if position.within(self.height, self.width) {
            self.record(
                DrawCall::Print {
                    position: *position,
                    style,
                    colors,
                    content: String::from_str(content),
                },
            );
            Ok(())
        } else {
            Err(RenderError {})
        }
    }

    /// Requests the hardware cursor at `position`, or hidden when there is
    /// none.
    pub fn set_cursor(&mut self, position: Option<Position>)
        ensures
            final(self)@ == old(self)@.with(
                DrawCallView::Cursor(
                    match position {
                        Some(p) => Some(p@),
                        None => None,
                    },
                ),
            ),
    {
        self.record(DrawCall::Cursor(position));
    }

    /// Commits the frame.
    pub fn present(&mut self)
        ensures
            final(self)@ == old(self)@.with(DrawCallView::Present),
            final(self)@.presented(),
    {
        self.record(DrawCall::Present);
    }
}

} // verus!
