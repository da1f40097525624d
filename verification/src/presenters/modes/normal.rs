//! The renderer of normal mode: the open buffer above its status line, or a
//! splash screen when no buffer is open.

use crate::errors::RenderError;
use crate::models::workspace::{BufferSummaryView, Workspace};
use crate::text::texts;
use crate::view::call::{print_at, DrawCallView};
use crate::view::color::Colors;
use crate::view::data::{segments_view, StatusLineData, StatusLineView};
use crate::view::frame::{
    all_accepted, commits_last, committed, drawn, lemma_commit_needs_whole_frame,
    lemma_drawn_whole, lemma_next_call,
};
use crate::view::position::Position;
use crate::view::presenter::Presenter;
use crate::view::style::Style;
use vstd::prelude::*;

verus! {

/// The color of the mode indicator: a warning while the buffer holds changes
/// that are not saved.
pub open spec fn mode_colors(modified: bool) -> Colors {
    if modified {
        Colors::Warning
    } else {
        Colors::Inverted
    }
}

/// The status-line segment that announces the mode.
pub open spec fn mode_segment(modified: bool) -> StatusLineView {
    StatusLineView {
        content: " NORMAL "@,
        style: Style::Default,
        colors: mode_colors(modified),
    }
}

/// The row of line `index` of a block of `count` lines centered in `height`
/// rows. Halves are rounded down, so a block that cannot sit exactly in the
/// middle sits one row higher.
pub open spec fn centered_row(height: nat, count: nat, index: int) -> int {
    height / 2 - count / 2 + index
}

/// The column at which a line of `length` characters starts when centered in
/// `width` columns.
pub open spec fn centered_column(width: nat, length: nat) -> int {
    width / 2 - length / 2
}

/// The request that draws line `index` of the splash screen.
pub open spec fn splash_line(
    height: nat,
    width: nat,
    content: Seq<Seq<char>>,
    index: int,
) -> DrawCallView {
    print_at(
        centered_row(height, content.len(), index),
        centered_column(width, content[index].len()),
        Style::Default,
        Colors::Default,
        content[index],
    )
}

/// The frame of normal mode, as planned for a viewport of the given size.
/// With a buffer: the buffer, and a status line of three segments, the last
/// of them the buffer's state under version control. Without: the splash
/// block, centered, and no cursor.
pub open spec fn frame(
    workspace: Option<BufferSummaryView>,
    vcs_status: StatusLineView,
    height: nat,
    width: nat,
    splash: Seq<Seq<char>>,
) -> Seq<DrawCallView> {
    match workspace {
        Some(buffer) => seq![
            DrawCallView::Clear,
            DrawCallView::Buffer,
            DrawCallView::StatusLine(
                seq![mode_segment(buffer.modified), buffer.status, vcs_status],
            ),
            DrawCallView::Present,
        ],
        None => seq![DrawCallView::Clear] + Seq::new(
            splash.len(),
            |index: int| splash_line(height, width, splash, index),
        ) + seq![DrawCallView::Cursor(None), DrawCallView::Present],
    }
}

/// The frame commits once, with its last request, and draws nothing after.
pub proof fn lemma_frame_commits_last(
    workspace: Option<BufferSummaryView>,
    vcs_status: StatusLineView,
    height: nat,
    width: nat,
    splash: Seq<Seq<char>>,
)
    ensures
        commits_last(frame(workspace, vcs_status, height, width, splash)),
{
}

/// With a buffer open, the status line has three segments, and the first,
/// the mode indicator, is drawn in the warning color exactly when the buffer
/// is modified and inverted exactly when it is not, whatever else the buffer
/// holds.
pub proof fn lemma_mode_indicator_shows_modification(
    buffer: BufferSummaryView,
    vcs_status: StatusLineView,
    height: nat,
    width: nat,
    splash: Seq<Seq<char>>,
)
    ensures
        ({
            let plan = frame(Some(buffer), vcs_status, height, width, splash);
            &&& plan.len() == 4
            &&& plan[2] matches DrawCallView::StatusLine(segments)
            &&& segments.len() == 3
            &&& segments[0].content == " NORMAL "@
            &&& segments[0].style == Style::Default
            &&& buffer.modified ==> segments[0].colors == Colors::Warning
            &&& !buffer.modified ==> segments[0].colors == Colors::Inverted
            &&& segments[1] == buffer.status
            &&& segments[2] == vcs_status
        }),
{
}

/// Without a buffer, line `index` of a splash block of `L` lines is printed
/// on row `H/2 - L/2 + index` of a viewport `H` rows high, starting at column
/// `W/2 - n/2` of its `W` columns, where `n` counts the line's characters.
/// The divisions round down. The first line is thus on row `H/2 - L/2`.
pub proof fn lemma_splash_is_centered(
    vcs_status: StatusLineView,
    height: nat,
    width: nat,
    splash: Seq<Seq<char>>,
    index: int,
)
    requires
        0 <= index < splash.len(),
    ensures
        frame(None, vcs_status, height, width, splash)[1 + index] == print_at(
            (height as int) / 2 - (splash.len() as int) / 2 + index,
            (width as int) / 2 - (splash[index].len() as int) / 2,
            Style::Default,
            Colors::Default,
            splash[index],
        ),
        frame(None, vcs_status, height, width, splash).len() == splash.len() + 3,
        frame(None, vcs_status, height, width, splash)[splash.len() as int + 1]
            == DrawCallView::Cursor(None),
{
}

/// Draws one frame of normal mode.
///
/// The requests of [`frame`] are issued in order. A splash line whose
/// centered position falls outside the viewport cannot be printed; the frame
/// then ends there, short of its commit, and the error is returned.
pub fn display(
    workspace: &Workspace,
    presenter: &mut Presenter,
    vcs_status: &StatusLineData,
    splash: &Vec<String>,
) -> (result: Result<(), RenderError>)
    ensures
        final(presenter)@.height == old(presenter)@.height,
        final(presenter)@.width == old(presenter)@.width,
        final(presenter)@.calls == drawn(
            frame(
                workspace@,
                vcs_status@,
                old(presenter)@.height,
                old(presenter)@.width,
                texts(splash@),
            ),
            old(presenter)@.height,
            old(presenter)@.width,
        ),
        result is Ok <==> all_accepted(
            frame(
                workspace@,
                vcs_status@,
                old(presenter)@.height,
                old(presenter)@.width,
                texts(splash@),
            ),
            old(presenter)@.height,
            old(presenter)@.width,
        ),
        result is Ok <==> final(presenter)@.presented(),
        result is Ok <==> final(presenter)@.calls.contains(DrawCallView::Present),
{
    let ghost h = presenter@.height;
    let ghost w = presenter@.width;
    let ghost content = texts(splash@);
    let ghost plan = frame(workspace@, vcs_status@, h, w, content);
    proof {
        lemma_frame_commits_last(workspace@, vcs_status@, h, w, content);
        lemma_commit_needs_whole_frame(plan, h, w);
    }

    // Wipe the slate clean.
    presenter.clear();

    match &workspace.current_buffer {
        Some(buffer) => {
            // Draw the visible set of tokens to the terminal.
            presenter.draw_buffer();

            // Determine mode display color based on buffer modification status.
            let colors = if buffer.modified {
                Colors::Warning
            } else {
                Colors::Inverted
            };

            // Build the status line mode and buffer title display.
            let mut status_line_data: Vec<StatusLineData> = Vec::new();
            status_line_data.push(StatusLineData::new(" NORMAL ", Style::Default, colors));
            status_line_data.push(buffer.status.duplicate());
            status_line_data.push(vcs_status.duplicate());
            assert(segments_view(status_line_data@) =~= seq![
                mode_segment(buffer@.modified),
                buffer@.status,
                vcs_status@,
            ]);

            // Draw the status line.
            presenter.draw_status_line(status_line_data);
        },
        None => {
            let line_count = splash.len();
            let vertical_offset = line_count / 2;
            let height = presenter.height();
            let top = height / 2;
            let middle = presenter.width() / 2;

            let mut line_no: usize = 0;
            while line_no < line_count
                invariant
                    line_no <= line_count,
                    line_count == splash@.len(),
                    vertical_offset == line_count / 2,
                    workspace@ is None,
                    content == texts(splash@),
                    plan == frame(workspace@, vcs_status@, h, w, content),
                    committed(drawn(plan, h, w)) <==> all_accepted(plan, h, w),
                    drawn(plan, h, w).contains(DrawCallView::Present) <==> all_accepted(plan, h, w),
                    h == old(presenter)@.height,
                    w == old(presenter)@.width,
                    presenter@.height == h,
                    presenter@.width == w,
                    height == h,
                    top == h / 2,
                    middle == w / 2,
                    presenter@.calls == plan.take(1 + line_no),
                    all_accepted(presenter@.calls, h, w),
                decreases line_count - line_no,
            {
                let line = &splash[line_no];
                let length = line.as_str().unicode_len();
                let ghost next = splash_line(h, w, content, line_no as int);
                proof {
                    assert(content[line_no as int] == line@);
                    assert(plan[1 + line_no] == next);
                    lemma_next_call(plan, h, w, 1 + line_no);
                }
                let row = if line_no >= vertical_offset {
                    match top.checked_add(line_no - vertical_offset) {
                        Some(row) => row,
                        None => {
                            return Err(RenderError {});
                        },
                    }
                } else if top >= vertical_offset - line_no {
                    top - (vertical_offset - line_no)
                } else {
                    return Err(RenderError {});
                };
                if middle < length / 2 {
                    return Err(RenderError {});
                }
                let position = Position { line: row, offset: middle - length / 2 };

                presenter.print(&position, Style::Default, Colors::Default, line.as_str())?;
                line_no += 1;
            }

            presenter.set_cursor(None);
        },
    }

    // Render the changes to the screen.
    presenter.present();

    proof {
        assert(presenter@.calls =~= plan);
        lemma_drawn_whole(plan, h, w);
    }
    Ok(())
}

} // verus!
