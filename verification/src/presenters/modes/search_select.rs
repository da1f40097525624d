//! The renderer of search/select modes: a list of results above the query
//! being typed.

use crate::errors::RenderError;
use crate::models::search_select::{SearchSelectMode, SearchSelectView};
use crate::models::workspace::{BufferSummaryView, Workspace};
use crate::text::{
    columns, count_graphemes, grapheme_count, lemma_padded_empty, lemma_padded_shape, pad_to_width,
    padded, padding, spaces, texts,
};
use crate::view::call::{cursor_at, print_at, DrawCallView};
use crate::view::color::Colors;
use crate::view::data::{segments_view, StatusLineData, StatusLineView};
use crate::view::frame::{
    all_accepted, commits_last, committed, drawn, lemma_commit_needs_whole_frame, lemma_drawn_whole,
    lemma_next_call,
};
use crate::view::position::Position;
use crate::view::presenter::Presenter;
use crate::view::style::Style;
use vstd::prelude::*;

verus! {

/// The status-line segment that announces the mode: its name between two
/// spaces.
pub open spec fn title_segment(title: Seq<char>) -> StatusLineView {
    StatusLineView {
        content: " "@ + title + " "@,
        style: Style::Default,
        colors: Colors::Inverted,
    }
}

/// What opens the frame: the screen is cleared and, if a buffer is open, the
/// buffer and a status line of two segments are drawn.
pub open spec fn header(
    workspace: Option<BufferSummaryView>,
    mode: SearchSelectView,
) -> Seq<DrawCallView> {
    match workspace {
        Some(buffer) => seq![
            DrawCallView::Clear,
            DrawCallView::Buffer,
            DrawCallView::StatusLine(seq![title_segment(mode.title), buffer.status]),
        ],
        None => seq![DrawCallView::Clear],
    }
}

/// The row of the result at index `line`: marked and emphasised if it is the
/// selected one, indented otherwise, and padded to the full width.
pub open spec fn result_row(mode: SearchSelectView, width: nat, line: int) -> DrawCallView {
    if line == mode.selected_index {
        print_at(line, 0, Style::Bold, Colors::Focused, padded("> "@ + mode.results[line], width))
    } else {
        print_at(
            line,
            0,
            Style::Default,
            Colors::Default,
            padded("  "@ + mode.results[line], width),
        )
    }
}

/// The row that shows a message in place of the results.
pub open spec fn message_row(message: Seq<char>, width: nat) -> DrawCallView {
    print_at(0, 0, Style::Default, Colors::Default, padded(message, width))
}

/// The result area: the message alone if the mode holds one, else one row
/// per result, from row 0 down.
pub open spec fn listing(mode: SearchSelectView, width: nat) -> Seq<DrawCallView> {
    match mode.message {
        Some(message) => seq![message_row(message, width)],
        None => Seq::new(mode.results.len(), |line: int| result_row(mode, width, line)),
    }
}

/// The first row that is blanked: the one after the last result, and never
/// row 0.
pub open spec fn first_spare_row(mode: SearchSelectView) -> nat {
    if mode.results.len() >= 1 {
        mode.results.len()
    } else {
        1
    }
}

/// The number of rows that are blanked.
pub open spec fn spare_rows(mode: SearchSelectView) -> nat {
    if mode.max_results > first_spare_row(mode) {
        (mode.max_results - first_spare_row(mode)) as nat
    } else {
        0
    }
}

/// A row of nothing but padding.
pub open spec fn blank_row(width: nat, line: int) -> DrawCallView {
    print_at(line, 0, Style::Default, Colors::Default, padded(Seq::<char>::empty(), width))
}

/// The rows blanked below the results, up to the query row.
pub open spec fn clearing(mode: SearchSelectView, width: nat) -> Seq<DrawCallView> {
    Seq::new(spare_rows(mode), |j: int| blank_row(width, first_spare_row(mode) + j))
}

/// The color of the query row.
pub open spec fn divider_colors(insert_mode: bool) -> Colors {
    if insert_mode {
        Colors::Insert
    } else {
        Colors::Inverted
    }
}

/// The query row, right below the result area.
pub open spec fn divider(mode: SearchSelectView, width: nat) -> DrawCallView {
    print_at(
        mode.max_results as int,
        0,
        Style::Bold,
        divider_colors(mode.insert_mode),
        padded(mode.query, width),
    )
}

/// Where the cursor goes: on the query row, after the last grapheme cluster
/// of the query.
pub open spec fn query_cursor(mode: SearchSelectView) -> DrawCallView {
    cursor_at(mode.max_results as int, grapheme_count(mode.query) as int)
}

/// What closes the frame: the query row, the cursor, the commit.
pub open spec fn footer(mode: SearchSelectView, width: nat) -> Seq<DrawCallView> {
    seq![divider(mode, width), query_cursor(mode), DrawCallView::Present]
}

/// The frame of a search/select mode, as planned for a viewport `width`
/// columns wide.
pub open spec fn frame(
    workspace: Option<BufferSummaryView>,
    mode: SearchSelectView,
    width: nat,
) -> Seq<DrawCallView> {
    header(workspace, mode) + listing(mode, width) + clearing(mode, width) + footer(mode, width)
}

/// Where each part of the frame lies in it.
pub proof fn lemma_frame_layout(
    workspace: Option<BufferSummaryView>,
    mode: SearchSelectView,
    width: nat,
)
    ensures
        ({
            let plan = frame(workspace, mode, width);
            let head = header(workspace, mode);
            let list = listing(mode, width);
            let spare = clearing(mode, width);
            let foot = (head.len() + list.len() + spare.len()) as int;
            &&& plan.len() == foot + 3
            &&& plan.take(head.len() as int) == head
            &&& forall|i: int| 0 <= i < list.len() ==> plan[head.len() + i] == #[trigger] list[i]
            &&& forall|j: int|
                0 <= j < spare.len() ==> plan[head.len() + list.len() + j] == #[trigger] spare[j]
            &&& plan[foot] == divider(mode, width)
            &&& plan[foot + 1] == query_cursor(mode)
            &&& plan[foot + 2] == DrawCallView::Present
        }),
{
    let plan = frame(workspace, mode, width);
    let head = header(workspace, mode);
    assert(plan.take(head.len() as int) =~= head);
}

/// The frame commits once, with its last request, and draws nothing after.
pub proof fn lemma_frame_commits_last(
    workspace: Option<BufferSummaryView>,
    mode: SearchSelectView,
    width: nat,
)
    ensures
        commits_last(frame(workspace, mode, width)),
{
    lemma_frame_layout(workspace, mode, width);
    let plan = frame(workspace, mode, width);
    let head = header(workspace, mode);
    let list = listing(mode, width);
    let spare = clearing(mode, width);
    assert forall|i: int| 0 <= i < plan.len() implies ((#[trigger] plan[i]) == DrawCallView::Present
        <==> i == plan.len() - 1) by {
        if i < head.len() {
            assert(plan[i] == plan.take(head.len() as int)[i]);
        } else if i < head.len() + list.len() {
            assert(plan[i] == list[i - head.len()]);
        } else if i < head.len() + list.len() + spare.len() {
            assert(plan[i] == spare[i - head.len() - list.len()]);
        }
    }
}

/// A mode that holds a message shows it alone in the result area: one row,
/// padded to the full width, at row 0, and not one row of results, however
/// many the mode holds. With at least one row reserved for results, no other
/// request of the frame prints on row 0.
pub proof fn lemma_message_replaces_results(
    workspace: Option<BufferSummaryView>,
    mode: SearchSelectView,
    width: nat,
    message: Seq<char>,
)
    requires
        mode.message == Some(message),
    ensures
        listing(mode, width) == seq![
            print_at(0, 0, Style::Default, Colors::Default, padded(message, width)),
        ],
        frame(workspace, mode, width)[header(workspace, mode).len() as int].prints_on(0),
        mode.max_results >= 1 ==> forall|i: int|
            0 <= i < frame(workspace, mode, width).len() && (#[trigger] frame(
                workspace,
                mode,
                width,
            )[i]).prints_on(0) ==> i == header(workspace, mode).len(),
{
    lemma_frame_layout(workspace, mode, width);
    let plan = frame(workspace, mode, width);
    let head = header(workspace, mode);
    let list = listing(mode, width);
    let spare = clearing(mode, width);
    assert(plan[head.len() as int] == list[0]);
    if mode.max_results >= 1 {
        assert forall|i: int| 0 <= i < plan.len() && (#[trigger] plan[i]).prints_on(0) implies i
            == head.len() by {
            if i < head.len() {
                assert(plan[i] == plan.take(head.len() as int)[i]);
            } else if i < head.len() + list.len() {
            } else if i < head.len() + list.len() + spare.len() {
                assert(plan[i] == spare[i - head.len() - list.len()]);
            }
        }
    }
}

/// Without a message, the result at index `line` is drawn on row `line`. The
/// selected one begins with `"> "` and is drawn bold in the focus color; any
/// other begins with two spaces and is drawn plain.
pub proof fn lemma_result_rows_are_marked(
    workspace: Option<BufferSummaryView>,
    mode: SearchSelectView,
    width: nat,
    line: int,
)
    requires
        mode.message is None,
        0 <= line < mode.results.len(),
    ensures
        frame(workspace, mode, width)[header(workspace, mode).len() + line] == result_row(
            mode,
            width,
            line,
        ),
        line == mode.selected_index ==> result_row(mode, width, line) == print_at(
            line,
            0,
            Style::Bold,
            Colors::Focused,
            padded("> "@ + mode.results[line], width),
        ) && "> "@.is_prefix_of(padded("> "@ + mode.results[line], width)),
        line != mode.selected_index ==> result_row(mode, width, line) == print_at(
            line,
            0,
            Style::Default,
            Colors::Default,
            padded("  "@ + mode.results[line], width),
        ) && "  "@.is_prefix_of(padded("  "@ + mode.results[line], width)),
        "> "@ == seq!['>', ' '],
        "  "@ == seq![' ', ' '],
{
    lemma_frame_layout(workspace, mode, width);
    reveal_strlit("> ");
    reveal_strlit("  ");
    assert("> "@ =~= seq!['>', ' ']);
    assert("  "@ =~= seq![' ', ' ']);
    assert(listing(mode, width)[line] == result_row(mode, width, line));
    lemma_padded_shape("> "@ + mode.results[line], width);
    lemma_padded_shape("  "@ + mode.results[line], width);
}

/// The text that a print of the frame pads: a result behind its marker, the
/// message, nothing, or the query.
pub open spec fn row_text(
    workspace: Option<BufferSummaryView>,
    mode: SearchSelectView,
    index: int,
) -> Seq<char> {
    let head = header(workspace, mode).len();
    let list = if mode.message is Some {
        1
    } else {
        mode.results.len()
    };
    if index < head + list {
        match mode.message {
            Some(message) => message,
            None => if index - head == mode.selected_index {
                "> "@ + mode.results[index - head]
            } else {
                "  "@ + mode.results[index - head]
            },
        }
    } else if index < head + list + spare_rows(mode) {
        Seq::<char>::empty()
    } else {
        mode.query
    }
}

/// Every row the frame prints is its text padded to the width of the
/// viewport. A text that fits therefore fills the row exactly: its own
/// columns and one space for each that is missing. Nothing is cut: a text
/// wider than the viewport is printed whole.
pub proof fn lemma_rows_fill_width(
    workspace: Option<BufferSummaryView>,
    mode: SearchSelectView,
    width: nat,
    index: int,
)
    requires
        0 <= index < frame(workspace, mode, width).len(),
        frame(workspace, mode, width)[index] is Print,
    ensures
        ({
            let text = row_text(workspace, mode, index);
            let row = frame(workspace, mode, width)[index]->content;
            &&& row == padded(text, width)
            &&& row == text + spaces(padding(text, width))
            &&& columns(text) <= width ==> columns(text) + padding(text, width) == width
            &&& columns(text) >= width ==> row == text
        }),
{
    lemma_frame_layout(workspace, mode, width);
    let plan = frame(workspace, mode, width);
    let head = header(workspace, mode);
    let list = listing(mode, width);
    let spare = clearing(mode, width);
    if index < head.len() {
        assert(plan[index] == plan.take(head.len() as int)[index]);
    } else if index < head.len() + list.len() {
        assert(plan[index] == list[index - head.len()]);
    } else if index < head.len() + list.len() + spare.len() {
        assert(plan[index] == spare[index - head.len() - list.len()]);
    }
    lemma_padded_shape(row_text(workspace, mode, index), width);
}

/// Every row from the one after the last result (but never row 0) up to the
/// query row is blanked, whatever an earlier frame drew there: the frame
/// prints `width` spaces on it.
pub proof fn lemma_spare_rows_are_blanked(
    workspace: Option<BufferSummaryView>,
    mode: SearchSelectView,
    width: nat,
    row: int,
)
    requires
        (if mode.results.len() >= 1 {
            mode.results.len()
        } else {
            1
        }) <= row < mode.max_results,
    ensures
        frame(workspace, mode, width)[header(workspace, mode).len() + listing(mode, width).len()
            + (row - first_spare_row(mode))] == print_at(
            row,
            0,
            Style::Default,
            Colors::Default,
            spaces(width),
        ),
        spaces(width).len() == width,
{
    lemma_frame_layout(workspace, mode, width);
    lemma_padded_empty(width);
    assert(clearing(mode, width)[row - first_spare_row(mode)] == blank_row(width, row));
}

/// The query row is printed on the row right below the result area, bold, in
/// the insert color exactly when the query is being edited and inverted
/// otherwise, whatever the query holds. The cursor is then placed on that
/// row, at the column that counts the query's grapheme clusters, and the
/// frame is committed.
pub proof fn lemma_query_row(
    workspace: Option<BufferSummaryView>,
    mode: SearchSelectView,
    width: nat,
)
    ensures
        ({
            let plan = frame(workspace, mode, width);
            &&& plan.len() >= 4
            &&& plan[plan.len() - 3] == print_at(
                mode.max_results as int,
                0,
                Style::Bold,
                if mode.insert_mode {
                    Colors::Insert
                } else {
                    Colors::Inverted
                },
                padded(mode.query, width),
            )
            &&& plan[plan.len() - 2] == cursor_at(
                mode.max_results as int,
                grapheme_count(mode.query) as int,
            )
            &&& plan[plan.len() - 1] == DrawCallView::Present
        }),
{
    lemma_frame_layout(workspace, mode, width);
}

/// Draws one frame of a search/select mode.
///
/// The requests of [`frame`] are issued in order. A print that starts outside
/// the viewport fails; the frame then ends there, short of its commit, and
/// the error is returned.
pub fn display(
    workspace: &Workspace,
    mode: &SearchSelectMode,
    presenter: &mut Presenter,
) -> (result: Result<(), RenderError>)
    ensures
        final(presenter)@.height == old(presenter)@.height,
        final(presenter)@.width == old(presenter)@.width,
        final(presenter)@.calls == drawn(
            frame(workspace@, mode@, old(presenter)@.width),
            old(presenter)@.height,
            old(presenter)@.width,
        ),
        result is Ok <==> all_accepted(
            frame(workspace@, mode@, old(presenter)@.width),
            old(presenter)@.height,
            old(presenter)@.width,
        ),
        result is Ok <==> final(presenter)@.presented(),
        result is Ok <==> final(presenter)@.calls.contains(DrawCallView::Present),
{
    let ghost h = presenter@.height;
    let ghost w = presenter@.width;
    let ghost plan = frame(workspace@, mode@, w);
    let ghost head = header(workspace@, mode@).len() as int;
    let ghost list = listing(mode@, w);
    let ghost spare = clearing(mode@, w);
    proof {
        lemma_frame_layout(workspace@, mode@, w);
        lemma_frame_commits_last(workspace@, mode@, w);
        lemma_commit_needs_whole_frame(plan, h, w);
    }
    let mode_config = mode.config();
    let width = presenter.width();

    // Wipe the slate clean.
    presenter.clear();

    match &workspace.current_buffer {
        Some(buffer) => {
            presenter.draw_buffer();

            // Draw the status line.
            let title = String::from_str(" ").concat(mode.title()).concat(" ");
            let mut data: Vec<StatusLineData> = Vec::new();
            data.push(
                StatusLineData { content: title, style: Style::Default, colors: Colors::Inverted },
            );
            data.push(buffer.status.duplicate());
            assert(segments_view(data@) =~= seq![title_segment(mode@.title), buffer@.status]);
            presenter.draw_status_line(data);
        },
        None => {},
    }
    assert(presenter@.calls =~= header(workspace@, mode@));

    let results = mode.results();
    assert(texts(results@).len() == results@.len());
    match mode.message() {
        Some(message) => {
            let padded_content = pad_to_width(message.as_str(), width);
            proof {
                assert(list[0] == message_row(message@, w));
                lemma_next_call(plan, h, w, head);
            }
            presenter.print(
                &Position { line: 0, offset: 0 },
                Style::Default,
                Colors::Default,
                padded_content.as_str(),
            )?;
        },
        None => {
            // Draw the list of search results.
            let mut line: usize = 0;
            while line < results.len()
                invariant
                    line <= results.len(),
                    texts(results@) == mode@.results,
                    results@.len() == list.len(),
                    plan == frame(workspace@, mode@, w),
                    committed(drawn(plan, h, w)) <==> all_accepted(plan, h, w),
                    drawn(plan, h, w).contains(DrawCallView::Present) <==> all_accepted(plan, h, w),
                    0 <= head,
                    forall|i: int| 0 <= i < list.len() ==> plan[head + i] == #[trigger] list[i],
                    forall|i: int| 0 <= i < list.len() ==> list[i] == result_row(mode@, w, i),
                    head + list.len() < plan.len(),
                    h == old(presenter)@.height,
                    w == old(presenter)@.width,
                    presenter@.height == h,
                    presenter@.width == w,
                    width == w,
                    presenter@.calls == plan.take(head + line),
                    all_accepted(presenter@.calls, h, w),
                decreases results.len() - line,
            {
                let result = &results[line];
                let selected = line == mode.selected_index();
                let content = if selected {
                    String::from_str("> ").concat(result.as_str())
                } else {
                    String::from_str("  ").concat(result.as_str())
                };
                let colors = if selected {
                    Colors::Focused
                } else {
                    Colors::Default
                };
                let style = if selected {
                    Style::Bold
                } else {
                    Style::Default
                };
                let padded_content = pad_to_width(content.as_str(), width);
                proof {
                    assert(texts(results@)[line as int] == result@);
                    assert(list[line as int] == result_row(mode@, w, line as int));
                    lemma_next_call(plan, h, w, head + line);
                }
                presenter.print(
                    &Position { line, offset: 0 },
                    style,
                    colors,
                    padded_content.as_str(),
                )?;
                line += 1;
            }
        },
    }
    let ghost body = head + list.len();
    assert(presenter@.calls == plan.take(body));

    // Clear any remaining lines in the result display area.
    let first: usize = if results.len() >= 1 {
        results.len()
    } else {
        1
    };
    let mut line: usize = first;
    while line < mode_config.max_results
        invariant
            first == first_spare_row(mode@),
            first <= line,
            line <= mode_config.max_results || line == first,
            mode_config.max_results == mode@.max_results,
            spare.len() == spare_rows(mode@),
            plan == frame(workspace@, mode@, w),
            committed(drawn(plan, h, w)) <==> all_accepted(plan, h, w),
            drawn(plan, h, w).contains(DrawCallView::Present) <==> all_accepted(plan, h, w),
            0 <= body,
            forall|j: int| 0 <= j < spare.len() ==> plan[body + j] == #[trigger] spare[j],
            forall|j: int| 0 <= j < spare.len() ==> spare[j] == blank_row(w, first + j),
            body + spare.len() < plan.len(),
            h == old(presenter)@.height,
            w == old(presenter)@.width,
            presenter@.height == h,
            presenter@.width == w,
            width == w,
            presenter@.calls == plan.take(body + (line - first)),
            all_accepted(presenter@.calls, h, w),
        decreases mode_config.max_results - line,
    {
        let padded_content = pad_to_width("", width);
        proof {
            reveal_strlit("");
            assert(""@ =~= Seq::<char>::empty());
            assert(spare[line - first] == blank_row(w, line as int));
            lemma_next_call(plan, h, w, body + (line - first));
        }
        presenter.print(
            &Position { line, offset: 0 },
            Style::Default,
            Colors::Default,
            padded_content.as_str(),
        )?;
        line += 1;
    }
    let ghost foot = body + spare.len();
    assert(presenter@.calls == plan.take(foot));

    // Draw the divider.
    let line = mode_config.max_results;
    let colors = if mode.insert_mode() {
        Colors::Insert
    } else {
        Colors::Inverted
    };
    let padded_content = pad_to_width(mode.query(), width);
    proof {
        lemma_next_call(plan, h, w, foot);
    }
    presenter.print(&Position { line, offset: 0 }, Style::Bold, colors, padded_content.as_str())?;

    // Place the cursor on the search input line, right after its contents.
    proof {
        lemma_next_call(plan, h, w, foot + 1);
    }
    presenter.set_cursor(
        Some(Position { line: mode_config.max_results, offset: count_graphemes(mode.query()) }),
    );

    // Render the changes to the screen.
    proof {
        lemma_next_call(plan, h, w, foot + 2);
    }
    presenter.present();

    proof {
        assert(plan.take(foot + 3) =~= plan);
        lemma_drawn_whole(plan, h, w);
    }
    Ok(())
}

} // verus!
