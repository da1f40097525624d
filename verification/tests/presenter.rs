use editor_view::errors::RenderError;
use editor_view::view::{Colors, DrawCall, Painter, Position, Presenter, StatusLineData, Style};

#[test]
fn new_presenter_holds_its_geometry_and_nothing_else() {
    let presenter = Presenter::new(24, 80);

    assert_eq!(presenter.height(), 24);
    assert_eq!(presenter.width(), 80);
    assert!(presenter.calls().is_empty());
    assert!(!presenter.presented());
}

#[test]
fn requests_are_recorded_in_the_order_made() {
    let mut presenter = Presenter::new(4, 10);
    presenter.clear();
    presenter.draw_buffer();
    presenter.draw_status_line(vec![StatusLineData::new("left", Style::Bold, Colors::Focused)]);
    presenter
        .print(&Position { line: 3, offset: 9 }, Style::Bold, Colors::Warning, "x")
        .unwrap();
    presenter.set_cursor(Some(Position { line: 1, offset: 2 }));
    presenter.present();

    assert_eq!(
        presenter.calls(),
        &vec![
            DrawCall::Clear,
            DrawCall::Buffer,
            DrawCall::StatusLine(vec![StatusLineData {
                content: String::from("left"),
                style: Style::Bold,
                colors: Colors::Focused,
            }]),
            DrawCall::Print {
                position: Position { line: 3, offset: 9 },
                style: Style::Bold,
                colors: Colors::Warning,
                content: String::from("x"),
            },
            DrawCall::Cursor(Some(Position { line: 1, offset: 2 })),
            DrawCall::Present,
        ]
    );
    assert!(presenter.presented());
}

#[test]
fn print_outside_the_viewport_is_refused_and_not_recorded() {
    let mut presenter = Presenter::new(4, 10);
    presenter.clear();

    for position in [
        Position { line: 4, offset: 0 },
        Position { line: 0, offset: 10 },
        Position { line: 4, offset: 10 },
        Position { line: usize::MAX, offset: 0 },
    ] {
        let result = presenter.print(&position, Style::Default, Colors::Default, "text");
        assert_eq!(result, Err(RenderError {}));
    }
    assert_eq!(presenter.calls(), &vec![DrawCall::Clear]);
}

#[test]
fn print_may_run_past_the_right_edge() {
    let mut presenter = Presenter::new(1, 3);
    let result = presenter.print(
        &Position { line: 0, offset: 2 },
        Style::Default,
        Colors::Default,
        "far too long",
    );

    assert_eq!(result, Ok(()));
    assert_eq!(presenter.calls().len(), 1);
}

#[test]
fn position_is_inside_up_to_the_last_row_and_column() {
    assert!(Position { line: 0, offset: 0 }.within(1, 1));
    assert!(Position { line: 23, offset: 79 }.within(24, 80));
    assert!(!Position { line: 24, offset: 79 }.within(24, 80));
    assert!(!Position { line: 23, offset: 80 }.within(24, 80));
    assert!(!Position { line: 0, offset: 0 }.within(0, 0));
}

#[test]
fn clear_drops_what_was_recorded() {
    let mut presenter = Presenter::new(4, 10);
    presenter.draw_buffer();
    presenter.present();
    presenter.clear();

    assert_eq!(presenter.calls(), &vec![DrawCall::Clear]);
    assert!(!presenter.presented());
    assert_eq!((presenter.height(), presenter.width()), (4, 10));
}

#[test]
fn hidden_cursor_is_recorded_as_such() {
    let mut presenter = Presenter::new(4, 10);
    presenter.set_cursor(None);

    assert_eq!(presenter.calls(), &vec![DrawCall::Cursor(None)]);
}

#[test]
fn duplicate_segment_equals_its_source() {
    let segment = StatusLineData::new(" NORMAL ", Style::Default, Colors::Inverted);

    assert_eq!(segment.duplicate(), segment);
    assert_eq!(segment.content, " NORMAL ");
}

fn frame() -> Vec<DrawCall> {
    vec![DrawCall::Clear, DrawCall::Buffer, DrawCall::Cursor(None), DrawCall::Present]
}

fn paint(
    calls: &Vec<DrawCall>,
    fails_at: Option<usize>,
) -> (Vec<DrawCall>, Result<(), RenderError>) {
    let mut performed = Vec::new();
    let mut painter = Painter::new();
    let mut outcome = Ok(());
    while let Some(call) = painter.step(calls, &outcome) {
        outcome = if fails_at == Some(performed.len()) { Err(RenderError {}) } else { Ok(()) };
        performed.push(call.clone());
    }
    (performed, painter.result())
}

#[test]
fn painter_hands_out_the_whole_frame_to_a_willing_backend() {
    let (performed, result) = paint(&frame(), None);

    assert_eq!(performed, frame());
    assert_eq!(result, Ok(()));
}

#[test]
fn painter_stops_at_the_first_failure_and_never_commits() {
    for failing in 0..3usize {
        let (performed, result) = paint(&frame(), Some(failing));

        assert_eq!(performed, frame()[..=failing].to_vec());
        assert!(!performed.contains(&DrawCall::Present));
        assert_eq!(result, Err(RenderError {}));
    }
}

#[test]
fn painter_reports_a_failed_commit() {
    let (performed, result) = paint(&frame(), Some(3));

    assert_eq!(performed, frame());
    assert_eq!(result, Err(RenderError {}));
}

#[test]
fn painter_stays_stopped_after_a_failure() {
    let calls = frame();
    let mut painter = Painter::new();
    assert_eq!(painter.step(&calls, &Ok(())), Some(&DrawCall::Clear));
    assert_eq!(painter.step(&calls, &Err(RenderError {})), None);
    assert_eq!(painter.step(&calls, &Ok(())), None);
    assert_eq!(painter.handed(), 1);
    assert_eq!(painter.result(), Err(RenderError {}));
}

#[test]
fn painter_ignores_the_outcome_given_before_anything_was_handed_out() {
    let calls = frame();
    let mut painter = Painter::new();

    assert_eq!(painter.step(&calls, &Err(RenderError {})), Some(&DrawCall::Clear));
    assert_eq!(painter.result(), Ok(()));
}

#[test]
fn painter_of_an_empty_frame_is_through_at_once() {
    let calls = Vec::new();
    let mut painter = Painter::new();

    assert_eq!(painter.step(&calls, &Ok(())), None);
    assert_eq!(painter.handed(), 0);
    assert_eq!(painter.result(), Ok(()));
}
