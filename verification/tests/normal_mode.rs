use editor_view::errors::RenderError;
use editor_view::models::{BufferSummary, Workspace};
use editor_view::presenters::modes::normal::display;
use editor_view::view::{Colors, DrawCall, Position, Presenter, StatusLineData, Style};

fn segment(content: &str, style: Style, colors: Colors) -> StatusLineData {
    StatusLineData { content: content.to_string(), style, colors }
}

fn workspace_with_buffer(modified: bool) -> Workspace {
    Workspace {
        current_buffer: Some(BufferSummary {
            modified,
            status: segment("src/main.rs", Style::Default, Colors::Focused),
        }),
    }
}

fn vcs() -> StatusLineData {
    segment("[modified]", Style::Default, Colors::Focused)
}

fn splash() -> Vec<String> {
    vec![
        String::from("Amp v0.6.2"),
        String::from("© 2015-2018 Jordan MacDonald"),
        String::new(),
        String::from("Press \"?\" to view quick start guide"),
    ]
}

fn plain(line: usize, offset: usize, content: &str) -> DrawCall {
    DrawCall::Print {
        position: Position { line, offset },
        style: Style::Default,
        colors: Colors::Default,
        content: content.to_string(),
    }
}

#[test]
fn modified_buffer_is_flagged_with_the_warning_color() {
    let mut presenter = Presenter::new(24, 80);
    let result = display(&workspace_with_buffer(true), &mut presenter, &vcs(), &splash());

    assert_eq!(result, Ok(()));
    assert_eq!(
        presenter.calls(),
        &vec![
            DrawCall::Clear,
            DrawCall::Buffer,
            DrawCall::StatusLine(vec![
                segment(" NORMAL ", Style::Default, Colors::Warning),
                segment("src/main.rs", Style::Default, Colors::Focused),
                segment("[modified]", Style::Default, Colors::Focused),
            ]),
            DrawCall::Present,
        ]
    );
    assert!(presenter.presented());
}

#[test]
fn unmodified_buffer_is_flagged_with_the_inverted_color() {
    let mut presenter = Presenter::new(24, 80);
    let result = display(&workspace_with_buffer(false), &mut presenter, &vcs(), &splash());

    assert_eq!(result, Ok(()));
    match &presenter.calls()[2] {
        DrawCall::StatusLine(segments) => {
            assert_eq!(segments.len(), 3);
            assert_eq!(segments[0], segment(" NORMAL ", Style::Default, Colors::Inverted));
        }
        other => panic!("expected a status line, found {:?}", other),
    }
}

#[test]
fn buffer_frame_prints_nothing_and_leaves_the_cursor_alone() {
    let mut presenter = Presenter::new(24, 80);
    display(&workspace_with_buffer(true), &mut presenter, &vcs(), &splash()).unwrap();

    for call in presenter.calls() {
        assert!(!matches!(call, DrawCall::Print { .. }));
        assert!(!matches!(call, DrawCall::Cursor(_)));
    }
}

#[test]
fn buffer_frame_fits_a_viewport_of_no_size() {
    let mut presenter = Presenter::new(0, 0);
    let result = display(&workspace_with_buffer(false), &mut presenter, &vcs(), &splash());

    assert_eq!(result, Ok(()));
    assert_eq!(presenter.calls().len(), 4);
    assert!(presenter.presented());
}

#[test]
fn splash_is_centered_in_an_even_viewport() {
    let mut presenter = Presenter::new(24, 80);
    let result = display(&Workspace { current_buffer: None }, &mut presenter, &vcs(), &splash());

    assert_eq!(result, Ok(()));
    assert_eq!(
        presenter.calls(),
        &vec![
            DrawCall::Clear,
            plain(10, 35, "Amp v0.6.2"),
            plain(11, 26, "© 2015-2018 Jordan MacDonald"),
            plain(12, 40, ""),
            plain(13, 23, "Press \"?\" to view quick start guide"),
            DrawCall::Cursor(None),
            DrawCall::Present,
        ]
    );
}

#[test]
fn splash_halves_round_down() {
    // 25 / 2 = 12 rows above the middle, 3 / 2 = 1 line of the block above it;
    // 81 / 2 = 40 columns, 5 / 2 = 2 characters.
    let content = vec![String::from("first"), String::from("second"), String::from("third")];
    let mut presenter = Presenter::new(25, 81);
    let result = display(&Workspace { current_buffer: None }, &mut presenter, &vcs(), &content);

    assert_eq!(result, Ok(()));
    assert_eq!(
        presenter.calls(),
        &vec![
            DrawCall::Clear,
            plain(11, 38, "first"),
            plain(12, 37, "second"),
            plain(13, 38, "third"),
            DrawCall::Cursor(None),
            DrawCall::Present,
        ]
    );
}

#[test]
fn splash_line_length_counts_characters_not_bytes() {
    // Four characters, twelve bytes.
    let content = vec![String::from("日本語版")];
    let mut presenter = Presenter::new(10, 20);
    display(&Workspace { current_buffer: None }, &mut presenter, &vcs(), &content).unwrap();

    assert_eq!(presenter.calls()[1], plain(5, 8, "日本語版"));
}

#[test]
fn splash_hides_the_cursor() {
    let mut presenter = Presenter::new(24, 80);
    display(&Workspace { current_buffer: None }, &mut presenter, &vcs(), &splash()).unwrap();

    let calls = presenter.calls();
    assert_eq!(calls[calls.len() - 2], DrawCall::Cursor(None));
    assert_eq!(calls[calls.len() - 1], DrawCall::Present);
}

#[test]
fn empty_splash_draws_an_empty_screen() {
    let mut presenter = Presenter::new(24, 80);
    let result = display(&Workspace { current_buffer: None }, &mut presenter, &vcs(), &Vec::new());

    assert_eq!(result, Ok(()));
    assert_eq!(
        presenter.calls(),
        &vec![DrawCall::Clear, DrawCall::Cursor(None), DrawCall::Present]
    );
}

#[test]
fn splash_taller_than_the_viewport_fails_before_anything_is_printed() {
    // 2 / 2 - 4 / 2 = -1: the first line would start above the viewport.
    let mut presenter = Presenter::new(2, 80);
    let result = display(&Workspace { current_buffer: None }, &mut presenter, &vcs(), &splash());

    assert_eq!(result, Err(RenderError {}));
    assert_eq!(presenter.calls(), &vec![DrawCall::Clear]);
    assert!(!presenter.presented());
}

#[test]
fn splash_wider_than_the_viewport_fails_at_the_first_wide_line() {
    // 8 / 2 = 4 columns: "Amp v0.6.2" starts at 4 - 5 = -1.
    let mut presenter = Presenter::new(24, 8);
    let result = display(&Workspace { current_buffer: None }, &mut presenter, &vcs(), &splash());

    assert_eq!(result, Err(RenderError {}));
    assert_eq!(presenter.calls(), &vec![DrawCall::Clear]);
}

#[test]
fn splash_failure_keeps_the_lines_printed_before_it() {
    // Width 12: "short" starts at 6 - 2 = 4, the long line at 6 - 10 = -4.
    let content = vec![String::from("short"), String::from("a line of twenty one.")];
    let mut presenter = Presenter::new(24, 12);
    let result = display(&Workspace { current_buffer: None }, &mut presenter, &vcs(), &content);

    assert_eq!(result, Err(RenderError {}));
    assert_eq!(presenter.calls(), &vec![DrawCall::Clear, plain(11, 4, "short")]);
    assert!(!presenter.calls().contains(&DrawCall::Present));
    assert!(!presenter.presented());
}

#[test]
fn splash_in_a_viewport_of_no_size_fails() {
    let mut presenter = Presenter::new(0, 0);
    let result = display(&Workspace { current_buffer: None }, &mut presenter, &vcs(), &splash());

    assert_eq!(result, Err(RenderError {}));
    assert!(!presenter.presented());
}

#[test]
fn each_frame_starts_from_a_blank_record() {
    let mut presenter = Presenter::new(24, 80);
    display(&Workspace { current_buffer: None }, &mut presenter, &vcs(), &splash()).unwrap();
    display(&workspace_with_buffer(false), &mut presenter, &vcs(), &splash()).unwrap();

    assert_eq!(presenter.calls().len(), 4);
    assert_eq!(presenter.calls()[0], DrawCall::Clear);
    assert_eq!(presenter.calls()[1], DrawCall::Buffer);
}
