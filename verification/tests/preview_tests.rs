use search_rs::preview::{
    preview_max_lines, preview_start_line, render_preview_lines, PreviewHandler,
};

#[test]
fn test_preview_handler_creation_and_default() {
    // Test both creation methods in one test since they are functionally the same
    let _handler1 = PreviewHandler::new();
    let _handler2 = PreviewHandler::default();
}

#[test]
fn test_preview_window_parameters() {
    assert_eq!(preview_max_lines(Some((80, 24))), 24);
    assert_eq!(preview_max_lines(None), 100);

    // Half a window above the target, never before line one.
    assert_eq!(preview_start_line(50, 24), 38);
    assert_eq!(preview_start_line(2, 24), 1);
    assert_eq!(preview_start_line(1, 100), 1);
}

#[test]
fn test_render_marks_the_target_line() {
    let lines = vec![
        "Line 1".to_string(),
        "Line 2".to_string(),
        "Line 3".to_string(),
    ];
    let text = render_preview_lines(&lines, 1, Some(2));
    assert_eq!(text, "   1 | Line 1\n   2>| Line 2\n   3 | Line 3\n");
}

#[test]
fn test_render_without_target_has_no_marker_column() {
    let lines = vec!["Line 1".to_string(), "Line 2".to_string()];
    let text = render_preview_lines(&lines, 1, None);
    assert_eq!(text, "   1| Line 1\n   2| Line 2\n");
}

#[test]
fn test_render_numbers_wide_windows() {
    // Numbers wider than the column are not truncated.
    let lines = vec!["Line 8000".to_string(), "Line 8001".to_string()];
    let text = render_preview_lines(&lines, 8000, Some(8000));
    assert_eq!(text, "8000>| Line 8000\n8001 | Line 8001\n");

    let empty: Vec<String> = Vec::new();
    assert_eq!(render_preview_lines(&empty, 1, None), "");
}
