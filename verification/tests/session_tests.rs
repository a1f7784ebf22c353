use search_rs::events::{KeyAction, MouseAction};
use search_rs::result::{ProgressiveLoadStatus, SearchResult};
use search_rs::session::{App, InputFocus, SearchProgress};

fn result_at(path: &str, line: usize) -> SearchResult {
    SearchResult::new(
        path.to_string(),
        line,
        format!("line {}", line),
        "m".to_string(),
        None,
        None,
    )
}

#[test]
fn test_new_session_is_idle() {
    let app = App::new();
    assert!(app.search_results.is_empty());
    assert_eq!(app.selected_index, 0);
    assert_eq!(app.current_pattern, "");
    assert!(!app.should_quit);
    assert_eq!(app.input_focus, InputFocus::Primary);
    assert!(app.selected_result().is_none());
    assert_eq!(app.get_cache_stats(), (0, 1000));
    assert_eq!(app.get_loading_message(), "Ready to search");
}

#[test]
fn test_append_mirrors_the_aggregator() {
    let mut app = App::new();
    let r1 = result_at("a.rs", 1);
    let r2 = result_at("b.rs", 2);
    let r3 = result_at("c.rs", 3);

    app.add_sarch_results(vec![r1.clone(), r2.clone()]);
    app.add_search_result(r3.clone());

    // Ranking is off: arrival order is kept, and the visible list mirrors
    // the aggregator exactly.
    assert_eq!(app.search_results, vec![r1, r2, r3]);
    assert_eq!(app.active_results().len(), 3);
}

#[test]
fn test_selection_moves_and_clamps() {
    let mut app = App::new();
    app.add_sarch_results(vec![
        result_at("a.rs", 1),
        result_at("b.rs", 2),
        result_at("c.rs", 3),
    ]);

    assert_eq!(app.selected_index, 0);
    app.select_previous();
    assert_eq!(app.selected_index, 0);

    app.select_next();
    assert_eq!(app.selected_index, 1);
    assert!(app.needs_progressive_load_check);

    app.select_next();
    app.select_next();
    assert_eq!(app.selected_index, 2);

    app.select_previous();
    assert_eq!(app.selected_index, 1);

    app.select_iindex(2);
    assert_eq!(app.selected_index, 2);
    app.select_iindex(99);
    assert_eq!(app.selected_index, 2);

    let selected = app.selected_result().unwrap();
    assert_eq!(selected.line_number, 3);
}

#[test]
fn test_toggle_focus_cycles() {
    let mut app = App::new();
    assert_eq!(app.input_focus, InputFocus::Primary);
    app.toggle_focus();
    assert_eq!(app.input_focus, InputFocus::Results);
    app.toggle_focus();
    assert_eq!(app.input_focus, InputFocus::Primary);
}

#[test]
fn test_quit_and_pattern_updates() {
    let mut app = App::new();
    app.update_pattern("needle".to_string());
    assert_eq!(app.active_pattern(), "needle");
    app.active_pattern_mut().push('s');
    assert_eq!(app.active_pattern(), "needles");
    app.quit();
    assert!(app.should_quit);
}

#[test]
fn test_loading_message_precedence() {
    let mut app = App::new();
    assert_eq!(app.get_loading_message(), "Ready to search");

    app.start_new_search();
    app.update_file_count(3);
    assert_eq!(app.get_loading_message(), "Searching... 3 files found");

    app.complete_search();
    assert_eq!(app.get_loading_message(), "Search complete - 3 files");

    // The progressive record, once present, wins over search progress.
    app.progressive_load_status = Some(ProgressiveLoadStatus {
        total_loaded: 12,
        loading_complete: false,
        total_files_found: 4,
        load_threshold: 50,
    });
    assert_eq!(
        app.get_loading_message(),
        "Loading... 12 results from 4 files"
    );

    app.progressive_load_status = Some(ProgressiveLoadStatus {
        total_loaded: 12,
        loading_complete: true,
        total_files_found: 4,
        load_threshold: 50,
    });
    assert_eq!(
        app.get_loading_message(),
        "Loaded 12 results from 4 files"
    );
    assert!(app.get_progressive_load_status().is_some());
}

#[test]
fn test_results_click_selects_in_range_only() {
    let mut app = App::new();
    app.add_sarch_results(vec![result_at("a.rs", 1), result_at("b.rs", 2)]);

    // Above the list area.
    assert!(!app.handle_results_click(1, 5, 10));
    // Inside the area, on the second result.
    assert!(app.handle_results_click(6, 5, 10));
    assert_eq!(app.selected_index, 1);
    // Inside the area but past the loaded results.
    assert!(!app.handle_results_click(9, 5, 10));
    assert_eq!(app.selected_index, 1);
    // Below the area.
    assert!(!app.handle_results_click(30, 5, 10));
}

#[test]
fn test_replace_clears_cache_and_selection() {
    let mut app = App::new();
    app.add_sarch_results(vec![result_at("a.rs", 1), result_at("b.rs", 2)]);
    app.select_next();
    let r = result_at("a.rs", 1);
    let _ = app.get_cached_highlighted_line(&r, |x: &SearchResult| x.line_content.clone());
    assert_eq!(app.get_cache_stats().0, 1);

    app.update_search_results(vec![result_at("z.rs", 9)]);
    assert_eq!(app.selected_index, 0);
    assert_eq!(app.get_cache_stats().0, 0);
    assert_eq!(app.search_results.len(), 1);
    assert_eq!(app.search_results[0].line_number, 9);
}

#[test]
fn test_clear_search_results_resets_everything_visible() {
    let mut app = App::new();
    app.add_sarch_results(vec![result_at("a.rs", 1)]);
    app.start_new_search();
    assert!(app.search_results.is_empty());
    assert_eq!(app.selected_index, 0);
    assert!(app.search_progress.is_searching);
    assert!(!app.search_progress.is_complete);
}

#[test]
fn test_cached_highlighted_line_round_trip() {
    let mut app = App::new();
    let r = result_at("src/a.rs", 7);
    let line = app.get_cached_highlighted_line(&r, |x: &SearchResult| {
        format!("[{}]", x.format_for_display(false))
    });
    assert_eq!(line, "[src/a.rs:7 line 7]");

    // A second request is served from the cache.
    let line2 =
        app.get_cached_highlighted_line(&r, |_x: &SearchResult| "never rendered".to_string());
    assert_eq!(line2, "[src/a.rs:7 line 7]");
    app.clear_highlighting_cache();
    assert_eq!(app.get_cache_stats().0, 0);
}

#[test]
fn test_search_progress_record() {
    let mut progress = SearchProgress::new();
    assert_eq!(progress.files_with_matches, 0);
    progress.start_search();
    assert!(progress.is_searching);
    progress.update_file_count(5);
    assert_eq!(progress.files_with_matches, 5);
    progress.complete_search();
    assert!(progress.is_complete);
    assert!(!progress.is_searching);
    progress.reset();
    assert_eq!(progress.files_with_matches, 0);
    assert!(!progress.is_complete);
}

#[test]
fn test_actions_are_plain_values() {
    // The session reacts to decoded actions; spot-check their equality.
    assert_ne!(KeyAction::Quit, KeyAction::NoAction);
    assert_eq!(MouseAction::ClickAt(3, 4), MouseAction::ClickAt(3, 4));
}

#[test]
fn test_selection_is_a_no_op_on_an_empty_list() {
    let mut app = App::new();
    app.select_next();
    app.select_previous();
    assert_eq!(app.selected_index, 0);
    assert!(!app.needs_progressive_load_check);
}
