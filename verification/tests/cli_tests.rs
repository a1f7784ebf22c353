use search_rs::cli::{Cli, SearchMode};

fn create_test_cli(
    pattern: &str,
    exact: bool,
    ignore_case: bool,
    substring: bool,
    directory: Option<String>,
) -> Cli {
    Cli {
        pattern: pattern.to_string(),
        exact,
        ignore_case,
        substring,
        directory,
        debug: false,
    }
}

#[test]
fn test_signle_mode_validation() {
    // Single modes should be valid
    let cli = create_test_cli("search pattern", true, false, false, None);
    assert!(cli.validate());

    let cli = create_test_cli("search pattern", false, true, false, None);
    assert!(cli.validate());

    let cli = create_test_cli("search pattern", false, false, true, None);
    assert!(cli.validate());

    // Nothing is specified
    let cli = create_test_cli("search pattern", false, false, false, None);
    assert!(cli.validate());
}

#[test]
fn test_multiple_mode_is_invalid() {
    // Multiple modes should not be valid
    let cli = create_test_cli("search pattern", true, true, true, None);
    assert!(!cli.validate());

    let cli = create_test_cli("search pattern", true, true, false, None);
    assert!(!cli.validate());

    let cli = create_test_cli("search pattern", true, false, true, None);
    assert!(!cli.validate());
}

#[test]
fn test_empty_search_pattern_is_invalid() {
    // Empty search pattern should not be valid
    let cli = create_test_cli("", true, false, false, None);
    assert!(!cli.validate());

    let cli = create_test_cli(" ", true, false, false, None);
    assert!(!cli.validate());

    let cli = create_test_cli("\t\n", true, false, false, None);
    assert!(!cli.validate());
}

#[test]
fn test_valid_pattern() {
    // Valid search pattern should be valid
    let cli = create_test_cli("search pattern", true, false, false, None);
    assert!(cli.validate());
}

#[test]
fn test_get_search_mode() {
    // Exact mode
    let cli = create_test_cli("search pattern", true, false, false, None);
    assert_eq!(cli.search_mode(), SearchMode::Exact);

    // Ignore case mode
    let cli = create_test_cli("search pattern", false, true, false, None);
    assert_eq!(cli.search_mode(), SearchMode::IgnoreCase);

    // Substring mode
    let cli = create_test_cli("search pattern", false, false, true, None);
    assert_eq!(cli.search_mode(), SearchMode::Substring);
}

#[test]
fn test_searh_dir() {
    // Default directory
    let cli = create_test_cli("search pattern", false, false, false, None);
    assert_eq!(cli.search_dir(), ".");

    // Custom directory
    let cli = create_test_cli(
        "search pattern",
        false,
        false,
        false,
        Some("/path/to/dir".to_string()),
    );
    assert_eq!(cli.search_dir(), "/path/to/dir");
}

#[test]
fn test_search_mode_name_and_description() {
    // Exact mode
    let cli = create_test_cli("search pattern", true, false, false, None);
    assert_eq!(cli.search_mode().name(), "exact");
    assert_eq!(
        cli.search_mode().description(),
        "Exact whole word matches (case sensitive)"
    );

    // Ignore case mode
    let cli = create_test_cli("search pattern", false, true, false, None);
    assert_eq!(cli.search_mode().name(), "ignore_case");
    assert_eq!(
        cli.search_mode().description(),
        "Case insensitive search (default)"
    );

    // Substring mode
    let cli = create_test_cli("search pattern", false, false, true, None);
    assert_eq!(cli.search_mode().name(), "substring");
    assert_eq!(
        cli.search_mode().description(),
        "Substring search (case sensitive)"
    );
}
