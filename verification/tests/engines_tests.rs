use search_rs::cli::Cli;
use search_rs::engines::{SearchEngine, SearchEngineMode};

// Helper function to create CLI
fn create_cli(exact: bool, ignore_case: bool, substring: bool) -> Cli {
    Cli {
        pattern: "test".to_string(),
        exact,
        ignore_case,
        substring,
        directory: None,
        debug: false,
    }
}

// Helper function to create SearchEngine
fn create_engine(mode: SearchEngineMode, file_types: Vec<&str>) -> SearchEngine {
    SearchEngine {
        mode,
        file_types: file_types.iter().map(|s| s.to_string()).collect(),
    }
}

// Helper function to assert common flags are present
fn assert_common_flags(args: &[String]) {
    let common_flags = ["--line-number", "--no-heading", "--with-filename"];
    for flag in common_flags {
        assert!(
            args.contains(&flag.to_string()),
            "Missing common flag: {}",
            flag
        );
    }
}

// Helper function to assert file type args
fn assert_file_type_args(args: &[String], file_types: &[&str]) {
    if file_types.is_empty() {
        assert!(!args.iter().any(|arg| arg.starts_with("--type-add=custom;")));
        assert!(!args.contains(&"--type=custom".to_string()));
    } else {
        for file_type in file_types {
            assert!(args.contains(&format!("--type-add=custom:*.{}", file_type)));
        }
        assert!(args.contains(&"--type=custom".to_string()));
    }
}

#[test]
fn test_searchengine_from_exact_mode() {
    let cli = create_cli(true, false, false);

    let search_engine = SearchEngine::from_cli(&cli).unwrap();
    matches!(search_engine.mode, SearchEngineMode::Exact);
}

#[test]
fn test_searchengine_mode_selection() {
    let test_cases = vec![
        (true, false, false, SearchEngineMode::Exact),
        (false, false, false, SearchEngineMode::CaseInsensitive), // default
        (false, true, false, SearchEngineMode::CaseInsensitive),
        (false, false, true, SearchEngineMode::Substring),
    ];

    for (exact, ignore_case, substring, expected_mode) in test_cases {
        let cli = create_cli(exact, ignore_case, substring);
        let search_engine = SearchEngine::from_cli(&cli).unwrap();
        match expected_mode {
            SearchEngineMode::Exact => {
                assert!(matches!(search_engine.mode, SearchEngineMode::Exact))
            }
            SearchEngineMode::CaseInsensitive => assert!(matches!(
                search_engine.mode,
                SearchEngineMode::CaseInsensitive
            )),
            SearchEngineMode::Substring => {
                assert!(matches!(search_engine.mode, SearchEngineMode::Substring))
            }
        }
    }
}

#[test]
fn test_rg_args_by_mode() {
    let test_cases = vec![
        (
            SearchEngineMode::Exact,
            vec!["--word-regexp", "--case-sensitive"],
            vec!["--ignore-case"],
        ),
        (
            SearchEngineMode::CaseInsensitive,
            vec!["--ignore-case"],
            vec!["--case-sensitive", "--word-regexp"],
        ),
        (
            SearchEngineMode::Substring,
            vec!["--case-sensitive"],
            vec!["--word-regexp", "--ignore-case"],
        ),
    ];

    for (mode, should_contain, should_not_contain) in test_cases {
        let engine = create_engine(mode.clone(), vec!["rs"]);
        let args = engine.generate_rg_args("pattern", Some("src/"));

        // check mode-specific flags
        for flag in should_contain {
            assert!(
                args.contains(&flag.to_string()),
                "Mode {:?} should contain flag: {}",
                mode,
                flag
            );
        }
        for flag in should_not_contain {
            assert!(
                !args.contains(&flag.to_string()),
                "Mode {:?} should not contain flag: {}",
                mode,
                flag
            );
        }

        // check common args
        assert_common_flags(&args);
        assert!(args.contains(&"pattern".to_string()));
        assert!(args.contains(&"src/".to_string()));
        assert_file_type_args(&args, &["rs"]);
    }
}

#[test]
fn test_search_engine_from_cli_all_combinations() {
    let test_cases = vec![
        (false, false, false, SearchEngineMode::CaseInsensitive),
        (true, false, false, SearchEngineMode::Exact),
        (false, true, false, SearchEngineMode::CaseInsensitive),
        (false, false, true, SearchEngineMode::Substring),
        (true, true, false, SearchEngineMode::Exact), // exact wins
        (true, false, true, SearchEngineMode::Exact), // exact wins
        (false, true, true, SearchEngineMode::CaseInsensitive), // ignore case wins
        (true, true, true, SearchEngineMode::Exact),  // exact wins
    ];

    for (exact, ignore_case, substring, expected_mode) in test_cases {
        let cli = create_cli(exact, ignore_case, substring);
        let search_engine = SearchEngine::from_cli(&cli).unwrap();
        match expected_mode {
            SearchEngineMode::Exact => {
                assert!(
                    matches!(search_engine.mode, SearchEngineMode::Exact),
                    "Failed for exact: {}, ignore_case: {}, substring: {}",
                    exact,
                    ignore_case,
                    substring
                );
            }
            SearchEngineMode::CaseInsensitive => {
                assert!(
                    matches!(search_engine.mode, SearchEngineMode::CaseInsensitive),
                    "Failed for exact: {}, ignore_case: {}, substring: {}",
                    exact,
                    ignore_case,
                    substring
                );
            }
            SearchEngineMode::Substring => {
                assert!(
                    matches!(search_engine.mode, SearchEngineMode::Substring),
                    "Failed for exact: {}, ignore_case: {}, substring: {}",
                    exact,
                    ignore_case,
                    substring
                );
            }
        }
    }
}

// Test file type handling across different modes
#[test]
fn test_file_type_handling() {
    let file_types = vec!["rs", "py", "js"];
    let modes = vec![
        SearchEngineMode::Exact,
        SearchEngineMode::CaseInsensitive,
        SearchEngineMode::Substring,
    ];

    for mode in modes {
        let engine = create_engine(mode, file_types.clone());
        let args = engine.generate_rg_args("pattern", Some("src/"));
        assert_file_type_args(&args, &file_types);
        assert!(args.contains(&"pattern".to_string()));
        assert!(args.contains(&"src/".to_string()));
    }
}

#[test]
fn test_search_engine_empty_file_types() {
    let cli = create_cli(false, true, false);
    let engine = SearchEngine::from_cli(&cli).unwrap();
    assert!(engine.file_types.is_empty());

    let args = engine.generate_rg_args("pattern", Some("src/"));
    assert_file_type_args(&args, &[]);
}

// Test directory handling
#[test]
fn test_rg_args_directory_handling() {
    let engine = create_engine(SearchEngineMode::CaseInsensitive, vec!["rs"]);

    // Test with directory
    let args = engine.generate_rg_args("pattern", Some("src/"));
    assert!(args.contains(&"src/".to_string()));
    assert!(!args.contains(&".".to_string()));

    // Test without directory
    let args = engine.generate_rg_args("pattern", None);
    assert!(args.contains(&".".to_string()));
    assert!(!args.contains(&"src/".to_string()));
}

// Test pattern handling
#[test]
fn test_rg_args_pattern_handling() {
    let engine = create_engine(SearchEngineMode::CaseInsensitive, vec!["rs"]);
    let args = engine.generate_rg_args("pattern", Some("src/"));
    assert!(args.contains(&"pattern".to_string()));
    assert_common_flags(&args);
}

// Test special characters in paths
#[test]
fn test_special_characters_in_paths() {
    let engine = create_engine(SearchEngineMode::CaseInsensitive, vec!["rs"]);
    let special_chars = vec![
        "path with spaces/file.rs",
        "path-with-hyphens/file.rs",
        "path.with.dots/file.rs",
        "path_with_underscores/file.rs",
    ];

    for dir in special_chars {
        let args = engine.generate_rg_args("pattern", Some(dir));
        assert!(args.contains(&dir.to_string()), "Failed for dir: {}", dir);
    }
}

// Test Debug and Clone traits
#[test]
fn test_search_engine_triats() {
    let engine = create_engine(SearchEngineMode::CaseInsensitive, vec!["rs"]);

    // Test Clone
    let cloned = engine.clone();
    assert!(matches!(cloned.mode, SearchEngineMode::CaseInsensitive));
    assert_eq!(cloned.file_types, vec!["rs"]);

    // Test Debug
    let debug_str = format!("{:?}", engine);
    assert!(debug_str.contains("SearchEngine"));
    assert!(debug_str.contains("CaseInsensitive"));
    assert!(debug_str.contains("rs"));

    // Test mode debug
    for mode in vec![
        SearchEngineMode::Exact,
        SearchEngineMode::CaseInsensitive,
        SearchEngineMode::Substring,
    ] {
        let debug_str = format!("{:?}", mode);
        assert!(!debug_str.is_empty());
    }
}
