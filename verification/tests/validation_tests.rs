use search_rs::validation::InputValidator;

const PATTERN_MAX_LENGTH: usize = 1000;
const MAX_PROBLEM_CHARS: usize = 50;
const MAX_PATH_LENGTH: usize = 4096;

#[test]
fn test_validate_search_pattern() {
    assert!(InputValidator::validate_search_pattern("hello").is_ok());
    assert!(InputValidator::validate_search_pattern(" hello there ").is_ok());
    assert!(InputValidator::validate_search_pattern("regex.*pattern").is_ok());
    assert!(InputValidator::validate_search_pattern("regex_pattern").is_ok());
}

#[test]
fn test_validate_search_pattern_invalid() {
    // Empty pattern
    assert!(InputValidator::validate_search_pattern("").is_err());
    assert!(InputValidator::validate_search_pattern("    ").is_err());
    assert!(InputValidator::validate_search_pattern("\t\n").is_err());

    // Pattern too long
    let long_pattern = "a".repeat(PATTERN_MAX_LENGTH + 1);
    assert!(InputValidator::validate_search_pattern(&long_pattern).is_err());

    // Pattern contains problematic characters
    let problematic = "*".repeat(MAX_PROBLEM_CHARS + 1);
    assert!(InputValidator::validate_search_pattern(&problematic).is_err());
}

#[test]
fn test_validate_file_path() {
    assert!(InputValidator::validate_file_path("/absolute/path").is_ok());
    assert!(InputValidator::validate_file_path("relative/path").is_ok());
    assert!(InputValidator::validate_file_path("").is_err());
    assert!(InputValidator::validate_file_path("path\0with\0null\0bytes").is_err());

    let long_path = "/".repeat(MAX_PATH_LENGTH + 1);
    assert!(InputValidator::validate_file_path(&long_path).is_err());
}

#[test]
fn test_sanitization_strips_control_characters() {
    // A control character inside the pattern is removed, tabs survive.
    let sanitized = InputValidator::validate_search_pattern("ab\u{7}cd").unwrap();
    assert_eq!(sanitized, "abcd");

    let kept = InputValidator::validate_search_pattern("a\tb").unwrap();
    assert_eq!(kept, "a\tb");
}

#[test]
fn test_nested_quantifiers_are_rejected() {
    // An invalid regex with a nested quantifier is refused outright.
    let input = "[a*+";
    let result = InputValidator::validate_search_pattern(input);
    assert!(result.is_err());
}

#[test]
fn test_validate_file_path_trims() {
    let ok = InputValidator::validate_file_path("  src/main.rs  ").unwrap();
    assert_eq!(ok, "src/main.rs");
}
