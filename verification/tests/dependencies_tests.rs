use search_rs::dependencies::Dependencies;

#[test]
fn test_missing_tools() {
    let deps = Dependencies { ripgrep: false };
    assert!(!deps.all_present());
    let missing = deps.missing_tools();
    assert!(missing.iter().any(|tool| tool.contains("ripgrep")));
}

#[test]
fn test_install_instructions() {
    let deps = Dependencies { ripgrep: false };
    let hints = deps.install_instructions();
    assert!(hints.contains("ripgrep"));
    assert!(hints.contains("cargo install"));
}

#[test]
fn test_all_present() {
    let deps = Dependencies { ripgrep: true };
    assert!(deps.all_present());
    let hints = deps.install_instructions();
    assert!(hints.contains("All required tools are installed."));
}

#[test]
fn test_check_reports_missing_tool() {
    let deps = Dependencies { ripgrep: false };
    let checked = deps.check();
    assert!(checked.is_err());
    match checked {
        Err(search_rs::SearchError::MissingDependency {
            tool,
            install_instructions,
        }) => {
            assert_eq!(tool, "ripgrep (rg)");
            assert!(install_instructions.contains("Install missing tools:"));
        }
        _ => panic!("expected a missing dependency error"),
    }

    let deps = Dependencies { ripgrep: true };
    assert!(deps.check().is_ok());
}
