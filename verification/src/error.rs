//! The error type of the search application, with its user-facing text and
//! recovery guidance.

use vstd::prelude::*;

verus! {

/// Main error type for the search application.
#[derive(Debug, Clone)]
pub enum SearchError {
    /// Invalid command line arguments, with the explanation.
    InvalidArguments(String),
    /// Missing required dependency.
    MissingDependency { tool: String, install_instructions: String },
    /// An input/output failure, carrying its description.
    IoError(String),
    /// A rendering failure in the terminal interface.
    TuiError(String),
    /// Input validation error.
    InvalidInput(String),
    /// Invalid search pattern.
    InvalidPattern { pattern: String, reason: String },
    /// Terminal related error.
    TerminalError(String),
    /// File access error.
    FileAccessError { path: String, reason: String },
    /// Search process error.
    SearchProcessError(String),
}

/// The user-facing text of an error.
pub open spec fn message_of(e: SearchError) -> Seq<char> {
    match e {
        SearchError::InvalidArguments(msg) => "Invalid arguments: "@ + msg@,
        SearchError::MissingDependency { tool, install_instructions } => "Missing dependency: "@
            + tool@ + "\n Install instructions: "@ + install_instructions@,
        SearchError::IoError(err) => "IO error: "@ + err@,
        SearchError::TuiError(err) => "TUI error: "@ + err@,
        SearchError::InvalidInput(err) => "Invalid input: "@ + err@,
        SearchError::InvalidPattern { pattern, reason } => "Invalid search pattern: "@ + pattern@
            + "\n reason: "@ + reason@,
        SearchError::TerminalError(err) => "Terminal error: "@ + err@
            + "\n Try running in a proper terminal."@,
        SearchError::FileAccessError { path, reason } => "File access error: Path: "@ + path@
            + "\n Reason: "@ + reason@,
        SearchError::SearchProcessError(err) => "Search error: "@ + err@,
    }
}

impl SearchError {
    /// The user-facing text; the display layer decorates it.
    pub fn message(&self) -> (r: String)
        ensures
            r@ == message_of(*self),
    {
        match self {
            SearchError::InvalidArguments(msg) => {
                let mut out = String::from_str("Invalid arguments: ");
                out.append(msg.as_str());
                out
            },
            SearchError::MissingDependency { tool, install_instructions } => {
                let mut out = String::from_str("Missing dependency: ");
                out.append(tool.as_str());
                out.append("\n Install instructions: ");
                out.append(install_instructions.as_str());
                out
            },
            SearchError::IoError(err) => {
                let mut out = String::from_str("IO error: ");
                out.append(err.as_str());
                out
            },
            SearchError::TuiError(err) => {
                let mut out = String::from_str("TUI error: ");
                out.append(err.as_str());
                out
            },
            SearchError::InvalidInput(err) => {
                let mut out = String::from_str("Invalid input: ");
                out.append(err.as_str());
                out
            },
            SearchError::InvalidPattern { pattern, reason } => {
                let mut out = String::from_str("Invalid search pattern: ");
                out.append(pattern.as_str());
                out.append("\n reason: ");
                out.append(reason.as_str());
                out
            },
            SearchError::TerminalError(err) => {
                let mut out = String::from_str("Terminal error: ");
                out.append(err.as_str());
                out.append("\n Try running in a proper terminal.");
                out
            },
            SearchError::FileAccessError { path, reason } => {
                let mut out = String::from_str("File access error: Path: ");
                out.append(path.as_str());
                out.append("\n Reason: ");
                out.append(reason.as_str());
                out
            },
            SearchError::SearchProcessError(err) => {
                let mut out = String::from_str("Search error: ");
                out.append(err.as_str());
                out
            },
        }
    }

    /// Creates a terminal error with context.
    pub fn terminal_error(err: &str) -> (r: SearchError)
        ensures
            r matches SearchError::TerminalError(s) && s@ == err@,
    {
        SearchError::TerminalError(String::from_str(err))
    }

    /// Creates a file access error with context.
    pub fn file_access_error(path: &str, reason: &str) -> (r: SearchError)
        ensures
            (r matches SearchError::FileAccessError { path: p, reason: why } && p@ == path@
                && why@ == reason@),
    {
        SearchError::FileAccessError {
            path: String::from_str(path),
            reason: String::from_str(reason),
        }
    }

    /// Creates an invalid pattern error.
    pub fn invalid_pattern(pattern: &str, reason: &str) -> (r: SearchError)
        ensures
            (r matches SearchError::InvalidPattern { pattern: p, reason: why } && p@ == pattern@
                && why@ == reason@),
    {
        SearchError::InvalidPattern {
            pattern: String::from_str(pattern),
            reason: String::from_str(reason),
        }
    }

    /// Whether the session can go on after this error.
    pub fn is_recoverable(&self) -> (r: bool)
        ensures
            r == ((*self is InvalidInput) || (*self is InvalidPattern)
                || (*self is SearchProcessError) || (*self is FileAccessError)),
    {
        match self {
            SearchError::InvalidInput(_) => true,
            SearchError::InvalidPattern { .. } => true,
            SearchError::SearchProcessError(_) => true,
            SearchError::FileAccessError { .. } => true,
            SearchError::MissingDependency { .. } => false,
            SearchError::TerminalError(_) => false,
            SearchError::IoError(_) => false,
            SearchError::TuiError(_) => false,
            SearchError::InvalidArguments(_) => false,
        }
    }

    /// A user-friendly recovery suggestion, for the errors that have one.
    pub fn get_recovery_suggestion(&self) -> (r: Option<String>)
        ensures
            *self is InvalidInput ==> (r matches Some(s) && s@
                == "Please check your input and try again."@),
            *self is InvalidPattern ==> (r matches Some(s) && s@
                == "Try a simpler search pattern."@),
            *self is SearchProcessError ==> (r matches Some(s) && s@
                == "Try different search pattern or directory: {}"@),
            *self is FileAccessError ==> (r matches Some(s) && s@
                == "Check file permissions and try again."@),
            self matches SearchError::MissingDependency { install_instructions, .. }
                ==> (r matches Some(s) && s@ == install_instructions@),
            (*self is InvalidArguments) || (*self is IoError) || (*self is TuiError) || (*self
                is TerminalError) ==> r is None,
    {
        match self {
            SearchError::InvalidInput(..) => Some(
                String::from_str("Please check your input and try again."),
            ),
            SearchError::InvalidPattern { .. } => Some(
                String::from_str("Try a simpler search pattern."),
            ),
            SearchError::SearchProcessError(..) => Some(
                String::from_str("Try different search pattern or directory: {}"),
            ),
            SearchError::FileAccessError { .. } => Some(
                String::from_str("Check file permissions and try again."),
            ),
            SearchError::MissingDependency { install_instructions, .. } => Some(
                install_instructions.clone(),
            ),
            SearchError::InvalidArguments(_) => None,
            SearchError::IoError(_) => None,
            SearchError::TuiError(_) => None,
            SearchError::TerminalError(_) => None,
        }
    }
}

} // verus!
