//! Command line options and search modes.  Argument decoding itself is a
//! front-end concern; the option record and the rules over it live here.

use vstd::prelude::*;

use crate::strings::trimmed_of;

verus! {

/// Command line options for one run.
#[derive(Debug, Clone)]
pub struct Cli {
    /// Search pattern to search for in files.
    pub pattern: String,
    /// Case sensitive whole-word search.
    pub exact: bool,
    /// Case insensitive search (the default).
    pub ignore_case: bool,
    /// Substring search (case sensitive).
    pub substring: bool,
    /// Search in a specific directory instead of the current one.
    pub directory: Option<String>,
    /// Debug mode.
    pub debug: bool,
}

/// How many search modes the options select at once.
pub open spec fn mode_count(c: Cli) -> int {
    (if c.exact {
        1int
    } else {
        0int
    }) + (if c.ignore_case {
        1int
    } else {
        0int
    }) + (if c.substring {
        1int
    } else {
        0int
    })
}

/// Which search mode the options select; exact wins, then case-insensitive.
pub open spec fn search_mode_of(c: Cli) -> SearchMode {
    if c.exact && !c.ignore_case && !c.substring {
        SearchMode::Exact
    } else if !c.exact && c.ignore_case && !c.substring {
        SearchMode::IgnoreCase
    } else if !c.exact && !c.ignore_case && c.substring {
        SearchMode::Substring
    } else {
        SearchMode::Exact
    }
}

impl Cli {
    /// Whether the options are consistent: at most one search mode, and a
    /// pattern that is not blank.  Checking the directory on disk is the
    /// front end's part.
    pub fn validate(&self) -> (r: bool)
        ensures
            r == (mode_count(*self) <= 1 && trimmed_of(self.pattern@).len() != 0),
    {
        let mut modes: usize = 0;
        if self.exact {
            modes += 1;
        }
        if self.ignore_case {
            modes += 1;
        }
        if self.substring {
            modes += 1;
        }
        if modes > 1 {
            return false;
        }
        let trimmed = crate::strings::trim_str(self.pattern.as_str());
        if trimmed.as_str().unicode_len() == 0 {
            return false;
        }
        true
    }

    /// The selected search mode.
    pub fn search_mode(&self) -> (r: SearchMode)
        ensures
            r == search_mode_of(*self),
    {
        if self.exact && !self.ignore_case && !self.substring {
            SearchMode::Exact
        } else if !self.exact && self.ignore_case && !self.substring {
            SearchMode::IgnoreCase
        } else if !self.exact && !self.ignore_case && self.substring {
            SearchMode::Substring
        } else {
            SearchMode::Exact
        }
    }

    /// The search directory, defaulting to the current directory.
    pub fn search_dir(&self) -> (r: String)
        ensures
            self.directory matches Some(d) ==> r@ == d@,
            self.directory is None ==> r@ == "."@,
    {
        match &self.directory {
            Some(dir) => dir.clone(),
            None => String::from_str("."),
        }
    }
}

/// Search modes supported by the application.
#[derive(Debug, Clone, Copy, PartialEq, Eq)]
pub enum SearchMode {
    Exact,
    IgnoreCase,
    Substring,
}

impl SearchMode {
    /// The short name of the search mode.
    pub fn name(&self) -> (r: &'static str)
        ensures
            *self is Exact ==> r@ == "exact"@,
            *self is IgnoreCase ==> r@ == "ignore_case"@,
            *self is Substring ==> r@ == "substring"@,
    {
        match self {
            SearchMode::Exact => "exact",
            SearchMode::IgnoreCase => "ignore_case",
            SearchMode::Substring => "substring",
        }
    }

    /// The description of the search mode.
    pub fn description(&self) -> (r: &'static str)
        ensures
            *self is Exact ==> r@ == "Exact whole word matches (case sensitive)"@,
            *self is IgnoreCase ==> r@ == "Case insensitive search (default)"@,
            *self is Substring ==> r@ == "Substring search (case sensitive)"@,
    {
        match self {
            SearchMode::Exact => "Exact whole word matches (case sensitive)",
            SearchMode::IgnoreCase => "Case insensitive search (default)",
            SearchMode::Substring => "Substring search (case sensitive)",
        }
    }
}

} // verus!
