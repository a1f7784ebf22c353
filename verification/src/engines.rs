//! Construction of the external search process's invocation arguments from
//! the selected search mode.

use vstd::prelude::*;

use crate::cli::Cli;
use crate::error::SearchError;

verus! {

/// Search engine that configures the line search tool for a search mode.
#[derive(Debug, Clone)]
pub struct SearchEngine {
    pub mode: SearchEngineMode,
    pub file_types: Vec<String>,
}

/// Search engine mode.
#[derive(Debug, Clone)]
pub enum SearchEngineMode {
    /// Exact whole-word search (case-sensitive).
    Exact,
    /// Case-insensitive search.
    CaseInsensitive,
    /// Substring search (case-sensitive).
    Substring,
}

/// Which engine mode the command line options select.
pub open spec fn engine_mode_of(cli: Cli) -> SearchEngineMode {
    if cli.exact {
        SearchEngineMode::Exact
    } else if cli.ignore_case {
        SearchEngineMode::CaseInsensitive
    } else if cli.substring {
        SearchEngineMode::Substring
    } else {
        SearchEngineMode::CaseInsensitive
    }
}

/// The mode-specific flags handed to the search process.
pub open spec fn mode_flags_of(mode: SearchEngineMode) -> Seq<Seq<char>> {
    match mode {
        SearchEngineMode::Exact => seq!["--word-regexp"@, "--case-sensitive"@],
        SearchEngineMode::CaseInsensitive => seq!["--ignore-case"@],
        SearchEngineMode::Substring => seq!["--case-sensitive"@],
    }
}

/// One type definition flag per requested extension, in order.
pub open spec fn type_add_flags(file_types: Seq<Seq<char>>) -> Seq<Seq<char>>
    decreases file_types.len(),
{
    if file_types.len() == 0 {
        Seq::empty()
    } else {
        type_add_flags(file_types.drop_last()).push("--type-add=custom:*."@ + file_types.last())
    }
}

/// The file type flags: one type definition per requested extension, then
/// the flag that selects the combined type; nothing when no types are set.
pub open spec fn type_flags_of(file_types: Seq<Seq<char>>) -> Seq<Seq<char>> {
    if file_types.len() == 0 {
        Seq::empty()
    } else {
        type_add_flags(file_types) + seq!["--type=custom"@]
    }
}

/// The full argument list: mode flags, the common flags, type flags, the
/// pattern, and the directory (the current one when none is given).
pub open spec fn rg_args_of(
    mode: SearchEngineMode,
    file_types: Seq<Seq<char>>,
    pattern: Seq<char>,
    directory: Option<Seq<char>>,
) -> Seq<Seq<char>> {
    mode_flags_of(mode) + seq!["--line-number"@, "--no-heading"@, "--with-filename"@]
        + type_flags_of(file_types) + seq![pattern] + seq![
        match directory {
            Some(d) => d,
            None => "."@,
        },
    ]
}

impl SearchEngine {
    /// Configures the engine from the command line options.
    pub fn from_cli(cli: &Cli) -> (r: Result<SearchEngine, SearchError>)
        ensures
            (r matches Ok(e) && e.mode == engine_mode_of(*cli) && e.file_types@.len() == 0),
    {
        Self::from_cli_with_config(cli)
    }

    /// Configures the engine from the command line options; the exact mode
    /// wins over case-insensitive, which wins over substring.
    pub fn from_cli_with_config(cli: &Cli) -> (r: Result<SearchEngine, SearchError>)
        ensures
            (r matches Ok(e) && e.mode == engine_mode_of(*cli) && e.file_types@.len() == 0),
    {
        let mode = if cli.exact {
            SearchEngineMode::Exact
        } else if cli.ignore_case {
            SearchEngineMode::CaseInsensitive
        } else if cli.substring {
            SearchEngineMode::Substring
        } else {
            SearchEngineMode::CaseInsensitive
        };
        let file_types: Vec<String> = Vec::new();
        Ok(SearchEngine { mode, file_types })
    }

    /// Generates the search process's arguments for a pattern and an
    /// optional directory.
    pub fn generate_rg_args(&self, pattern: &str, directory: Option<&str>) -> (args: Vec<String>)
        ensures
            args.deep_view() == rg_args_of(
                self.mode,
                self.file_types.deep_view(),
                pattern@,
                crate::result::opt_str_view(directory),
            ),
    {
        let mut args: Vec<String> = Vec::new();
        match &self.mode {
            SearchEngineMode::Exact => {
                args.push(String::from_str("--word-regexp"));
                args.push(String::from_str("--case-sensitive"));
            },
            SearchEngineMode::CaseInsensitive => {
                args.push(String::from_str("--ignore-case"));
            },
            SearchEngineMode::Substring => {
                args.push(String::from_str("--case-sensitive"));
            },
        }
        args.push(String::from_str("--line-number"));
        args.push(String::from_str("--no-heading"));
        args.push(String::from_str("--with-filename"));
        proof {
            assert(args.deep_view() =~~= mode_flags_of(self.mode) + seq![
                "--line-number"@,
                "--no-heading"@,
                "--with-filename"@,
            ]);
        }
        let ghost flags_part = args.deep_view();
        if self.file_types.len() > 0 {
            let mut i: usize = 0;
            while i < self.file_types.len()
                invariant
                    i <= self.file_types@.len(),
                    args.deep_view() == flags_part + type_add_flags(
                        self.file_types.deep_view().subrange(0, i as int),
                    ),
                decreases self.file_types@.len() - i,
            {
                let mut flag = String::from_str("--type-add=custom:*.");
                flag.append(self.file_types[i].as_str());
                let ghost flagv = flag@;
                let ghost prev_args = args.deep_view();
                args.push(flag);
                proof {
                    assert(flagv == "--type-add=custom:*."@ + self.file_types@[i as int]@);
                    assert(self.file_types.deep_view()[i as int] == self.file_types@[i as int]@);
                    assert(args.deep_view() =~~= prev_args.push(flagv));
                    assert(self.file_types.deep_view().subrange(0, i + 1).drop_last()
                        =~= self.file_types.deep_view().subrange(0, i as int));
                    assert(self.file_types.deep_view().subrange(0, i + 1).last()
                        == self.file_types.deep_view()[i as int]);
                    assert(args.deep_view() =~~= flags_part + type_add_flags(
                        self.file_types.deep_view().subrange(0, i + 1),
                    ));
                }
                i += 1;
            }
            let ghost before_custom = args.deep_view();
            args.push(String::from_str("--type=custom"));
            proof {
                assert(args.deep_view() =~~= before_custom.push("--type=custom"@));
                assert(self.file_types.deep_view().subrange(
                    0,
                    self.file_types.deep_view().len() as int,
                ) =~= self.file_types.deep_view());
                assert(args.deep_view() =~~= flags_part + type_flags_of(
                    self.file_types.deep_view(),
                ));
            }
        } else {
            proof {
                assert(args.deep_view() =~~= flags_part + type_flags_of(
                    self.file_types.deep_view(),
                ));
            }
        }
        let ghost before_pattern = args.deep_view();
        args.push(String::from_str(pattern));
        proof {
            assert(args.deep_view() =~~= before_pattern.push(pattern@));
        }
        let ghost before_dir = args.deep_view();
        match directory {
            Some(dir) => {
                args.push(String::from_str(dir));
                proof {
                    assert(args.deep_view() =~~= before_dir.push(dir@));
                }
            },
            None => {
                args.push(String::from_str("."));
                proof {
                    assert(args.deep_view() =~~= before_dir.push("."@));
                }
            },
        }
        proof {
            assert(args.deep_view() =~~= rg_args_of(
                self.mode,
                self.file_types.deep_view(),
                pattern@,
                crate::result::opt_str_view(directory),
            ));
        }
        args
    }
}

} // verus!
