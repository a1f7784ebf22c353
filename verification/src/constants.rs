//! Limits and defaults used throughout the crate.

use vstd::prelude::*;

verus! {

pub const PATTERN_MAX_LENGTH: usize = 1000;

pub const MAX_PROBLEM_CHARS: usize = 50;

pub const MAX_PATH_LENGTH: usize = 4096;

pub const DEFAULT_TERMINAL_HEIGHT: usize = 100;

pub const MAX_LINE_NUM_DIGITS: usize = 4;

} // verus!
