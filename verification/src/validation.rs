//! Input validation and sanitization for search patterns and file paths.

use vstd::prelude::*;

use crate::constants::{MAX_PATH_LENGTH, MAX_PROBLEM_CHARS, PATTERN_MAX_LENGTH};
use crate::error::SearchError;
use crate::strings::{push_char, trim_str, trimmed_of, usize_to_string};

verus! {

/// Whether the regex engine accepts a pattern; the grammar is the regex
/// crate's, so the answer is only named here, never spelled out.
pub uninterp spec fn regex_accepts(pattern: Seq<char>) -> bool;

/// Relies on regex::Regex::new: whether a pattern compiles is a function of
/// the pattern string alone.
#[verifier::external_body]
fn regex_pattern_compiles(pattern: &str) -> (r: bool)
    ensures
        r == regex_accepts(pattern@),
{
    regex::Regex::new(pattern).is_ok()
}

/// Whether a character is a control character; the class is Unicode's, so
/// it is only named here.
pub uninterp spec fn is_control_char(c: char) -> bool;

/// Relies on char::is_control: the answer depends on the character alone.
#[verifier::external_body]
fn char_is_control(c: char) -> (r: bool)
    ensures
        r == is_control_char(c),
{
    c.is_control()
}

/// A character that sanitization keeps: not a control character, except
/// tabs and newlines, which stay.
pub open spec fn keep_char(c: char) -> bool {
    !is_control_char(c) || c == '\t' || c == '\n'
}

/// A pattern with control characters removed, tabs and newlines kept.
pub open spec fn sanitized_of(s: Seq<char>) -> Seq<char>
    decreases s.len(),
{
    if s.len() == 0 {
        Seq::empty()
    } else if keep_char(s.last()) {
        sanitized_of(s.drop_last()).push(s.last())
    } else {
        sanitized_of(s.drop_last())
    }
}

/// How often a character occurs in a sequence.
pub open spec fn occurrences(s: Seq<char>, c: char) -> nat
    decreases s.len(),
{
    if s.len() == 0 {
        0
    } else if s.last() == c {
        occurrences(s.drop_last(), c) + 1
    } else {
        occurrences(s.drop_last(), c)
    }
}

/// Whether some character that commonly breaks patterns occurs more than
/// the accepted number of times.
pub open spec fn has_problematic_counts(s: Seq<char>) -> bool {
    ||| occurrences(s, '*') > MAX_PROBLEM_CHARS
    ||| occurrences(s, '?') > MAX_PROBLEM_CHARS
    ||| occurrences(s, '[') > MAX_PROBLEM_CHARS
    ||| occurrences(s, ']') > MAX_PROBLEM_CHARS
    ||| occurrences(s, '{') > MAX_PROBLEM_CHARS
    ||| occurrences(s, '}') > MAX_PROBLEM_CHARS
    ||| occurrences(s, '(') > MAX_PROBLEM_CHARS
    ||| occurrences(s, ')') > MAX_PROBLEM_CHARS
    ||| occurrences(s, '+') > MAX_PROBLEM_CHARS
    ||| occurrences(s, '|') > MAX_PROBLEM_CHARS
}

/// Whether the two characters occur adjacently, in this order.
pub open spec fn has_pair(s: Seq<char>, a: char, b: char) -> bool {
    exists|i: int| 0 <= i < s.len() - 1 && #[trigger] s[i] == a && s[i + 1] == b
}

/// Whether the pattern holds one of the quantifier pairs that can cause
/// catastrophic backtracking.
pub open spec fn has_nested_quantifiers(s: Seq<char>) -> bool {
    has_pair(s, '*', '+') || has_pair(s, '+', '+') || has_pair(s, '?', '+')
}

fn count_char(s: &str, c: char) -> (n: usize)
    ensures
        n == occurrences(s@, c),
{
    let len = s.unicode_len();
    let mut n: usize = 0;
    let mut i: usize = 0;
    proof {
        assert(s@.subrange(0, 0) =~= Seq::<char>::empty());
    }
    while i < len
        invariant
            i <= len,
            len == s@.len(),
            n <= i,
            n == occurrences(s@.subrange(0, i as int), c),
        decreases len - i,
    {
        proof {
            assert(s@.subrange(0, i + 1).drop_last() =~= s@.subrange(0, i as int));
            assert(s@.subrange(0, i + 1).last() == s@[i as int]);
        }
        if s.get_char(i) == c {
            n += 1;
        }
        i += 1;
    }
    proof {
        assert(s@.subrange(0, s@.len() as int) =~= s@);
    }
    n
}

fn contains_pair(s: &str, a: char, b: char) -> (r: bool)
    ensures
        r == has_pair(s@, a, b),
{
    let len = s.unicode_len();
    if len < 2 {
        return false;
    }
    let mut i: usize = 0;
    while i < len - 1
        invariant
            i <= len - 1,
            len == s@.len(),
            len >= 2,
            forall|j: int| 0 <= j < i ==> !(#[trigger] s@[j] == a && s@[j + 1] == b),
        decreases len - i,
    {
        if s.get_char(i) == a && s.get_char(i + 1) == b {
            return true;
        }
        i += 1;
    }
    false
}

fn sanitize(s: &str) -> (r: String)
    ensures
        r@ == sanitized_of(s@),
{
    let len = s.unicode_len();
    let mut out = String::new();
    let mut i: usize = 0;
    proof {
        assert(s@.subrange(0, 0) =~= Seq::<char>::empty());
    }
    while i < len
        invariant
            i <= len,
            len == s@.len(),
            out@ == sanitized_of(s@.subrange(0, i as int)),
        decreases len - i,
    {
        let c = s.get_char(i);
        proof {
            assert(s@.subrange(0, i + 1).drop_last() =~= s@.subrange(0, i as int));
            assert(s@.subrange(0, i + 1).last() == s@[i as int]);
        }
        if !char_is_control(c) || c == '\t' || c == '\n' {
            push_char(&mut out, c);
        }
        i += 1;
    }
    proof {
        assert(s@.subrange(0, s@.len() as int) =~= s@);
    }
    out
}

/// Input validator for search patterns and file paths.
pub struct InputValidator;

impl InputValidator {
    /// Validates and sanitizes a search pattern.  A blank or overlong
    /// pattern is rejected; one the regex engine refuses is screened for
    /// repeated special characters and nested quantifiers; what remains is
    /// returned with control characters stripped.
    pub fn validate_search_pattern(pattern: &str) -> (r: Result<String, SearchError>)
        ensures
            ({
                let t = trimmed_of(pattern@);
                &&& t.len() == 0 ==> (r matches Err(SearchError::InvalidPattern {
                    pattern: p,
                    reason,
                }) && p@ == pattern@ && reason@
                    == "Patterm cannot be empty or whitespace-only"@)
                &&& t.len() > PATTERN_MAX_LENGTH ==> (r matches Err(SearchError::InvalidPattern {
                    pattern: p,
                    reason,
                }) && p@ == pattern@ && reason@ == "Pattern cannot be longer than "@ + crate::
                strings::dec_digits(PATTERN_MAX_LENGTH as nat) + " characters"@)
                &&& 0 < t.len() <= PATTERN_MAX_LENGTH && !regex_accepts(t)
                    && has_problematic_counts(t) ==> (r matches Err(SearchError::InvalidPattern {
                    pattern: p,
                    reason,
                }) && p@ == pattern@ && reason@ == "Pattern contains "@ + crate::
                strings::dec_digits(MAX_PROBLEM_CHARS as nat)
                    + " characters which may be problematic"@)
                &&& 0 < t.len() <= PATTERN_MAX_LENGTH && !regex_accepts(t)
                    && !has_problematic_counts(t) && has_nested_quantifiers(t) ==> (
                r matches Err(SearchError::InvalidPattern { pattern: p, reason }) && p@ == pattern@
                    && reason@
                    == "Pattern contains nested quantifiers that could cause catastrophic backtracking"@)
                &&& 0 < t.len() <= PATTERN_MAX_LENGTH && (regex_accepts(t) || (
                !has_problematic_counts(t) && !has_nested_quantifiers(t))) ==> (r matches Ok(s)
                    && s@ == sanitized_of(t))
            }),
    {
        let trimmed = trim_str(pattern);
        if trimmed.as_str().unicode_len() == 0 {
            return Err(
                SearchError::InvalidPattern {
                    pattern: String::from_str(pattern),
                    reason: String::from_str("Patterm cannot be empty or whitespace-only"),
                },
            );
        }
        if trimmed.as_str().unicode_len() > PATTERN_MAX_LENGTH {
            let mut reason = String::from_str("Pattern cannot be longer than ");
            reason.append(usize_to_string(PATTERN_MAX_LENGTH).as_str());
            reason.append(" characters");
            return Err(
                SearchError::InvalidPattern { pattern: String::from_str(pattern), reason },
            );
        }
        if !regex_pattern_compiles(trimmed.as_str()) {
            if Self::exceeds_problem_counts(trimmed.as_str()) {
                let mut reason = String::from_str("Pattern contains ");
                reason.append(usize_to_string(MAX_PROBLEM_CHARS).as_str());
                reason.append(" characters which may be problematic");
                return Err(
                    SearchError::InvalidPattern { pattern: String::from_str(pattern), reason },
                );
            }
            let star_plus = contains_pair(trimmed.as_str(), '*', '+');
            let plus_plus = contains_pair(trimmed.as_str(), '+', '+');
            let question_plus = contains_pair(trimmed.as_str(), '?', '+');
            if star_plus || plus_plus || question_plus {
                return Err(
                    SearchError::InvalidPattern {
                        pattern: String::from_str(pattern),
                        reason: String::from_str(
                            "Pattern contains nested quantifiers that could cause catastrophic backtracking",
                        ),
                    },
                );
            }
        }
        Ok(sanitize(trimmed.as_str()))
    }

    fn exceeds_problem_counts(s: &str) -> (r: bool)
        ensures
            r == has_problematic_counts(s@),
    {
        if count_char(s, '*') > MAX_PROBLEM_CHARS {
            return true;
        }
        if count_char(s, '?') > MAX_PROBLEM_CHARS {
            return true;
        }
        if count_char(s, '[') > MAX_PROBLEM_CHARS {
            return true;
        }
        if count_char(s, ']') > MAX_PROBLEM_CHARS {
            return true;
        }
        if count_char(s, '{') > MAX_PROBLEM_CHARS {
            return true;
        }
        if count_char(s, '}') > MAX_PROBLEM_CHARS {
            return true;
        }
        if count_char(s, '(') > MAX_PROBLEM_CHARS {
            return true;
        }
        if count_char(s, ')') > MAX_PROBLEM_CHARS {
            return true;
        }
        if count_char(s, '+') > MAX_PROBLEM_CHARS {
            return true;
        }
        if count_char(s, '|') > MAX_PROBLEM_CHARS {
            return true;
        }
        false
    }

    /// Validates a file path: not blank, no null bytes, not overlong; the
    /// accepted path comes back trimmed.
    pub fn validate_file_path(path: &str) -> (r: Result<String, SearchError>)
        ensures
            ({
                let t = trimmed_of(path@);
                &&& t.len() == 0 ==> (r matches Err(SearchError::InvalidInput(m)) && m@
                    == "File path cannot be empty"@)
                &&& t.len() > 0 && t.contains('\0') ==> (r matches Err(SearchError::InvalidInput(
                    m,
                )) && m@ == "File path contains null bytes"@)
                &&& t.len() > 0 && !t.contains('\0') && t.len() > MAX_PATH_LENGTH ==> (
                r matches Err(SearchError::InvalidInput(m)) && m@
                    == "File path is too long (max length is 4096 characters)"@)
                &&& 0 < t.len() <= MAX_PATH_LENGTH && !t.contains('\0') ==> (r matches Ok(s)
                    && s@ == t)
            }),
    {
        let trimmed = trim_str(path);
        if trimmed.as_str().unicode_len() == 0 {
            return Err(SearchError::InvalidInput(String::from_str("File path cannot be empty")));
        }
        if Self::contains_null(trimmed.as_str()) {
            return Err(
                SearchError::InvalidInput(String::from_str("File path contains null bytes")),
            );
        }
        if trimmed.as_str().unicode_len() > MAX_PATH_LENGTH {
            return Err(
                SearchError::InvalidInput(
                    String::from_str("File path is too long (max length is 4096 characters)"),
                ),
            );
        }
        Ok(trimmed)
    }

    fn contains_null(s: &str) -> (r: bool)
        ensures
            r == s@.contains('\0'),
    {
        let len = s.unicode_len();
        let mut i: usize = 0;
        while i < len
            invariant
                i <= len,
                len == s@.len(),
                forall|j: int| 0 <= j < i ==> s@[j] != '\0',
            decreases len - i,
        {
            if s.get_char(i) == '\0' {
                return true;
            }
            i += 1;
        }
        false
    }
}

} // verus!
