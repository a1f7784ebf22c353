//! A single search result and its cached display path.

use vstd::prelude::*;

use crate::strings::{
    dec_digits, push_char, str_starts_with, str_suffix, trim_str, trimmed_of, usize_to_string,
};

verus! {

/// Strips a single leading "./" from a path.
pub open spec fn cleaned_path_of(path: Seq<char>) -> Seq<char> {
    if path.len() >= 2 && path[0] == '.' && path[1] == '/' {
        path.subrange(2, path.len() as int)
    } else {
        path
    }
}

/// The display path: the cleaned path, made relative to the base directory
/// when the base directory is a prefix of it (with one separating '/'
/// dropped), and the cleaned path unchanged otherwise.
pub open spec fn display_path_of(path: Seq<char>, base: Option<Seq<char>>) -> Seq<char> {
    let cleaned = cleaned_path_of(path);
    match base {
        Some(b) => if b.is_prefix_of(cleaned) {
            let rest = cleaned.subrange(b.len() as int, cleaned.len() as int);
            if rest.len() >= 1 && rest[0] == '/' {
                rest.subrange(1, rest.len() as int)
            } else {
                rest
            }
        } else {
            cleaned
        },
        None => cleaned,
    }
}

/// The view of an optional borrowed string.
pub open spec fn opt_str_view(o: Option<&str>) -> Option<Seq<char>> {
    match o {
        Some(s) => Some(s@),
        None => None,
    }
}

/// The view of an optional owned string.
pub open spec fn opt_string_view(o: Option<String>) -> Option<Seq<char>> {
    match o {
        Some(s) => Some(s@),
        None => None,
    }
}

/// Represents a single search result.
#[derive(Debug, Clone, PartialEq)]
pub struct SearchResult {
    pub file_path: String,
    pub line_number: usize,
    pub line_content: String,
    pub matched_text: String,
    /// Original line content with coloring from the search process.
    pub line_colored_content: Option<String>,
    /// Base directory of the search (used for the relative display path).
    pub base_dir: Option<String>,
    /// Pre-computed display path, cached so it is never recomputed per render.
    pub display_path: String,
}

impl SearchResult {
    /// The display path is the one computed at construction time.
    pub open spec fn wf(self) -> bool {
        self.display_path@ == display_path_of(
            self.file_path@,
            opt_string_view(self.base_dir),
        )
    }

    /// What `format_for_display` returns.
    pub open spec fn formatted(self, use_color: bool) -> Seq<char> {
        let content = if use_color && self.line_colored_content is Some {
            self.line_colored_content->0@
        } else {
            self.line_content@
        };
        self.display_path@ + seq![':'] + dec_digits(self.line_number as nat) + seq![' ']
            + trimmed_of(content)
    }

    /// Creates a new search result; the display path is computed once, here.
    pub fn new(
        file_path: String,
        line_number: usize,
        line_content: String,
        matched_text: String,
        line_colored_content: Option<String>,
        base_dir: Option<String>,
    ) -> (r: SearchResult)
        ensures
            r.file_path == file_path,
            r.line_number == line_number,
            r.line_content == line_content,
            r.matched_text == matched_text,
            r.line_colored_content == line_colored_content,
            r.base_dir == base_dir,
            r.wf(),
    {
        let display_path = match &base_dir {
            Some(b) => Self::compute_display_path(file_path.as_str(), Some(b.as_str())),
            None => Self::compute_display_path(file_path.as_str(), None),
        };
        SearchResult {
            file_path,
            line_number,
            line_content,
            matched_text,
            line_colored_content,
            base_dir,
            display_path,
        }
    }

    /// Computes the display path for a path and an optional base directory.
    /// The function is total and depends on its arguments alone.
    pub fn compute_display_path(file_path: &str, base_dir: Option<&str>) -> (r: String)
        ensures
            r@ == display_path_of(file_path@, opt_str_view(base_dir)),
    {
        let has_dot_slash = str_starts_with(file_path, "./");
        proof {
            reveal_strlit("./");
            assert("./"@[0] == '.' && "./"@[1] == '/' && "./"@.len() == 2);
            if has_dot_slash {
                assert("./"@ =~= file_path@.subrange(0, 2));
                assert(file_path@.subrange(0, 2)[0] == file_path@[0]);
                assert(file_path@.subrange(0, 2)[1] == file_path@[1]);
                assert(file_path@[0] == '.' && file_path@[1] == '/');
            } else if file_path@.len() >= 2 && file_path@[0] == '.' && file_path@[1] == '/' {
                assert(file_path@.subrange(0, 2)[0] == '.');
                assert(file_path@.subrange(0, 2)[1] == '/');
                assert("./"@ =~= file_path@.subrange(0, 2));
                assert(false);
            }
        }
        let cleaned: String = if has_dot_slash {
            str_suffix(file_path, 2)
        } else {
            String::from_str(file_path)
        };
        proof {
            assert(cleaned@ == cleaned_path_of(file_path@));
        }
        if let Some(base) = base_dir {
            if str_starts_with(cleaned.as_str(), base) {
                let rest = str_suffix(cleaned.as_str(), base.unicode_len());
                let has_slash = str_starts_with(rest.as_str(), "/");
                proof {
                    reveal_strlit("/");
                    assert("/"@[0] == '/' && "/"@.len() == 1);
                    if has_slash {
                        assert("/"@ =~= rest@.subrange(0, 1));
                        assert(rest@.subrange(0, 1)[0] == rest@[0]);
                        assert(rest@[0] == '/');
                    } else if rest@.len() >= 1 && rest@[0] == '/' {
                        assert(rest@.subrange(0, 1)[0] == '/');
                        assert("/"@ =~= rest@.subrange(0, 1));
                        assert(false);
                    }
                }
                if has_slash {
                    let stripped = str_suffix(rest.as_str(), 1);
                    proof {
                        assert(stripped@ == display_path_of(file_path@, opt_str_view(base_dir)));
                    }
                    return stripped;
                }
                return rest;
            }
        }
        cleaned
    }

    /// Formats the result for display: display path, line number, and the
    /// trimmed content, using the colored content when asked for and present.
    pub fn format_for_display(&self, use_color: bool) -> (r: String)
        ensures
            r@ == self.formatted(use_color),
    {
        let mut out = self.display_path.clone();
        push_char(&mut out, ':');
        let num = usize_to_string(self.line_number);
        out.append(num.as_str());
        push_char(&mut out, ' ');
        let trimmed = if use_color && self.line_colored_content.is_some() {
            match &self.line_colored_content {
                Some(c) => trim_str(c.as_str()),
                None => trim_str(self.line_content.as_str()),
            }
        } else {
            trim_str(self.line_content.as_str())
        };
        out.append(trimmed.as_str());
        proof {
            assert(out@ =~= self.formatted(use_color));
        }
        out
    }

    /// Returns the display path computed at construction time.
    pub fn get_display_path(&self) -> (r: &str)
        ensures
            r@ == self.display_path@,
            self.wf() ==> r@ == display_path_of(self.file_path@, opt_string_view(self.base_dir)),
    {
        self.display_path.as_str()
    }
}

/// Copies a search result field by field; the copy equals the original.
pub fn duplicate(r: &SearchResult) -> (c: SearchResult)
    ensures
        c == *r,
{
    let line_colored_content = match &r.line_colored_content {
        Some(s) => Some(s.clone()),
        None => None,
    };
    let base_dir = match &r.base_dir {
        Some(s) => Some(s.clone()),
        None => None,
    };
    SearchResult {
        file_path: r.file_path.clone(),
        line_number: r.line_number,
        line_content: r.line_content.clone(),
        matched_text: r.matched_text.clone(),
        line_colored_content,
        base_dir,
        display_path: r.display_path.clone(),
    }
}

/// Copies a whole result list, element by element.
pub fn duplicate_all(rs: &Vec<SearchResult>) -> (out: Vec<SearchResult>)
    ensures
        out@ == rs@,
{
    let mut out: Vec<SearchResult> = Vec::new();
    let mut i: usize = 0;
    while i < rs.len()
        invariant
            i <= rs@.len(),
            out@ == rs@.subrange(0, i as int),
        decreases rs@.len() - i,
    {
        out.push(duplicate(&rs[i]));
        proof {
            assert(rs@.subrange(0, i as int).push(rs@[i as int]) =~= rs@.subrange(0, i + 1));
        }
        i += 1;
    }
    proof {
        assert(rs@.subrange(0, rs@.len() as int) =~= rs@);
    }
    out
}

/// Status information for progressive loading.
#[derive(Debug, Clone)]
pub struct ProgressiveLoadStatus {
    pub total_loaded: usize,
    pub loading_complete: bool,
    pub total_files_found: usize,
    pub load_threshold: usize,
}

} // verus!
