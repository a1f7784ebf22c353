//! File preview formatting: numbered lines, a marker on the target line,
//! and the window placed around it.  Reading the file itself is the front
//! end's part; it hands the lines of the window here.

use vstd::prelude::*;

use crate::constants::{DEFAULT_TERMINAL_HEIGHT, MAX_LINE_NUM_DIGITS};
use crate::strings::{dec_digits, push_char, usize_to_string};

verus! {

/// File preview handler.
pub struct PreviewHandler;

impl PreviewHandler {
    /// Creates a new preview handler.
    pub fn new() -> PreviewHandler {
        PreviewHandler
    }
}

impl Default for PreviewHandler {
    fn default() -> (r: PreviewHandler) {
        PreviewHandler::new()
    }
}

/// A run of spaces.
pub open spec fn spaces(k: nat) -> Seq<char>
    decreases k,
{
    if k == 0 {
        Seq::empty()
    } else {
        spaces((k - 1) as nat).push(' ')
    }
}

/// A line number, right-aligned in the number column.
pub open spec fn padded_num(n: nat) -> Seq<char> {
    let d = dec_digits(n);
    if d.len() >= MAX_LINE_NUM_DIGITS {
        d
    } else {
        spaces((MAX_LINE_NUM_DIGITS - d.len()) as nat) + d
    }
}

/// One preview line: the padded number, the marker on the target line when
/// a target is given, the separator, and the line text.
pub open spec fn preview_line_of(num: nat, target: Option<usize>, line: Seq<char>) -> Seq<char> {
    let marker = match target {
        Some(t) => if num == t {
            seq!['>']
        } else {
            seq![' ']
        },
        None => Seq::empty(),
    };
    padded_num(num) + marker + "| "@ + line + seq!['\n']
}

/// The preview text of a window of lines, numbered from `start`.
pub open spec fn preview_of(lines: Seq<Seq<char>>, start: nat, target: Option<usize>) -> Seq<char>
    decreases lines.len(),
{
    if lines.len() == 0 {
        Seq::empty()
    } else {
        preview_of(lines.drop_last(), start, target) + preview_line_of(
            (start + lines.len() - 1) as nat,
            target,
            lines.last(),
        )
    }
}

/// How many lines the preview shows: the terminal height when known.
pub fn preview_max_lines(terminal_dimensions: Option<(usize, usize)>) -> (r: usize)
    ensures
        terminal_dimensions matches Some(d) ==> r == d.1,
        terminal_dimensions is None ==> r == DEFAULT_TERMINAL_HEIGHT,
{
    match terminal_dimensions {
        Some(d) => d.1,
        None => DEFAULT_TERMINAL_HEIGHT,
    }
}

/// Where the preview window starts for a target line: half a window above
/// it, and never before the first line.
pub fn preview_start_line(target_line: usize, max_lines: usize) -> (r: usize)
    ensures
        r as int == if target_line - max_lines / 2 >= 1 {
            target_line - max_lines / 2
        } else {
            1int
        },
{
    let context_before = max_lines / 2;
    if target_line > context_before {
        if target_line - context_before >= 1 {
            target_line - context_before
        } else {
            1
        }
    } else {
        1
    }
}

fn pad_number(num: usize) -> (r: String)
    ensures
        r@ == padded_num(num as nat),
{
    let d = usize_to_string(num);
    let dl = d.as_str().unicode_len();
    if dl >= MAX_LINE_NUM_DIGITS {
        return d;
    }
    let mut out = String::new();
    let mut k: usize = 0;
    let width = MAX_LINE_NUM_DIGITS - dl;
    while k < width
        invariant
            k <= width,
            out@ == spaces(k as nat),
        decreases width - k,
    {
        push_char(&mut out, ' ');
        k += 1;
    }
    out.append(d.as_str());
    out
}

/// Renders a window of lines as the preview text: each line numbered from
/// `start_line`, with a `>` marker on the target line when one is given.
pub fn render_preview_lines(lines: &Vec<String>, start_line: usize, target_line: Option<usize>) -> (
    r: String)
    requires
        start_line + lines@.len() <= usize::MAX,
    ensures
        r@ == preview_of(lines.deep_view(), start_line as nat, target_line),
{
    let mut out = String::new();
    let mut i: usize = 0;
    proof {
        assert(lines.deep_view().subrange(0, 0) =~= Seq::<Seq<char>>::empty());
    }
    while i < lines.len()
        invariant
            i <= lines@.len(),
            lines@.len() == lines.deep_view().len(),
            start_line + lines@.len() <= usize::MAX,
            out@ == preview_of(lines.deep_view().subrange(0, i as int), start_line as nat,
            target_line),
        decreases lines@.len() - i,
    {
        let num = start_line + i;
        let mut piece = pad_number(num);
        match target_line {
            Some(t) => {
                if num == t {
                    push_char(&mut piece, '>');
                } else {
                    push_char(&mut piece, ' ');
                }
            },
            None => {},
        }
        piece.append("| ");
        piece.append(lines[i].as_str());
        push_char(&mut piece, '\n');
        out.append(piece.as_str());
        proof {
            assert(lines.deep_view()[i as int] == lines@[i as int]@);
            assert(piece@ =~= preview_line_of(
                num as nat,
                target_line,
                lines.deep_view()[i as int],
            ));
            assert(lines.deep_view().subrange(0, i + 1).drop_last() =~= lines.deep_view().subrange(
                0,
                i as int,
            ));
            assert(lines.deep_view().subrange(0, i + 1).last() == lines.deep_view()[i as int]);
        }
        i += 1;
    }
    proof {
        assert(lines.deep_view().subrange(0, lines.deep_view().len() as int)
            =~= lines.deep_view());
    }
    out
}

} // verus!
