//! Position tracking for the source parser.

use vstd::prelude::*;
use vstd::string::{StringSliceAdditionalSpecFns, StrSliceExecFns};
use crate::names::starts_with;

verus! {

/// A position in a source file.
#[derive(Debug, Clone)]
pub struct State<'a> {
    /// The input that is still to be read.
    pub input: &'a str,
    /// Current line of the input.
    pub line: u32,
    /// Current column of the input.
    pub column: u32,
    /// Current indentation level, in columns (no indent is column 1).
    pub indent_col: u32,
    /// True at the beginning of each line, false after the first nonspace
    /// character on that line.
    pub is_indenting: bool,
}

/// What is currently being parsed; used to improve error messages.
#[derive(Debug, Clone, Copy)]
pub enum Attempting {
    List,
    Keyword,
}

/// Reads one character.
///
/// Succeeds on any non-empty input: the character is taken off the input,
/// and a line break starts a new line at column zero. Fails on empty input
/// and hands the state back. Where the input begins with a line break, the
/// line number must have room to grow.
pub fn any<'a>(state: &State<'a>) -> (r: Result<(State<'a>, char), State<'a>>)
    requires
        state.input@.len() > 0 && state.input@[0] == '\n' ==> state.line < u32::MAX,
    ensures
        match r {
            Ok((next, ch)) => {
                &&& state.input@.len() > 0
                &&& ch == state.input@[0]
                &&& next.input@ == state.input@.subrange(1, state.input@.len() as int)
                &&& next.line == (if ch == '\n' {
                    state.line + 1
                } else {
                    state.line as int
                })
                &&& next.column == (if ch == '\n' {
                    0
                } else {
                    state.column
                })
                &&& next.indent_col == state.indent_col
                &&& next.is_indenting == state.is_indenting
            },
            Err(back) => state.input@.len() == 0 && back == *state,
        },
{
    let n: usize = state.input.unicode_len();
    if n == 0 {
        return Err(
            State {
                input: state.input,
                line: state.line,
                column: state.column,
                indent_col: state.indent_col,
                is_indenting: state.is_indenting,
            },
        );
    }
    let ch: char = state.input.get_char(0);
    let rest: &'a str = state.input.substring_char(1, n);
    if ch == '\n' {
        Ok(
            (
                State {
                    input: rest,
                    line: state.line + 1,
                    column: 0,
                    indent_col: state.indent_col,
                    is_indenting: state.is_indenting,
                },
                ch,
            ),
        )
    } else {
        Ok(
            (
                State {
                    input: rest,
                    line: state.line,
                    column: state.column,
                    indent_col: state.indent_col,
                    is_indenting: state.is_indenting,
                },
                ch,
            ),
        )
    }
}

/// Reads the keyword `kw`, which holds no line break.
///
/// Succeeds exactly when the input begins with the keyword: the keyword is
/// taken off the input and the column advances by its length in bytes. Fails
/// otherwise and hands the state back. Where the input begins with the
/// keyword, the column must have room to advance.
pub fn keyword<'a>(kw: &str, state: &State<'a>) -> (r: Result<(State<'a>, ()), State<'a>>)
    requires
        !kw@.contains('\n'),
        kw@.is_prefix_of(state.input@) ==> state.column + kw.spec_bytes().len() <= u32::MAX,
    ensures
        match r {
            Ok((next, _)) => {
                &&& kw@.is_prefix_of(state.input@)
                &&& next.input@ == state.input@.subrange(
                    kw@.len() as int,
                    state.input@.len() as int,
                )
                &&& next.line == state.line
                &&& next.column == state.column + kw.spec_bytes().len()
                &&& next.indent_col == state.indent_col
                &&& next.is_indenting == state.is_indenting
            },
            Err(back) => !kw@.is_prefix_of(state.input@) && back == *state,
        },
{
    if starts_with(state.input, kw) {
        let rest: &'a str = state.input.substring_char(kw.unicode_len(), state.input.unicode_len());
        Ok(
            (
                State {
                    input: rest,
                    line: state.line,
                    column: state.column + kw.len() as u32,
                    indent_col: state.indent_col,
                    is_indenting: state.is_indenting,
                },
                (),
            ),
        )
    } else {
        Err(
            State {
                input: state.input,
                line: state.line,
                column: state.column,
                indent_col: state.indent_col,
                is_indenting: state.is_indenting,
            },
        )
    }
}

} // verus!
