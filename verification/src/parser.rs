use vstd::prelude::*;

verus! {

use vstd::string::StrSliceExecFns;
use vstd::string::StringExecFns;

/// The separators a request line may carry between its tokens.
pub open spec fn spec_is_blank(c: char) -> bool {
    c == ' ' || c == '\t' || c == '\r' || c == '\n'
}

/// The first index at or after `start` whose character is not a separator;
/// the length when only separators remain.
pub open spec fn spec_skip_blanks(line: Seq<char>, start: int) -> int
    recommends
        0 <= start <= line.len(),
    decreases line.len() - start,
{
    if start >= line.len() || !spec_is_blank(line[start]) {
        start
    } else {
        spec_skip_blanks(line, start + 1)
    }
}

/// The first index at or after `start` whose character is a separator; the
/// length when the token runs to the end of the line.
pub open spec fn spec_skip_token(line: Seq<char>, start: int) -> int
    recommends
        0 <= start <= line.len(),
    decreases line.len() - start,
{
    if start >= line.len() || spec_is_blank(line[start]) {
        start
    } else {
        spec_skip_token(line, start + 1)
    }
}

/// The first two separator-delimited tokens of a request line — the method
/// and the path — or nothing when the line holds fewer than two tokens.
pub open spec fn spec_method_and_path(line: Seq<char>) -> Option<(Seq<char>, Seq<char>)> {
    let method_start = spec_skip_blanks(line, 0);
    let method_end = spec_skip_token(line, method_start);
    let path_start = spec_skip_blanks(line, method_end);
    let path_end = spec_skip_token(line, path_start);
    if method_start < method_end && path_start < path_end {
        Some((line.subrange(method_start, method_end), line.subrange(path_start, path_end)))
    } else {
        None
    }
}

/// Whether the character is one of the request-line separators.
fn is_blank(c: char) -> (result: bool)
    ensures
        result == spec_is_blank(c),
{
    c == ' ' || c == '\t' || c == '\r' || c == '\n'
}

/// Scans past separators from `start`.
fn skip_blanks(line: &str, start: usize) -> (position: usize)
    requires
        start <= line@.len(),
    ensures
        position == spec_skip_blanks(line@, start as int),
        start <= position <= line@.len(),
{
    let line_len = line.unicode_len();
    let mut position = start;
    while position < line_len && is_blank(line.get_char(position))
        invariant
            start <= position <= line_len,
            line_len == line@.len(),
            spec_skip_blanks(line@, start as int) == spec_skip_blanks(line@, position as int),
        decreases line_len - position,
    {
        position = position + 1;
    }
    position
}

/// Scans past one token from `start`.
fn skip_token(line: &str, start: usize) -> (position: usize)
    requires
        start <= line@.len(),
    ensures
        position == spec_skip_token(line@, start as int),
        start <= position <= line@.len(),
{
    let line_len = line.unicode_len();
    let mut position = start;
    while position < line_len && !is_blank(line.get_char(position))
        invariant
            start <= position <= line_len,
            line_len == line@.len(),
            spec_skip_token(line@, start as int) == spec_skip_token(line@, position as int),
        decreases line_len - position,
    {
        position = position + 1;
    }
    position
}

/// Extracts the method and the path from a request line: its first two
/// separator-delimited tokens. A line with fewer than two tokens is
/// malformed; the router takes no action on it and the transport layer is
/// expected to fail the request itself.
pub fn parse_request_line(line: &str) -> (result: Option<(String, String)>)
    ensures
        match result {
            Some(parts) => spec_method_and_path(line@) == Some((parts.0@, parts.1@)),
            None => spec_method_and_path(line@) is None,
        },
{
    let line_len = line.unicode_len();
    let method_start = skip_blanks(line, 0);
    let method_end = skip_token(line, method_start);
    let path_start = skip_blanks(line, method_end);
    let path_end = skip_token(line, path_start);
    if method_start < method_end && path_start < path_end {
        let method = line.substring_char(method_start, method_end);
        let path = line.substring_char(path_start, path_end);
        Some((String::from_str(method), String::from_str(path)))
    } else {
        None
    }
}

} // verus!
