//! The request-line parser: extracts the method and the path from the first
//! line of a raw request buffer.
//!
//! Parsing never fails and reads only the first line (up to the first line
//! feed): it is split on ASCII whitespace, and the first two tokens are the
//! method and the path, either of which may be empty when the line is
//! malformed or absent. Bytes that are not valid UTF-8 are tolerated and
//! carried through as token text — the delimiters are ASCII, so token
//! boundaries do not depend on how such bytes would decode, and nothing
//! after the first line can affect the result.

use vstd::prelude::*;

verus! {

/// ASCII whitespace: tab, line feed, vertical tab, form feed, carriage
/// return, space.
pub open spec fn is_ws(b: u8) -> bool {
    b == 9 || b == 10 || b == 11 || b == 12 || b == 13 || b == 32
}

/// Position of the first line feed at or after `i`, or the length of `s`
/// when there is none.
pub open spec fn line_end(s: Seq<u8>, i: int) -> int
    decreases s.len() - i,
{
    if i < 0 || i >= s.len() {
        s.len() as int
    } else if s[i] == 10 {
        i
    } else {
        line_end(s, i + 1)
    }
}

/// First position in `[i, e)` that does not hold whitespace, or `e`.
pub open spec fn skip_ws(s: Seq<u8>, i: int, e: int) -> int
    decreases e - i,
{
    if i < 0 || i >= e || i >= s.len() {
        e
    } else if is_ws(s[i]) {
        skip_ws(s, i + 1, e)
    } else {
        i
    }
}

/// First position in `[i, e)` that holds whitespace, or `e`: the end of the
/// token that starts at `i`.
pub open spec fn token_end(s: Seq<u8>, i: int, e: int) -> int
    decreases e - i,
{
    if i < 0 || i >= e || i >= s.len() {
        e
    } else if !is_ws(s[i]) {
        token_end(s, i + 1, e)
    } else {
        i
    }
}

/// Start of the method token in the first line of `s`.
pub open spec fn method_start(s: Seq<u8>) -> int {
    skip_ws(s, 0, line_end(s, 0))
}

/// End of the method token in the first line of `s`.
pub open spec fn method_end(s: Seq<u8>) -> int {
    token_end(s, method_start(s), line_end(s, 0))
}

/// Start of the path token in the first line of `s`.
pub open spec fn path_start(s: Seq<u8>) -> int {
    skip_ws(s, method_end(s), line_end(s, 0))
}

/// End of the path token in the first line of `s`.
pub open spec fn path_end(s: Seq<u8>) -> int {
    token_end(s, path_start(s), line_end(s, 0))
}

/// The method of a raw request: the first whitespace-separated token of the
/// first line.
pub open spec fn spec_method(s: Seq<u8>) -> Seq<u8> {
    s.subrange(method_start(s), method_end(s))
}

/// The path of a raw request: the second whitespace-separated token of the
/// first line.
pub open spec fn spec_path(s: Seq<u8>) -> Seq<u8> {
    s.subrange(path_start(s), path_end(s))
}

fn find_line_end(s: &[u8], i: usize) -> (r: usize)
    requires
        i <= s@.len(),
    ensures
        r == line_end(s@, i as int),
        i <= r <= s@.len(),
    decreases s@.len() - i,
{
    if i >= s.len() {
        s.len()
    } else if s[i] == 10 {
        i
    } else {
        find_line_end(s, i + 1)
    }
}

fn is_ws_byte(b: u8) -> (r: bool)
    ensures
        r == is_ws(b),
{
    b == 9 || b == 10 || b == 11 || b == 12 || b == 13 || b == 32
}

fn find_skip_ws(s: &[u8], i: usize, e: usize) -> (r: usize)
    requires
        i <= e <= s@.len(),
    ensures
        r == skip_ws(s@, i as int, e as int),
        i <= r <= e,
    decreases e - i,
{
    if i >= e {
        e
    } else if is_ws_byte(s[i]) {
        find_skip_ws(s, i + 1, e)
    } else {
        i
    }
}

fn find_token_end(s: &[u8], i: usize, e: usize) -> (r: usize)
    requires
        i <= e <= s@.len(),
    ensures
        r == token_end(s@, i as int, e as int),
        i <= r <= e,
    decreases e - i,
{
    if i >= e {
        e
    } else if !is_ws_byte(s[i]) {
        find_token_end(s, i + 1, e)
    } else {
        i
    }
}

/// Parse the method and the path out of a raw request buffer.
pub fn parse_http_request(request: &[u8]) -> (r: (Vec<u8>, Vec<u8>))
    ensures
        r.0@ == spec_method(request@),
        r.1@ == spec_path(request@),
{
    let e = find_line_end(request, 0);
    let m0 = find_skip_ws(request, 0, e);
    let m1 = find_token_end(request, m0, e);
    let p0 = find_skip_ws(request, m1, e);
    let p1 = find_token_end(request, p0, e);
    let method = vstd::slice::slice_to_vec(vstd::slice::slice_subrange(request, m0, m1));
    let path = vstd::slice::slice_to_vec(vstd::slice::slice_subrange(request, p0, p1));
    (method, path)
}

} // verus!
