//! Routing and the per-method handlers.
//!
//! A parsed request is routed by path prefix and method; each handler
//! computes the full response bytes. The two handlers whose outcome depends
//! on the outside world — serving a static file and running a CGI script —
//! are split: this module computes the candidate file names and the script
//! path, and turns the outcome the caller obtained (file contents, process
//! exit and output) into the response.

use vstd::prelude::*;
use crate::bytes::{ascii_bytes, str_bytes, bytes_eq, bytes_starts_with};
use crate::response::{spec_http_response, format_http_response};

verus! {

/// Where a request is routed.
#[derive(PartialEq, Eq, Structural, Debug, Clone, Copy)]
pub enum Route {
    /// The path lies under the CGI prefix, whatever the method.
    Cgi,
    /// A GET request: resolve a static file.
    Get,
    /// A POST request: acknowledge with a fixed body.
    Post,
    /// A DELETE request: acknowledge, naming the path.
    Delete,
    /// Any other method: method not allowed.
    MethodNotAllowed,
}

/// The fixed CGI path prefix.
pub open spec fn cgi_prefix() -> Seq<u8> {
    ascii_bytes("/cgi-bin/"@)
}

/// Does `path` lie under the CGI prefix?
pub open spec fn spec_is_cgi(path: Seq<u8>) -> bool {
    path.len() >= cgi_prefix().len() && path.subrange(0, cgi_prefix().len() as int)
        == cgi_prefix()
}

/// The routing table: CGI prefix first, then GET, POST, DELETE, and method
/// not allowed for everything else.
pub open spec fn spec_route(method: Seq<u8>, path: Seq<u8>) -> Route {
    if spec_is_cgi(path) {
        Route::Cgi
    } else if method == ascii_bytes("GET"@) {
        Route::Get
    } else if method == ascii_bytes("POST"@) {
        Route::Post
    } else if method == ascii_bytes("DELETE"@) {
        Route::Delete
    } else {
        Route::MethodNotAllowed
    }
}

/// Route a parsed request by method and path.
pub fn route(method: &[u8], path: &[u8]) -> (r: Route)
    ensures
        r == spec_route(method@, path@),
{
    proof {
        reveal_strlit("/cgi-bin/");
        reveal_strlit("GET");
        reveal_strlit("POST");
        reveal_strlit("DELETE");
    }
    let prefix = str_bytes("/cgi-bin/");
    let get = str_bytes("GET");
    let post = str_bytes("POST");
    let delete = str_bytes("DELETE");
    if bytes_starts_with(path, prefix.as_slice()) {
        Route::Cgi
    } else if bytes_eq(method, get.as_slice()) {
        Route::Get
    } else if bytes_eq(method, post.as_slice()) {
        Route::Post
    } else if bytes_eq(method, delete.as_slice()) {
        Route::Delete
    } else {
        Route::MethodNotAllowed
    }
}

/// A success response carrying `body`.
pub open spec fn spec_ok_response(body: Seq<u8>) -> Seq<u8> {
    spec_http_response(ascii_bytes("200"@), ascii_bytes("OK"@), body)
}

/// The fixed response when no static candidate resolves.
pub open spec fn spec_not_found_response() -> Seq<u8> {
    spec_http_response(
        ascii_bytes("404"@),
        ascii_bytes("Not Found"@),
        ascii_bytes("404 Not Found"@),
    )
}

/// The fixed response to a method outside the routing table.
pub open spec fn spec_method_not_allowed_response() -> Seq<u8> {
    spec_http_response(
        ascii_bytes("405"@),
        ascii_bytes("Method Not Allowed"@),
        ascii_bytes("Method not allowed"@),
    )
}

/// The fixed response when a CGI script exits with a non-success status.
pub open spec fn spec_cgi_failed_response() -> Seq<u8> {
    spec_http_response(
        ascii_bytes("500"@),
        ascii_bytes("Internal Server Error"@),
        ascii_bytes("CGI script failed"@),
    )
}

/// First position at or after `i` in `s` that does not hold a slash, or the
/// length of `s`.
pub open spec fn slash_end(s: Seq<u8>, i: int) -> int
    decreases s.len() - i,
{
    if i < 0 || i >= s.len() {
        s.len() as int
    } else if s[i] == 47 {
        slash_end(s, i + 1)
    } else {
        i
    }
}

/// `s` with every leading slash removed.
pub open spec fn trim_slashes(s: Seq<u8>) -> Seq<u8> {
    s.subrange(slash_end(s, 0), s.len() as int)
}

fn find_slash_end(s: &[u8], i: usize) -> (r: usize)
    requires
        i <= s@.len(),
    ensures
        r == slash_end(s@, i as int),
        i <= r <= s@.len(),
    decreases s@.len() - i,
{
    if i >= s.len() {
        s.len()
    } else if s[i] == 47 {
        find_slash_end(s, i + 1)
    } else {
        i
    }
}

fn with_suffix(base: &[u8], suffix: &[u8]) -> (r: Vec<u8>)
    ensures
        r@ == base@ + suffix@,
{
    let mut r = vstd::slice::slice_to_vec(base);
    r.extend_from_slice(suffix);
    r
}

/// The file names tried for a GET path, in the order they are tried: the
/// path with its leading slashes removed, then the same name with each of
/// the fixed fallback extensions.
pub fn static_candidates(path: &[u8]) -> (r: Vec<Vec<u8>>)
    ensures
        r@.len() == 5,
        r@[0]@ == trim_slashes(path@),
        r@[1]@ == trim_slashes(path@) + ascii_bytes(".html"@),
        r@[2]@ == trim_slashes(path@) + ascii_bytes(".htm"@),
        r@[3]@ == trim_slashes(path@) + ascii_bytes(".py"@),
        r@[4]@ == trim_slashes(path@) + ascii_bytes(".php"@),
{
    proof {
        reveal_strlit(".html");
        reveal_strlit(".htm");
        reveal_strlit(".py");
        reveal_strlit(".php");
    }
    let start = find_slash_end(path, 0);
    let base = vstd::slice::slice_subrange(path, start, path.len());
    let html = str_bytes(".html");
    let htm = str_bytes(".htm");
    let py = str_bytes(".py");
    let php = str_bytes(".php");
    let mut r: Vec<Vec<u8>> = Vec::new();
    r.push(vstd::slice::slice_to_vec(base));
    r.push(with_suffix(base, html.as_slice()));
    r.push(with_suffix(base, htm.as_slice()));
    r.push(with_suffix(base, py.as_slice()));
    r.push(with_suffix(base, php.as_slice()));
    r
}

/// The contents of the first read outcome that holds any, in candidate
/// order.
pub open spec fn spec_first_hit(outcomes: Seq<Option<Vec<u8>>>) -> Option<Seq<u8>>
    decreases outcomes.len(),
{
    if outcomes.len() == 0 {
        None
    } else {
        match outcomes[0] {
            Some(c) => Some(c@),
            None => spec_first_hit(outcomes.drop_first()),
        }
    }
}

/// Pick the earliest candidate that could be read: given the read outcomes
/// in the order the candidates are tried, the first one that holds contents
/// wins, and its contents are returned unchanged.
pub fn first_readable(outcomes: Vec<Option<Vec<u8>>>) -> (r: Option<Vec<u8>>)
    ensures
        r matches Some(c) ==> spec_first_hit(outcomes@) == Some(c@),
        r is None ==> spec_first_hit(outcomes@) is None,
{
    let n = outcomes.len();
    let mut i: usize = 0;
    let mut found = false;
    proof {
        assert(outcomes@.skip(0) =~= outcomes@);
    }
    while !found && i < n
        invariant
            0 <= i <= n,
            n == outcomes@.len(),
            spec_first_hit(outcomes@) == spec_first_hit(outcomes@.skip(i as int)),
            found ==> i < n && outcomes@[i as int] is Some,
        decreases n - i + (if found { 0int } else { 1int }),
    {
        if outcomes[i].is_some() {
            found = true;
        } else {
            proof {
                assert(outcomes@.skip(i as int).drop_first() =~= outcomes@.skip(i as int + 1));
            }
            i = i + 1;
        }
    }
    if found {
        let mut rest = outcomes;
        let hit = rest.remove(i);
        proof {
            assert(outcomes@.skip(i as int)[0] == outcomes@[i as int]);
        }
        hit
    } else {
        proof {
            assert(outcomes@.skip(n as int).len() == 0);
        }
        None
    }
}

/// The CGI path with every leading copy of the CGI prefix removed: the
/// script reference handed to the interpreter.
pub open spec fn strip_cgi(s: Seq<u8>) -> Seq<u8>
    decreases s.len(),
{
    if s.len() >= 9 && s.subrange(0, 9) == cgi_prefix() {
        strip_cgi(s.subrange(9, s.len() as int))
    } else {
        s
    }
}

/// The script reference for a CGI request path.
pub fn cgi_script_path(path: &[u8]) -> (r: Vec<u8>)
    ensures
        r@ == strip_cgi(path@),
    decreases path@.len(),
{
    proof {
        reveal_strlit("/cgi-bin/");
    }
    let prefix = str_bytes("/cgi-bin/");
    if path.len() >= 9 {
        let head = vstd::slice::slice_subrange(path, 0, 9);
        if bytes_eq(head, prefix.as_slice()) {
            let rest = vstd::slice::slice_subrange(path, 9, path.len());
            return cgi_script_path(rest);
        }
    }
    vstd::slice::slice_to_vec(path)
}

/// Acknowledge a POST request: the body is read but not processed.
pub fn handle_post_request(_request: &[u8]) -> (r: Vec<u8>)
    ensures
        r@ == spec_ok_response(ascii_bytes("POST request received"@)),
{
    proof {
        reveal_strlit("200");
        reveal_strlit("OK");
        reveal_strlit("POST request received");
    }
    let code = str_bytes("200");
    let text = str_bytes("OK");
    let body = str_bytes("POST request received");
    format_http_response(code.as_slice(), text.as_slice(), body.as_slice())
}

/// Acknowledge a DELETE request, naming the path; nothing is deleted.
pub fn handle_delete_request(path: &[u8]) -> (r: Vec<u8>)
    ensures
        r@ == spec_ok_response(ascii_bytes("Deleted: "@) + path@),
{
    proof {
        reveal_strlit("200");
        reveal_strlit("OK");
        reveal_strlit("Deleted: ");
    }
    let code = str_bytes("200");
    let text = str_bytes("OK");
    let mut body = str_bytes("Deleted: ");
    body.extend_from_slice(path);
    format_http_response(code.as_slice(), text.as_slice(), body.as_slice())
}

/// The response to a method outside the routing table.
pub fn method_not_allowed_response() -> (r: Vec<u8>)
    ensures
        r@ == spec_method_not_allowed_response(),
{
    proof {
        reveal_strlit("405");
        reveal_strlit("Method Not Allowed");
        reveal_strlit("Method not allowed");
    }
    let code = str_bytes("405");
    let text = str_bytes("Method Not Allowed");
    let body = str_bytes("Method not allowed");
    format_http_response(code.as_slice(), text.as_slice(), body.as_slice())
}

/// The GET response for a resolution outcome: the contents of the first
/// candidate file that could be read, or 404 when none could.
pub fn handle_get_request(contents: Option<&[u8]>) -> (r: Vec<u8>)
    ensures
        contents matches Some(c) ==> r@ == spec_ok_response(c@),
        contents is None ==> r@ == spec_not_found_response(),
{
    proof {
        reveal_strlit("200");
        reveal_strlit("OK");
        reveal_strlit("404");
        reveal_strlit("Not Found");
        reveal_strlit("404 Not Found");
    }
    match contents {
        Some(c) => {
            let code = str_bytes("200");
            let text = str_bytes("OK");
            format_http_response(code.as_slice(), text.as_slice(), c)
        },
        None => {
            let code = str_bytes("404");
            let text = str_bytes("Not Found");
            let body = str_bytes("404 Not Found");
            format_http_response(code.as_slice(), text.as_slice(), body.as_slice())
        },
    }
}

/// The CGI response for a process outcome: the captured standard output
/// when the script exited successfully, a fixed 500 body otherwise.
pub fn handle_cgi_request(exit_ok: bool, stdout: &[u8]) -> (r: Vec<u8>)
    ensures
        exit_ok ==> r@ == spec_ok_response(stdout@),
        !exit_ok ==> r@ == spec_cgi_failed_response(),
{
    proof {
        reveal_strlit("200");
        reveal_strlit("OK");
        reveal_strlit("500");
        reveal_strlit("Internal Server Error");
        reveal_strlit("CGI script failed");
    }
    if exit_ok {
        let code = str_bytes("200");
        let text = str_bytes("OK");
        format_http_response(code.as_slice(), text.as_slice(), stdout)
    } else {
        let code = str_bytes("500");
        let text = str_bytes("Internal Server Error");
        let body = str_bytes("CGI script failed");
        format_http_response(code.as_slice(), text.as_slice(), body.as_slice())
    }
}

} // verus!
