//! Properties that hold of every response the library renders: where the
//! status code and the body stand in the rendered bytes, that the
//! `Content-Length` field reads back as the body's byte length, and which
//! requests are answered 405.

use vstd::prelude::*;
use crate::bytes::ascii_bytes;
use crate::response::{spec_http_response, dec_digits, dec_value, lemma_dec_digits_value};
use crate::handlers::{
    spec_route, spec_is_cgi, spec_ok_response, spec_not_found_response,
    spec_method_not_allowed_response, spec_cgi_failed_response, Route,
};

verus! {

/// The status code of a rendered response: the three bytes after the fixed
/// `HTTP/1.1 ` prefix.
pub open spec fn status_code_of(r: Seq<u8>) -> Seq<u8> {
    r.subrange(9, 12)
}

/// The body of a rendered response, read off its tail: the last `body_len`
/// bytes.
pub open spec fn tail_of(r: Seq<u8>, body_len: int) -> Seq<u8> {
    r.subrange(r.len() - body_len, r.len() as int)
}

/// Every rendered response opens with `HTTP/1.1 `, carries its status code
/// right after, and ends with its body.
pub proof fn lemma_response_fields(code: Seq<u8>, text: Seq<u8>, body: Seq<u8>)
    requires
        code.len() == 3,
    ensures
        spec_http_response(code, text, body).subrange(0, 9) == ascii_bytes("HTTP/1.1 "@),
        status_code_of(spec_http_response(code, text, body)) == code,
        tail_of(spec_http_response(code, text, body), body.len() as int) == body,
{
    reveal_strlit("HTTP/1.1 ");
    reveal_strlit(" ");
    reveal_strlit("\r\nContent-Length: ");
    reveal_strlit("\r\nContent-Type: text/html\r\n\r\n");
    let r = spec_http_response(code, text, body);
    assert(r.subrange(0, 9) =~= ascii_bytes("HTTP/1.1 "@));
    assert(r.subrange(9, 12) =~= code);
    assert(tail_of(r, body.len() as int) =~= body);
}

/// Round trip: in the rendered response for any body — empty or not, ASCII
/// or not — the digits of the `Content-Length` field denote exactly the
/// byte length of the body.
pub proof fn lemma_content_length_round_trip(code: Seq<u8>, text: Seq<u8>, body: Seq<u8>)
    ensures
        ({
            let r = spec_http_response(code, text, body);
            let start = 9 + code.len() + 1 + text.len() + 18;
            let digits = dec_digits(body.len());
            r.subrange(start as int, start + digits.len() as int) == digits && dec_value(digits)
                == body.len()
        }),
{
    reveal_strlit("HTTP/1.1 ");
    reveal_strlit(" ");
    reveal_strlit("\r\nContent-Length: ");
    let r = spec_http_response(code, text, body);
    let start = 9 + code.len() + 1 + text.len() + 18;
    let digits = dec_digits(body.len());
    lemma_dec_digits_value(body.len());
    assert(r.subrange(start as int, start + digits.len() as int) =~= digits);
}

/// A request whose path does not lie under the CGI prefix and whose method
/// is none of GET, POST and DELETE is routed to the 405 handler, whose
/// response carries status code 405.
pub proof fn lemma_unknown_method_is_405(method: Seq<u8>, path: Seq<u8>)
    requires
        !spec_is_cgi(path),
        method != ascii_bytes("GET"@),
        method != ascii_bytes("POST"@),
        method != ascii_bytes("DELETE"@),
    ensures
        spec_route(method, path) == Route::MethodNotAllowed,
        status_code_of(spec_method_not_allowed_response()) == ascii_bytes("405"@),
{
    reveal_strlit("405");
    lemma_response_fields(
        ascii_bytes("405"@),
        ascii_bytes("Method Not Allowed"@),
        ascii_bytes("Method not allowed"@),
    );
}

/// A GET request for which no candidate file could be read is answered with
/// status code 404 and the fixed body `404 Not Found`.
pub proof fn lemma_get_miss_is_404()
    ensures
        status_code_of(spec_not_found_response()) == ascii_bytes("404"@),
        tail_of(spec_not_found_response(), ascii_bytes("404 Not Found"@).len() as int)
            == ascii_bytes("404 Not Found"@),
{
    reveal_strlit("404");
    lemma_response_fields(
        ascii_bytes("404"@),
        ascii_bytes("Not Found"@),
        ascii_bytes("404 Not Found"@),
    );
}

/// A GET request whose resolution found readable contents is answered with
/// status code 200 and those contents, byte for byte, as the body.
pub proof fn lemma_get_hit_serves_contents(contents: Seq<u8>)
    ensures
        status_code_of(spec_ok_response(contents)) == ascii_bytes("200"@),
        tail_of(spec_ok_response(contents), contents.len() as int) == contents,
{
    reveal_strlit("200");
    lemma_response_fields(ascii_bytes("200"@), ascii_bytes("OK"@), contents);
}

/// Every POST request is acknowledged with status code 200 and the fixed
/// body `POST request received`, whatever the request held.
pub proof fn lemma_post_ack_fields()
    ensures
        status_code_of(spec_ok_response(ascii_bytes("POST request received"@)))
            == ascii_bytes("200"@),
        tail_of(
            spec_ok_response(ascii_bytes("POST request received"@)),
            ascii_bytes("POST request received"@).len() as int,
        ) == ascii_bytes("POST request received"@),
{
    reveal_strlit("200");
    lemma_response_fields(
        ascii_bytes("200"@),
        ascii_bytes("OK"@),
        ascii_bytes("POST request received"@),
    );
}

/// Every DELETE request is acknowledged with status code 200 and a body
/// that names exactly the requested path; nothing is deleted.
pub proof fn lemma_delete_ack_fields(path: Seq<u8>)
    ensures
        status_code_of(spec_ok_response(ascii_bytes("Deleted: "@) + path))
            == ascii_bytes("200"@),
        tail_of(
            spec_ok_response(ascii_bytes("Deleted: "@) + path),
            (ascii_bytes("Deleted: "@) + path).len() as int,
        ) == ascii_bytes("Deleted: "@) + path,
{
    reveal_strlit("200");
    lemma_response_fields(
        ascii_bytes("200"@),
        ascii_bytes("OK"@),
        ascii_bytes("Deleted: "@) + path,
    );
}

/// A CGI script that exits successfully is answered with status code 200
/// and its captured standard output, byte for byte, as the body; one that
/// exits otherwise is answered with status code 500 and the fixed body
/// `CGI script failed`.
pub proof fn lemma_cgi_fields(stdout: Seq<u8>)
    ensures
        status_code_of(spec_ok_response(stdout)) == ascii_bytes("200"@),
        tail_of(spec_ok_response(stdout), stdout.len() as int) == stdout,
        status_code_of(spec_cgi_failed_response()) == ascii_bytes("500"@),
        tail_of(spec_cgi_failed_response(), ascii_bytes("CGI script failed"@).len() as int)
            == ascii_bytes("CGI script failed"@),
{
    reveal_strlit("200");
    reveal_strlit("500");
    lemma_response_fields(ascii_bytes("200"@), ascii_bytes("OK"@), stdout);
    lemma_response_fields(
        ascii_bytes("500"@),
        ascii_bytes("Internal Server Error"@),
        ascii_bytes("CGI script failed"@),
    );
}

} // verus!
