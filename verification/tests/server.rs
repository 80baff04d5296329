use localhosh::handlers::{
    cgi_script_path, first_readable, handle_cgi_request, handle_delete_request,
    handle_get_request, handle_post_request, method_not_allowed_response, route,
    static_candidates, Route,
};
use localhosh::parse::parse_http_request;
use localhosh::response::format_http_response;

#[test]
fn parse_simple_get() {
    let (method, path) = parse_http_request(b"GET /index HTTP/1.1\r\n\r\n");
    assert_eq!(method, b"GET".to_vec());
    assert_eq!(path, b"/index".to_vec());
}

#[test]
fn parse_empty_buffer() {
    let (method, path) = parse_http_request(b"");
    assert_eq!(method, b"".to_vec());
    assert_eq!(path, b"".to_vec());
}

#[test]
fn parse_blank_line() {
    let (method, path) = parse_http_request(b"\r\n");
    assert_eq!(method, b"".to_vec());
    assert_eq!(path, b"".to_vec());
}

#[test]
fn parse_only_first_line_counts() {
    let (method, path) = parse_http_request(b"GET\n/second-line");
    assert_eq!(method, b"GET".to_vec());
    assert_eq!(path, b"".to_vec());
}

#[test]
fn parse_invalid_bytes_are_token_text() {
    let (method, path) = parse_http_request(b"\xff\xfe GET /x HTTP/1.1\r\n");
    assert_eq!(method, b"\xff\xfe".to_vec());
    assert_eq!(path, b"GET".to_vec());
}

#[test]
fn parse_ignores_bytes_after_first_line() {
    let (method, path) = parse_http_request(b"GET /x HTTP/1.1\r\n\xff");
    assert_eq!(method, b"GET".to_vec());
    assert_eq!(path, b"/x".to_vec());
}

#[test]
fn parse_multibyte_path() {
    let (method, path) = parse_http_request(b"GET /caf\xc3\xa9 HTTP/1.1\r\n");
    assert_eq!(method, b"GET".to_vec());
    assert_eq!(path, b"/caf\xc3\xa9".to_vec());
}

#[test]
fn parse_four_byte_scalar_path() {
    let (method, path) = parse_http_request(b"GET /\xf0\x9f\x98\x80 HTTP/1.1\r\n");
    assert_eq!(method, b"GET".to_vec());
    assert_eq!(path, b"/\xf0\x9f\x98\x80".to_vec());
}

#[test]
fn parse_malformed_encoding_kept_in_path() {
    let (method, path) = parse_http_request(b"GET /\xc0\x80 HTTP/1.1\r\n");
    assert_eq!(method, b"GET".to_vec());
    assert_eq!(path, b"/\xc0\x80".to_vec());
}

#[test]
fn parse_truncated_scalar_kept_in_path() {
    let (method, path) = parse_http_request(b"GET /x\xc3");
    assert_eq!(method, b"GET".to_vec());
    assert_eq!(path, b"/x\xc3".to_vec());
}

#[test]
fn parse_extra_whitespace() {
    let (method, path) = parse_http_request(b"  GET   /a/b  HTTP/1.1\r\n");
    assert_eq!(method, b"GET".to_vec());
    assert_eq!(path, b"/a/b".to_vec());
}

#[test]
fn format_exact_bytes() {
    let r = format_http_response(b"200", b"OK", b"hello");
    assert_eq!(
        r,
        b"HTTP/1.1 200 OK\r\nContent-Length: 5\r\nContent-Type: text/html\r\n\r\nhello".to_vec()
    );
}

#[test]
fn format_empty_body_has_zero_length() {
    let r = format_http_response(b"200", b"OK", b"");
    assert_eq!(
        r,
        b"HTTP/1.1 200 OK\r\nContent-Length: 0\r\nContent-Type: text/html\r\n\r\n".to_vec()
    );
}

#[test]
fn format_counts_bytes_not_chars() {
    let r = format_http_response(b"200", b"OK", b"\xc3\xa9");
    assert_eq!(
        r,
        b"HTTP/1.1 200 OK\r\nContent-Length: 2\r\nContent-Type: text/html\r\n\r\n\xc3\xa9"
            .to_vec()
    );
}

#[test]
fn format_long_body_length() {
    let body = vec![b'x'; 12345];
    let r = format_http_response(b"200", b"OK", &body);
    let expected_head = b"HTTP/1.1 200 OK\r\nContent-Length: 12345\r\n";
    assert_eq!(&r[..expected_head.len()], &expected_head[..]);
}

#[test]
fn route_get() {
    assert_eq!(route(b"GET", b"/index"), Route::Get);
}

#[test]
fn route_post() {
    assert_eq!(route(b"POST", b"/anything"), Route::Post);
}

#[test]
fn route_delete() {
    assert_eq!(route(b"DELETE", b"/x"), Route::Delete);
}

#[test]
fn route_unknown_method() {
    assert_eq!(route(b"PATCH", b"/x"), Route::MethodNotAllowed);
    assert_eq!(route(b"", b""), Route::MethodNotAllowed);
}

#[test]
fn route_cgi_wins_over_method() {
    assert_eq!(route(b"POST", b"/cgi-bin/script.py"), Route::Cgi);
    assert_eq!(route(b"PUT", b"/cgi-bin/script.py"), Route::Cgi);
    assert_eq!(route(b"GET", b"/cgi-bin/script.py"), Route::Cgi);
}

#[test]
fn post_acknowledgement() {
    let r = handle_post_request(b"POST / HTTP/1.1\r\n\r\nsome body");
    assert_eq!(
        r,
        b"HTTP/1.1 200 OK\r\nContent-Length: 21\r\nContent-Type: text/html\r\n\r\nPOST request received"
            .to_vec()
    );
}

#[test]
fn delete_acknowledgement_names_path() {
    let r = handle_delete_request(b"/x");
    assert_eq!(
        r,
        b"HTTP/1.1 200 OK\r\nContent-Length: 11\r\nContent-Type: text/html\r\n\r\nDeleted: /x"
            .to_vec()
    );
}

#[test]
fn get_hit_serves_exact_contents() {
    let contents = b"<h1>index</h1>\n";
    let r = handle_get_request(Some(&contents[..]));
    assert_eq!(
        r,
        b"HTTP/1.1 200 OK\r\nContent-Length: 15\r\nContent-Type: text/html\r\n\r\n<h1>index</h1>\n"
            .to_vec()
    );
}

#[test]
fn get_miss_is_404() {
    let r = handle_get_request(None);
    assert_eq!(
        r,
        b"HTTP/1.1 404 Not Found\r\nContent-Length: 13\r\nContent-Type: text/html\r\n\r\n404 Not Found"
            .to_vec()
    );
}

#[test]
fn cgi_success_serves_stdout() {
    let r = handle_cgi_request(true, b"Hello from CGI\n");
    assert_eq!(
        r,
        b"HTTP/1.1 200 OK\r\nContent-Length: 15\r\nContent-Type: text/html\r\n\r\nHello from CGI\n"
            .to_vec()
    );
}

#[test]
fn cgi_failure_is_500() {
    let r = handle_cgi_request(false, b"ignored");
    assert_eq!(
        r,
        b"HTTP/1.1 500 Internal Server Error\r\nContent-Length: 17\r\nContent-Type: text/html\r\n\r\nCGI script failed"
            .to_vec()
    );
}

#[test]
fn first_readable_picks_earliest_hit() {
    let outcomes = vec![
        None,
        Some(b"second".to_vec()),
        None,
        Some(b"fourth".to_vec()),
        None,
    ];
    assert_eq!(first_readable(outcomes), Some(b"second".to_vec()));
}

#[test]
fn first_readable_none_when_all_miss() {
    let outcomes: Vec<Option<Vec<u8>>> = vec![None, None, None, None, None];
    assert_eq!(first_readable(outcomes), None);
    assert_eq!(first_readable(Vec::new()), None);
}

#[test]
fn first_readable_stops_at_first_of_two_hits() {
    let outcomes = vec![Some(b"a".to_vec()), Some(b"b".to_vec())];
    assert_eq!(first_readable(outcomes), Some(b"a".to_vec()));
}

#[test]
fn candidates_in_fixed_order() {
    let c = static_candidates(b"/index");
    assert_eq!(c.len(), 5);
    assert_eq!(c[0], b"index".to_vec());
    assert_eq!(c[1], b"index.html".to_vec());
    assert_eq!(c[2], b"index.htm".to_vec());
    assert_eq!(c[3], b"index.py".to_vec());
    assert_eq!(c[4], b"index.php".to_vec());
}

#[test]
fn candidates_trim_all_leading_slashes() {
    let c = static_candidates(b"//a");
    assert_eq!(c[0], b"a".to_vec());
    assert_eq!(c[1], b"a.html".to_vec());
}

#[test]
fn cgi_path_strips_prefix() {
    assert_eq!(cgi_script_path(b"/cgi-bin/test.py"), b"test.py".to_vec());
}

#[test]
fn cgi_path_strips_repeated_prefix() {
    assert_eq!(cgi_script_path(b"/cgi-bin//cgi-bin/x"), b"x".to_vec());
}

#[test]
fn scenario_get_index_with_present_file() {
    let (method, path) = parse_http_request(b"GET /index HTTP/1.1\r\n\r\n");
    assert_eq!(route(&method, &path), Route::Get);
    let candidates = static_candidates(&path);
    assert_eq!(candidates[1], b"index.html".to_vec());
    let file_contents = b"<html><body>index</body></html>";
    // `index` itself is absent; `index.html` is present and readable.
    let outcomes = vec![None, Some(file_contents.to_vec())];
    let found = first_readable(outcomes);
    let r = handle_get_request(found.as_deref());
    let head = b"HTTP/1.1 200 OK\r\n";
    assert_eq!(&r[..head.len()], &head[..]);
    assert_eq!(&r[r.len() - file_contents.len()..], &file_contents[..]);
}

#[test]
fn scenario_put_is_method_not_allowed() {
    let (method, path) = parse_http_request(b"PUT /x HTTP/1.1\r\n\r\n");
    assert_eq!(method, b"PUT".to_vec());
    assert_eq!(route(&method, &path), Route::MethodNotAllowed);
    let r = method_not_allowed_response();
    let head = b"HTTP/1.1 405 Method Not Allowed\r\n";
    assert_eq!(&r[..head.len()], &head[..]);
}
