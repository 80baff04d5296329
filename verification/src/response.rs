//! The response formatter: renders a status line, a `Content-Length` and
//! `Content-Type` header, and the body, as one byte string.

use vstd::prelude::*;
use crate::bytes::{ascii_bytes, str_bytes};

verus! {

/// Decimal numeral of `n`, most significant digit first, no leading zeros
/// (the numeral of zero is "0").
pub open spec fn dec_digits(n: nat) -> Seq<u8>
    decreases n,
{
    if n < 10 {
        seq![(48 + n) as u8]
    } else {
        dec_digits(n / 10).push((48 + n % 10) as u8)
    }
}

/// The number a sequence of decimal digit bytes denotes.
pub open spec fn dec_value(digits: Seq<u8>) -> nat
    decreases digits.len(),
{
    if digits.len() == 0 {
        0
    } else {
        (dec_value(digits.drop_last()) * 10 + (digits.last() - 48)) as nat
    }
}

/// Reading back the decimal numeral of `n` yields `n` again; the numeral is
/// never empty and holds digit bytes only.
pub proof fn lemma_dec_digits_value(n: nat)
    ensures
        dec_value(dec_digits(n)) == n,
        dec_digits(n).len() >= 1,
        forall|i: int| 0 <= i < dec_digits(n).len() ==> 48 <= #[trigger] dec_digits(n)[i] <= 57,
    decreases n,
{
    if n < 10 {
        let d = dec_digits(n);
        assert(d =~= seq![(48 + n) as u8]);
        assert(d.drop_last() =~= Seq::<u8>::empty());
        assert(dec_value(d.drop_last()) == 0);
        assert(d.last() == (48 + n) as u8);
        assert(dec_value(d) == 0 * 10 + ((48 + n) as u8 - 48));
    } else {
        lemma_dec_digits_value(n / 10);
        let d = dec_digits(n);
        assert(d == dec_digits(n / 10).push((48 + n % 10) as u8));
        assert(d.drop_last() =~= dec_digits(n / 10));
        assert(d.last() == (48 + n % 10) as u8);
        assert(dec_value(d) == (n / 10) * 10 + n % 10);
        vstd::arithmetic::div_mod::lemma_fundamental_div_mod(n as int, 10);
    }
}

/// Append the decimal numeral of `n` to `out`.
fn push_dec(n: usize, out: &mut Vec<u8>)
    ensures
        final(out)@ == old(out)@ + dec_digits(n as nat),
    decreases n,
{
    if n < 10 {
        out.push((48 + n as u8));
    } else {
        push_dec(n / 10, out);
        out.push(48 + (n % 10) as u8);
    }
}

/// The full rendered response for a status code, a status text and a body.
pub open spec fn spec_http_response(code: Seq<u8>, text: Seq<u8>, body: Seq<u8>) -> Seq<u8> {
    ascii_bytes("HTTP/1.1 "@) + code + ascii_bytes(" "@) + text + ascii_bytes(
        "\r\nContent-Length: "@,
    ) + dec_digits(body.len()) + ascii_bytes("\r\nContent-Type: text/html\r\n\r\n"@) + body
}

/// Render `HTTP/1.1 <code> <text>\r\nContent-Length: <byte length of body>\r\n`
/// `Content-Type: text/html\r\n\r\n<body>`.
pub fn format_http_response(status_code: &[u8], status_text: &[u8], body: &[u8]) -> (r: Vec<u8>)
    ensures
        r@ == spec_http_response(status_code@, status_text@, body@),
{
    proof {
        reveal_strlit("HTTP/1.1 ");
        reveal_strlit(" ");
        reveal_strlit("\r\nContent-Length: ");
        reveal_strlit("\r\nContent-Type: text/html\r\n\r\n");
    }
    let mut r = str_bytes("HTTP/1.1 ");
    r.extend_from_slice(status_code);
    let mut sep = str_bytes(" ");
    r.append(&mut sep);
    r.extend_from_slice(status_text);
    let mut cl = str_bytes("\r\nContent-Length: ");
    r.append(&mut cl);
    push_dec(body.len(), &mut r);
    let mut ct = str_bytes("\r\nContent-Type: text/html\r\n\r\n");
    r.append(&mut ct);
    r.extend_from_slice(body);
    proof {
        assert(r@ =~= spec_http_response(status_code@, status_text@, body@));
    }
    r
}

} // verus!
