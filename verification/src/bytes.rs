//! Small byte-string utilities shared by the parser, the router and the
//! response formatter: turning ASCII literals into byte vectors, equality
//! and prefix tests on byte strings.

use vstd::prelude::*;
use vstd::string::StringSliceAdditionalSpecFns;

verus! {

/// The bytes of an ASCII character sequence, one byte per character.
pub open spec fn ascii_bytes(s: Seq<char>) -> Seq<u8> {
    Seq::new(s.len(), |i: int| s[i] as u8)
}

/// Byte vector of an ASCII string slice.
pub fn str_bytes(s: &str) -> (r: Vec<u8>)
    requires
        s.is_ascii(),
    ensures
        r@ == ascii_bytes(s@),
{
    proof {
        vstd::string::is_ascii_spec_bytes(s);
        assert(s.spec_bytes() =~= ascii_bytes(s@));
    }
    vstd::slice::slice_to_vec(s.as_bytes())
}

/// Byte-string equality.
pub fn bytes_eq(a: &[u8], b: &[u8]) -> (r: bool)
    ensures
        r == (a@ == b@),
{
    if a.len() != b.len() {
        return false;
    }
    let n: usize = a.len();
    let mut i: usize = 0;
    while i < n
        invariant
            n == a@.len() == b@.len(),
            0 <= i <= n,
            forall|k: int| 0 <= k < i ==> a@[k] == b@[k],
        decreases n - i,
    {
        if a[i] != b[i] {
            return false;
        }
        i = i + 1;
    }
    proof {
        assert(a@ =~= b@);
    }
    true
}

/// Does `a` start with `prefix`?
pub fn bytes_starts_with(a: &[u8], prefix: &[u8]) -> (r: bool)
    ensures
        r == (a@.len() >= prefix@.len() && a@.subrange(0, prefix@.len() as int) == prefix@),
{
    if a.len() < prefix.len() {
        return false;
    }
    let head = vstd::slice::slice_subrange(a, 0, prefix.len());
    bytes_eq(head, prefix)
}

} // verus!
