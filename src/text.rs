//! Text helpers: comparing strings, writing numbers, and reading script
//! files as text.

use vstd::prelude::*;
use vstd::string::{StrSliceExecFns, StringExecFns, StringSliceAdditionalSpecFns};
use encoding::all::ISO_8859_1;
use encoding::{DecoderTrap, Encoding};
use vstd::utf8::*;

verus! {

broadcast use vstd::string::group_string_axioms;

/// Compares two strings character by character.
pub fn same_text(a: &str, b: &str) -> (r: bool)
    ensures
        r == (a@ == b@),
{
    let x = a.as_bytes();
    let y = b.as_bytes();
    proof {
        encode_utf8_decode_utf8(a@);
        encode_utf8_decode_utf8(b@);
    }
    if x.len() != y.len() {
        return false;
    }
    let mut i: usize = 0;
    while i < x.len()
        invariant
            x@ == a.spec_bytes(),
            y@ == b.spec_bytes(),
            x@.len() == y@.len(),
            0 <= i <= x@.len(),
            forall|j: int| 0 <= j < i ==> x@[j] == y@[j],
        decreases x@.len() - i,
    {
        if x[i] != y[i] {
            return false;
        }
        i = i + 1;
    }
    assert(x@ =~= y@);
    true
}


/// Whether `s` begins with the characters of `p`.
pub fn starts_with_text(s: &str, p: &str) -> (r: bool)
    ensures
        r == (p@.len() <= s@.len() && s@.subrange(0, p@.len() as int) == p@),
{
    let n = p.unicode_len();
    let m = s.unicode_len();
    if n > m {
        return false;
    }
    let mut i: usize = 0;
    while i < n
        invariant
            n == p@.len(),
            m == s@.len(),
            n <= m,
            0 <= i <= n,
            forall|j: int| 0 <= j < i ==> s@[j] == p@[j],
        decreases n - i,
    {
        if s.get_char(i) != p.get_char(i) {
            assert(s@.subrange(0, n as int)[i as int] != p@[i as int]);
            return false;
        }
        i = i + 1;
    }
    assert(s@.subrange(0, n as int) =~= p@);
    true
}

/// The decimal digits of `n`, most significant first.
pub open spec fn decimal_text(n: nat) -> Seq<char>
    decreases n,
{
    if n < 10 {
        "0123456789"@.subrange(n as int, n + 1int)
    } else {
        decimal_text(n / 10) + "0123456789"@.subrange((n % 10) as int, (n % 10) + 1int)
    }
}

/// Writes `n` in decimal.
pub fn decimal(n: usize) -> (r: String)
    ensures
        r@ == decimal_text(n as nat),
    decreases n,
{
    let digits = "0123456789";
    proof {
        reveal_strlit("0123456789");
    }
    if n < 10 {
        String::from_str(digits.substring_char(n, n + 1))
    } else {
        let d = n % 10;
        decimal(n / 10).concat(digits.substring_char(d, d + 1))
    }
}

/// The characters that ISO-8859-1 gives each byte: the code point equal to it.
pub open spec fn latin1_text(b: Seq<u8>) -> Seq<char> {
    Seq::new(b.len(), |i: int| b[i] as char)
}

/// Relies on `String::from_utf8`: it succeeds exactly on well-formed UTF-8,
/// with the decoded characters.
#[verifier::external_body]
fn utf8_string(b: &[u8]) -> (r: Option<String>)
    ensures
        r is Some <==> valid_utf8(b@),
        r matches Some(s) ==> s@ == decode_utf8(b@),
{
    String::from_utf8(b.to_vec()).ok()
}

/// Relies on encoding's `ISO_8859_1.decode` with the strict trap: every
/// byte maps to the code point of the same value, so it never fails.
#[verifier::external_body]
fn latin1_string(b: &[u8]) -> (r: Result<String, String>)
    ensures
        r is Ok,
        r is Ok ==> r->Ok_0@ == latin1_text(b@),
{
    ISO_8859_1.decode(b, DecoderTrap::Strict).map_err(|e| e.into_owned())
}

/// Reads script bytes as text: UTF-8 when they are well formed, and
/// ISO-8859-1 otherwise.
pub fn script_text(b: &[u8]) -> (r: String)
    ensures
        valid_utf8(b@) ==> r@ == decode_utf8(b@),
        !valid_utf8(b@) ==> r@ == latin1_text(b@),
{
    match utf8_string(b) {
        Some(s) => s,
        None => match latin1_string(b) {
            Ok(s) => s,
            Err(e) => e,
        },
    }
}

} // verus!
