//! Fixed-capacity output regions the engine writes into, and their decoding.
//!
//! A region's capacity is its length, and the engine is told that length.
//! Output that does not fit is the engine's to cut short; the facade never
//! reads a region past its end or past that capacity, and a region with no
//! terminator decodes whole.

use vstd::prelude::*;
use vstd::utf8::*;
use crate::marshal::{has_nul, is_first_nul, native_form};

verus! {

/// Capacity, in bytes, of each output region handed to the engine.
pub const OUTPUT_BUFFER_SIZE: usize = 1048576;

/// A name for what lossy UTF-8 decoding makes of ill-formed bytes.
pub uninterp spec fn lossy_text(b: Seq<u8>) -> Seq<char>;

/// Text of a byte sequence under lossy decoding: well-formed UTF-8 decodes
/// as it is; anything else goes by the replacement rules of the decoder.
pub open spec fn lossy_decoded(b: Seq<u8>) -> Seq<char> {
    if valid_utf8(b) {
        decode_utf8(b)
    } else {
        lossy_text(b)
    }
}

/// Where the text in a region ends: at its first terminator byte, or at the
/// end of the region when it holds none.
pub open spec fn text_end(b: Seq<u8>) -> int {
    if exists|p: int| is_first_nul(b, p) {
        choose|p: int| is_first_nul(b, p)
    } else {
        b.len() as int
    }
}

/// The text an output region holds.
pub open spec fn buffer_text(b: Seq<u8>) -> Seq<char> {
    lossy_decoded(b.subrange(0, text_end(b)))
}

/// Relies on `String::from_utf8_lossy`: well-formed UTF-8 comes back
/// unchanged, ill-formed sequences are replaced and never fail.
#[verifier::external_body]
fn decode_lossy(b: &[u8]) -> (r: String)
    ensures
        valid_utf8(b@) ==> r@ == decode_utf8(b@),
        !valid_utf8(b@) ==> r@ == lossy_text(b@),
{
    String::from_utf8_lossy(b).into_owned()
}

/// A zeroed output region of the documented capacity.
pub fn new_output_buffer() -> (r: Vec<u8>)
    ensures
        r@.len() == OUTPUT_BUFFER_SIZE,
        forall|i: int| 0 <= i < r@.len() ==> r@[i] == 0,
{
    let mut r: Vec<u8> = Vec::new();
    let mut i: usize = 0;
    while i < OUTPUT_BUFFER_SIZE
        invariant
            i <= OUTPUT_BUFFER_SIZE,
            r@.len() == i,
            forall|j: int| 0 <= j < i ==> r@[j] == 0,
        decreases OUTPUT_BUFFER_SIZE - i,
    {
        r.push(0);
        i = i + 1;
    }
    r
}

/// Position of the first terminator byte, or the length when there is none.
pub fn find_text_end(buf: &[u8]) -> (r: usize)
    ensures
        r == text_end(buf@),
{
    let mut i: usize = 0;
    while i < buf.len()
        invariant
            0 <= i <= buf@.len(),
            forall|j: int| 0 <= j < i ==> buf@[j] != 0,
        decreases buf@.len() - i,
    {
        if buf[i] == 0 {
            assert(is_first_nul(buf@, i as int));
            return i;
        }
        i = i + 1;
    }
    assert(!exists|p: int| is_first_nul(buf@, p));
    i
}

/// Decodes the text of an output region: the bytes before the first
/// terminator (or all of them), decoded lossily.
pub fn buffer_to_string(buf: &[u8]) -> (r: String)
    ensures
        r@ == buffer_text(buf@),
{
    let end = find_text_end(buf);
    decode_lossy(&buf[0..end])
}

/// Text without a terminator byte, marshalled and echoed into an output
/// region with room for it, decodes to exactly the original text.
pub proof fn lemma_marshal_decode_round_trip(text: Seq<char>, buf: Seq<u8>)
    requires
        !has_nul(encode_utf8(text)),
        native_form(encode_utf8(text)).len() <= buf.len(),
        buf.subrange(0, native_form(encode_utf8(text)).len() as int) == native_form(
            encode_utf8(text),
        ),
    ensures
        buffer_text(buf) == text,
{
    let b = encode_utf8(text);
    let n = b.len() as int;
    assert forall|j: int| 0 <= j < n implies buf[j] != 0 by {
        assert(buf.subrange(0, n + 1)[j] == b[j]);
    }
    assert(buf.subrange(0, n + 1)[n] == 0);
    assert(is_first_nul(buf, n));
    assert(text_end(buf) == n);
    assert(buf.subrange(0, n) =~= b);
    encode_utf8_valid_utf8(text);
    encode_utf8_decode_utf8(text);
}

} // verus!
