//! Turning caller text into terminator-delimited native text.

use vstd::prelude::*;
use vstd::string::StringSliceAdditionalSpecFns;

verus! {

/// Whether the bytes hold a terminator (zero) byte anywhere.
pub open spec fn has_nul(b: Seq<u8>) -> bool {
    exists|i: int| 0 <= i < b.len() && b[i] == 0
}

/// `p` is the index of the first terminator byte in `b`.
pub open spec fn is_first_nul(b: Seq<u8>, p: int) -> bool {
    &&& 0 <= p < b.len()
    &&& b[p] == 0
    &&& forall|j: int| 0 <= j < p ==> b[j] != 0
}

/// The native form of a payload: its bytes followed by one terminator.
pub open spec fn native_form(b: Seq<u8>) -> Seq<u8> {
    b.push(0)
}

/// A terminator-delimited byte sequence that can be handed to the engine:
/// the payload holds no zero byte, and exactly one zero byte ends it.
pub struct NativeText {
    bytes: Vec<u8>,
}

impl View for NativeText {
    type V = Seq<u8>;

    closed spec fn view(&self) -> Seq<u8> {
        self.bytes@
    }
}

impl NativeText {
    /// The payload of well-formed native text, without its terminator.
    pub open spec fn payload(&self) -> Seq<u8> {
        self@.drop_last()
    }

    pub open spec fn wf(&self) -> bool {
        &&& self@.len() > 0
        &&& self@.last() == 0
        &&& !has_nul(self.payload())
    }

    /// Converts `text` into native form. Text that holds a terminator byte is
    /// rejected, never truncated: the error is the position of the first one.
    pub fn new(text: &str) -> (r: Result<NativeText, usize>)
        ensures
            r is Ok <==> !has_nul(text.spec_bytes()),
            r matches Ok(n) ==> n.wf() && n@ == native_form(text.spec_bytes()),
            r matches Err(p) ==> is_first_nul(text.spec_bytes(), p as int),
    {
        let src = text.as_bytes();
        let mut bytes: Vec<u8> = Vec::new();
        let mut i: usize = 0;
        while i < src.len()
            invariant
                src@ == text.spec_bytes(),
                0 <= i <= src@.len(),
                bytes@ == src@.subrange(0, i as int),
                forall|j: int| 0 <= j < i ==> src@[j] != 0,
            decreases src@.len() - i,
        {
            if src[i] == 0 {
                return Err(i);
            }
            bytes.push(src[i]);
            i = i + 1;
        }
        assert(bytes@ =~= src@);
        bytes.push(0);
        let n = NativeText { bytes };
        assert(n.payload() =~= src@);
        Ok(n)
    }

    /// The bytes to pass across the native boundary, terminator included.
    pub fn as_bytes(&self) -> (r: &[u8])
        ensures
            r@ == self@,
    {
        self.bytes.as_slice()
    }
}

} // verus!
