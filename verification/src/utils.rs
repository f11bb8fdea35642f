//! Messages of the foreign library, and the text that stands in them.

use vstd::prelude::*;
use vstd::string::StringSliceAdditionalSpecFns;
use vstd::utf8::{decode_utf8, valid_utf8};

use crate::Disposal;

verus! {

/// What `String::from_utf8_lossy` makes of a sequence of bytes.
pub uninterp spec fn lossy_utf8(bytes: Seq<u8>) -> Seq<char>;

/// Calls `String::from_utf8_lossy` and copies what it returns into a `String`.
///
/// Not proved: the text is the lossy decoding of the bytes, and where the
/// bytes are valid UTF-8 it is their decoding, as std documents.
#[verifier::external_body]
pub(crate) fn decode_lossy(bytes: &[u8]) -> (text: String)
    ensures
        text@ == lossy_utf8(bytes@),
        valid_utf8(bytes@) ==> text@ == decode_utf8(bytes@),
{
    String::from_utf8_lossy(bytes).into_owned()
}

/// The index of the first NUL byte, or the length where there is none.
pub open spec fn nul_position(bytes: Seq<u8>) -> int
    decreases bytes.len(),
{
    if bytes.len() == 0 || bytes[0] == 0 {
        0
    } else {
        1 + nul_position(bytes.skip(1))
    }
}

/// The bytes before the first NUL: what a C string holds.
pub open spec fn c_str_content(bytes: Seq<u8>) -> Seq<u8> {
    bytes.take(nul_position(bytes))
}

/// `nul_position` lies within the bytes, no byte before it is NUL, and the
/// byte at it is NUL where there is one.
pub proof fn lemma_nul_position(bytes: Seq<u8>)
    ensures
        0 <= nul_position(bytes) <= bytes.len(),
        forall|i: int| 0 <= i < nul_position(bytes) ==> bytes[i] != 0,
        nul_position(bytes) < bytes.len() ==> bytes[nul_position(bytes)] == 0,
    decreases bytes.len(),
{
    if bytes.len() == 0 || bytes[0] == 0 {
    } else {
        let rest = bytes.skip(1);
        lemma_nul_position(rest);
        assert forall|i: int| 0 <= i < nul_position(bytes) implies bytes[i] != 0 by {
            if i > 0 {
                assert(rest[i - 1] == bytes[i]);
            }
        }
        if nul_position(bytes) < bytes.len() {
            assert(rest[nul_position(rest)] == bytes[nul_position(bytes)]);
        }
    }
}

/// A position with no NUL before it, that is the end of the bytes or holds
/// NUL, is `nul_position`.
pub proof fn lemma_nul_position_is(bytes: Seq<u8>, n: int)
    requires
        0 <= n <= bytes.len(),
        forall|i: int| 0 <= i < n ==> bytes[i] != 0,
        n < bytes.len() ==> bytes[n] == 0,
    ensures
        nul_position(bytes) == n,
{
    lemma_nul_position(bytes);
    let p = nul_position(bytes);
    if p < n {
        assert(bytes[p] == 0);
    } else if n < p {
        assert(bytes[n] == 0);
    }
}

/// The length of the C string that `bytes` starts with.
pub fn c_str_len(bytes: &[u8]) -> (n: usize)
    ensures
        n == nul_position(bytes@),
{
    let mut i: usize = 0;
    while i < bytes.len() && bytes[i] != 0
        invariant
            i <= bytes.len(),
            forall|k: int| 0 <= k < i ==> bytes@[k] != 0,
        decreases bytes.len() - i,
    {
        i += 1;
    }
    proof {
        lemma_nul_position_is(bytes@, i as int);
    }
    i
}

/// The bytes that stand for `text` in a call of the foreign library: its
/// UTF-8 bytes with a closing NUL. There are none where the text itself holds
/// a NUL byte, since the foreign library would read it as the end.
pub open spec fn c_string_of(text: Seq<u8>) -> Option<Seq<u8>> {
    if text.contains(0u8) {
        None
    } else {
        Some(text.push(0u8))
    }
}

/// Encodes `text` as a NUL-terminated string for the foreign library.
pub fn c_string(text: &str) -> (r: Option<Vec<u8>>)
    ensures
        match c_string_of(text.spec_bytes()) {
            Some(encoded) => r matches Some(v) && v@ == encoded,
            None => r is None,
        },
{
    let bytes = text.as_bytes();
    let mut out: Vec<u8> = Vec::new();
    let mut i: usize = 0;
    while i < bytes.len()
        invariant
            i <= bytes.len(),
            bytes@ == text.spec_bytes(),
            out@ == bytes@.take(i as int),
            forall|k: int| 0 <= k < i ==> bytes@[k] != 0,
        decreases bytes.len() - i,
    {
        let b: u8 = bytes[i];
        if b == 0 {
            assert(text.spec_bytes()[i as int] == 0u8);
            return None;
        }
        out.push(b);
        assert(bytes@.take(i + 1) =~= bytes@.take(i as int).push(b));
        i += 1;
    }
    assert(bytes@.take(i as int) =~= bytes@);
    assert(!text.spec_bytes().contains(0u8));
    out.push(0);
    Some(out)
}

/// What is sent as a C string is read back as it was: the content of the
/// encoding of a text is the text.
pub proof fn lemma_c_string_round_trip(text: Seq<u8>)
    requires
        c_string_of(text) is Some,
    ensures
        c_str_content(c_string_of(text).unwrap()) == text,
{
    let encoded = text.push(0u8);
    assert forall|i: int| 0 <= i < text.len() implies encoded[i] != 0 by {
        assert(encoded[i] == text[i]);
        assert(text.contains(text[i]));
    }
    lemma_nul_position_is(encoded, text.len() as int);
    assert(encoded.take(text.len() as int) =~= text);
}

/// A length as a foreign call takes it that counts in 32 bits: the low 32
/// bits of `len`.
pub fn c_uint_len(len: usize) -> (r: u32)
    ensures
        r == len as u32,
        len <= u32::MAX ==> r == len,
{
    #[verifier::truncate]
    (len as u32)
}

/// A message that the foreign library allocated: a NUL-terminated string
/// behind a handle, to be released by the foreign library's own disposal call.
#[derive(Debug)]
pub struct Message {
    pub ptr: usize,
}

impl Message {
    /// Takes the handle as it is; a null handle gives a message that is not valid.
    pub fn from(ptr: usize) -> (r: Self)
        ensures
            r.ptr == ptr,
            r.wf() <==> ptr != crate::NULL_HANDLE,
    {
        Message { ptr: ptr }
    }

    /// Whether the message stands for a string of the foreign library.
    pub open spec fn wf(&self) -> bool {
        self.ptr != crate::NULL_HANDLE
    }

    /// Gives the message up: what is left of it is the one call that
    /// releases its string, which the foreign library allocated.
    pub fn release(self) -> (d: Disposal)
        ensures
            d == Disposal::Message(self.ptr),
    {
        Disposal::Message(self.ptr)
    }

    /// The text of the message, given the bytes that stand at its handle:
    /// the bytes before the first NUL, decoded, with each invalid sequence
    /// replaced.
    pub fn into_owned(&self, content: &[u8]) -> (text: String)
        ensures
            text@ == lossy_utf8(c_str_content(content@)),
            valid_utf8(c_str_content(content@)) ==> text@ == decode_utf8(c_str_content(content@)),
    {
        let n = c_str_len(content);
        proof {
            lemma_nul_position(content@);
        }
        let head = vstd::slice::slice_subrange(content, 0, n);
        assert(head@ =~= c_str_content(content@));
        decode_lossy(head)
    }
}

} // verus!
