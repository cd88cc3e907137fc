//! Byte strings as a script hands them over: arbitrary bytes, compared
//! without regard to ASCII case where header names and methods are concerned.

use vstd::prelude::*;
use vstd::utf8::{encode_utf8_decode_utf8, is_ascii_chars, valid_utf8};
use vstd::string::{is_ascii_spec_bytes, StringSliceAdditionalSpecFns};
use crate::header_map::{lower, lower_byte};

verus! {

/// A string of bytes that need not be text.
#[derive(Debug)]
pub struct ByteString(pub Vec<u8>);

impl View for ByteString {
    type V = Seq<u8>;

    open spec fn view(&self) -> Seq<u8> {
        self.0@
    }
}

/// `std::str::from_utf8`: the same bytes as text, where they are valid
/// UTF-8, and nothing where they are not.
#[verifier::external_body]
pub(crate) fn str_from_utf8(bytes: &[u8]) -> (text: Option<&str>)
    ensures
        text is Some <==> valid_utf8(bytes@),
        text matches Some(s) ==> s.spec_bytes() == bytes@,
{
    match std::str::from_utf8(bytes) {
        Ok(s) => Some(s),
        Err(_) => None,
    }
}

/// The bytes of a text of ASCII characters.
pub open spec fn ascii(text: Seq<char>) -> Seq<u8> {
    Seq::new(text.len(), |i: int| text[i] as u8)
}

/// The bytes of a text of ASCII characters.
pub fn ascii_bytes(text: &str) -> (r: &[u8])
    requires
        is_ascii_chars(text@),
    ensures
        r@ == ascii(text@),
{
    proof {
        is_ascii_spec_bytes(text);
    }
    text.as_bytes()
}

/// The small letter of an ASCII capital, and any other byte unchanged.
pub fn to_lower_byte(b: u8) -> (r: u8)
    ensures
        r == lower_byte(b),
{
    if 0x41 <= b && b <= 0x5a {
        b + 32
    } else {
        b
    }
}

/// A copy of `bytes` with every ASCII capital made small.
pub fn to_lower_bytes(bytes: &[u8]) -> (r: Vec<u8>)
    ensures
        r@ == lower(bytes@),
{
    let mut out: Vec<u8> = Vec::new();
    let mut i: usize = 0;
    while i < bytes.len()
        invariant
            i <= bytes.len(),
            out@ == lower(bytes@.subrange(0, i as int)),
        decreases bytes.len() - i,
    {
        out.push(to_lower_byte(bytes[i]));
        i += 1;
        assert(out@ =~= lower(bytes@.subrange(0, i as int)));
    }
    assert(bytes@.subrange(0, i as int) =~= bytes@);
    out
}

/// Whether two byte strings are equal.
pub fn bytes_eq(a: &[u8], b: &[u8]) -> (r: bool)
    ensures
        r == (a@ == b@),
{
    if a.len() != b.len() {
        return false;
    }
    let mut i: usize = 0;
    while i < a.len()
        invariant
            i <= a.len(),
            a.len() == b.len(),
            a@.subrange(0, i as int) == b@.subrange(0, i as int),
        decreases a.len() - i,
    {
        if a[i] != b[i] {
            return false;
        }
        i += 1;
        assert(a@.subrange(0, i as int) =~= a@.subrange(0, i - 1).push(a@[i - 1]));
        assert(b@.subrange(0, i as int) =~= b@.subrange(0, i - 1).push(b@[i - 1]));
    }
    assert(a@.subrange(0, i as int) =~= a@);
    assert(b@.subrange(0, i as int) =~= b@);
    true
}

/// Whether two texts are equal.
pub fn str_eq(a: &str, b: &str) -> (r: bool)
    ensures
        r == (a@ == b@),
{
    proof {
        encode_utf8_decode_utf8(a@);
        encode_utf8_decode_utf8(b@);
    }
    bytes_eq(a.as_bytes(), b.as_bytes())
}

/// Whether two byte strings are equal once ASCII capitals are made small.
pub fn eq_ignore_ascii_case(a: &[u8], b: &[u8]) -> (r: bool)
    ensures
        r == (lower(a@) == lower(b@)),
{
    if a.len() != b.len() {
        assert(lower(a@).len() != lower(b@).len());
        return false;
    }
    let mut i: usize = 0;
    while i < a.len()
        invariant
            i <= a.len(),
            a.len() == b.len(),
            forall|k: int| 0 <= k < i ==> lower_byte(a@[k]) == lower_byte(b@[k]),
        decreases a.len() - i,
    {
        if to_lower_byte(a[i]) != to_lower_byte(b[i]) {
            assert(lower(a@)[i as int] != lower(b@)[i as int]);
            return false;
        }
        i += 1;
    }
    assert(lower(a@) =~= lower(b@));
    true
}

impl ByteString {
    pub fn new(value: Vec<u8>) -> (r: ByteString)
        ensures
            r@ == value@,
    {
        ByteString(value)
    }

    /// The bytes.
    pub fn as_bytes(&self) -> (r: &[u8])
        ensures
            r@ == self@,
    {
        self.0.as_slice()
    }

    /// The number of bytes.
    pub fn len(&self) -> (r: usize)
        ensures
            r == self@.len(),
    {
        self.0.len()
    }

    /// The bytes as text, where they are valid UTF-8.
    pub fn as_str(&self) -> (r: Option<&str>)
        ensures
            r is Some <==> valid_utf8(self@),
            r matches Some(s) ==> s.spec_bytes() == self@,
    {
        str_from_utf8(self.0.as_slice())
    }

    /// A copy with every ASCII capital made small.
    pub fn to_lower(&self) -> (r: ByteString)
        ensures
            r@ == lower(self@),
    {
        ByteString(to_lower_bytes(self.0.as_slice()))
    }

    /// Whether `other` holds the same bytes but for the case of ASCII letters.
    pub fn eq_ignore_case(&self, other: &ByteString) -> (r: bool)
        ensures
            r == (lower(self@) == lower(other@)),
    {
        eq_ignore_ascii_case(self.0.as_slice(), other.0.as_slice())
    }

    /// A second byte string with the same bytes.
    pub fn duplicate(&self) -> (r: ByteString)
        ensures
            r@ == self@,
    {
        ByteString(to_vec(self.0.as_slice()))
    }
}

/// A vector with the bytes of `bytes`.
pub fn to_vec(bytes: &[u8]) -> (r: Vec<u8>)
    ensures
        r@ == bytes@,
{
    let mut out: Vec<u8> = Vec::new();
    let mut i: usize = 0;
    while i < bytes.len()
        invariant
            i <= bytes.len(),
            out@ == bytes@.subrange(0, i as int),
        decreases bytes.len() - i,
    {
        out.push(bytes[i]);
        i += 1;
        assert(out@ =~= bytes@.subrange(0, i as int));
    }
    assert(bytes@.subrange(0, i as int) =~= bytes@);
    out
}

} // verus!
