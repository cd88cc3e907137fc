//! Header names and values: which are well formed, how a value is put into
//! its normal form, and which headers a guarded header list passes over.

use vstd::prelude::*;
use vstd::utf8::is_ascii_chars;
use crate::byte_string::{ascii, ascii_bytes, bytes_eq};
use crate::header_map::{
    is_storable_name, is_storable_value, is_token, is_token_byte, is_value_byte, MAX_NAME_LEN,
};

verus! {

/// HTTP whitespace: tab, line feed, carriage return, space.
pub open spec fn is_http_whitespace(b: u8) -> bool {
    b == 0x09 || b == 0x0a || b == 0x0d || b == 0x20
}

/// `s` without the HTTP whitespace in front of it.
pub open spec fn trim_start(s: Seq<u8>) -> Seq<u8>
    decreases s.len(),
{
    if s.len() > 0 && is_http_whitespace(s[0]) {
        trim_start(s.drop_first())
    } else {
        s
    }
}

/// `s` without the HTTP whitespace behind it.
pub open spec fn trim_end(s: Seq<u8>) -> Seq<u8>
    decreases s.len(),
{
    if s.len() > 0 && is_http_whitespace(s.last()) {
        trim_end(s.drop_last())
    } else {
        s
    }
}

/// The normal form of a header value: without HTTP whitespace at either end.
pub open spec fn trim(s: Seq<u8>) -> Seq<u8> {
    trim_end(trim_start(s))
}

/// Whether a value is in normal form already.
pub open spec fn is_trimmed(s: Seq<u8>) -> bool {
    s.len() > 0 ==> !is_http_whitespace(s[0]) && !is_http_whitespace(s.last())
}

/// A header value: in normal form, and free of NUL, line feed and carriage
/// return.
pub open spec fn is_header_value(s: Seq<u8>) -> bool {
    &&& is_trimmed(s)
    &&& forall|i: int| 0 <= i < s.len() ==> (#[trigger] s[i]) != 0x00 && s[i] != 0x0a && s[i] != 0x0d
}

/// A header name: a token that is short enough to store.
pub open spec fn is_header_name(s: Seq<u8>) -> bool {
    is_storable_name(s)
}

pub proof fn lemma_trim_start(s: Seq<u8>)
    ensures
        trim_start(s).len() <= s.len(),
        trim_start(s).len() > 0 ==> !is_http_whitespace(trim_start(s)[0]),
        trim_start(s) == s.subrange(s.len() - trim_start(s).len(), s.len() as int),
        (s.len() > 0 ==> !is_http_whitespace(s[0])) ==> trim_start(s) == s,
    decreases s.len(),
{
    if s.len() > 0 && is_http_whitespace(s[0]) {
        lemma_trim_start(s.drop_first());
        let t = s.drop_first();
        assert(t.subrange(t.len() - trim_start(t).len(), t.len() as int) =~= s.subrange(
            s.len() - trim_start(s).len(),
            s.len() as int,
        ));
    } else {
        assert(s.subrange(0, s.len() as int) =~= s);
    }
}

pub proof fn lemma_trim_end(s: Seq<u8>)
    ensures
        trim_end(s).len() <= s.len(),
        trim_end(s).len() > 0 ==> !is_http_whitespace(trim_end(s).last()),
        trim_end(s) == s.subrange(0, trim_end(s).len() as int),
        (s.len() > 0 ==> !is_http_whitespace(s.last())) ==> trim_end(s) == s,
    decreases s.len(),
{
    if s.len() > 0 && is_http_whitespace(s.last()) {
        lemma_trim_end(s.drop_last());
        let t = s.drop_last();
        assert(t.subrange(0, trim_end(t).len() as int) =~= s.subrange(
            0,
            trim_end(s).len() as int,
        ));
    } else {
        assert(s.subrange(0, s.len() as int) =~= s);
    }
}

/// The normal form is in normal form, and a value in normal form is its own
/// normal form.
pub proof fn lemma_trim(s: Seq<u8>)
    ensures
        is_trimmed(trim(s)),
        trim(s).len() <= s.len(),
        is_trimmed(s) ==> trim(s) == s,
        forall|i: int| 0 <= i < trim(s).len() ==> exists|j: int| 0 <= j < s.len() && s[j] == #[trigger] trim(s)[i],
{
    lemma_trim_start(s);
    lemma_trim_end(trim_start(s));
    let a = trim_start(s);
    let t = trim(s);
    if t.len() > 0 {
        assert(t[0] == a[0]);
    }
    assert forall|i: int| 0 <= i < t.len() implies exists|j: int| 0 <= j < s.len() && s[j] == #[trigger] t[i] by {
        let j = i + s.len() - a.len();
        assert(t[i] == a[i]);
        assert(a[i] == s[j]);
    }
}

pub fn is_http_whitespace_byte(b: u8) -> (r: bool)
    ensures
        r == is_http_whitespace(b),
{
    b == 0x09 || b == 0x0a || b == 0x0d || b == 0x20
}

/// The bytes from `start` up to `end`.
pub fn slice_to_vec(bytes: &[u8], start: usize, end: usize) -> (r: Vec<u8>)
    requires
        start <= end <= bytes.len(),
    ensures
        r@ == bytes@.subrange(start as int, end as int),
{
    let mut out: Vec<u8> = Vec::new();
    let mut i: usize = start;
    while i < end
        invariant
            start <= i <= end <= bytes.len(),
            out@ == bytes@.subrange(start as int, i as int),
        decreases end - i,
    {
        out.push(bytes[i]);
        i += 1;
        assert(out@ =~= bytes@.subrange(start as int, i as int));
    }
    out
}

/// Puts a header value into normal form.
pub fn trim_http_whitespace(value: &[u8]) -> (r: Vec<u8>)
    ensures
        r@ == trim(value@),
{
    let n = value.len();
    let mut start: usize = 0;
    assert(value@.subrange(0, n as int) =~= value@);
    while start < n && is_http_whitespace_byte(value[start])
        invariant
            start <= n,
            n == value.len(),
            trim_start(value@) == trim_start(value@.subrange(start as int, n as int)),
        decreases n - start,
    {
        proof {
            assert(value@.subrange(start as int, n as int).drop_first() =~= value@.subrange(
                start + 1,
                n as int,
            ));
        }
        start += 1;
    }
    let mut end: usize = n;
    while end > start && is_http_whitespace_byte(value[end - 1])
        invariant
            start <= end <= n,
            n == value.len(),
            trim_start(value@) == value@.subrange(start as int, n as int),
            trim_end(value@.subrange(start as int, n as int)) == trim_end(
                value@.subrange(start as int, end as int),
            ),
        decreases end,
    {
        proof {
            assert(value@.subrange(start as int, end as int).drop_last() =~= value@.subrange(
                start as int,
                end - 1,
            ));
        }
        end -= 1;
    }
    slice_to_vec(value, start, end)
}

pub fn is_token_u8(b: u8) -> (r: bool)
    ensures
        r == is_token_byte(b),
{
    (0x30 <= b && b <= 0x39) || (0x41 <= b && b <= 0x5a) || (0x61 <= b && b <= 0x7a) || b == 0x21
        || b == 0x23 || b == 0x24 || b == 0x25 || b == 0x26 || b == 0x27 || b == 0x2a || b == 0x2b
        || b == 0x2d || b == 0x2e || b == 0x5e || b == 0x5f || b == 0x60 || b == 0x7c || b == 0x7e
}

/// Whether the bytes are a token: not empty, and token bytes throughout.
pub fn is_token_bytes(bytes: &[u8]) -> (r: bool)
    ensures
        r == is_token(bytes@),
{
    if bytes.len() == 0 {
        return false;
    }
    let mut i: usize = 0;
    while i < bytes.len()
        invariant
            i <= bytes.len(),
            forall|k: int| 0 <= k < i ==> is_token_byte(#[trigger] bytes@[k]),
        decreases bytes.len() - i,
    {
        if !is_token_u8(bytes[i]) {
            return false;
        }
        i += 1;
    }
    true
}

/// Whether the bytes are a header name.
pub fn is_field_name(name: &[u8]) -> (r: bool)
    ensures
        r == is_header_name(name@),
{
    name.len() <= MAX_NAME_LEN && is_token_bytes(name)
}

/// Whether the bytes, already in normal form, are a header value.
pub fn is_field_value(value: &[u8]) -> (r: bool)
    ensures
        r == is_header_value(value@),
{
    let n = value.len();
    if n > 0 && (is_http_whitespace_byte(value[0]) || is_http_whitespace_byte(value[n - 1])) {
        return false;
    }
    let mut i: usize = 0;
    while i < n
        invariant
            i <= n,
            n == value.len(),
            forall|k: int|
                0 <= k < i ==> (#[trigger] value@[k]) != 0x00 && value@[k] != 0x0a && value@[k]
                    != 0x0d,
        decreases n - i,
    {
        if value[i] == 0x00 || value[i] == 0x0a || value[i] == 0x0d {
            return false;
        }
        i += 1;
    }
    true
}

/// Whether the header map takes the value.
pub fn is_storable(value: &[u8]) -> (r: bool)
    ensures
        r == is_storable_value(value@),
{
    let mut i: usize = 0;
    while i < value.len()
        invariant
            i <= value.len(),
            forall|k: int| 0 <= k < i ==> is_value_byte(#[trigger] value@[k]),
        decreases value.len() - i,
    {
        let b = value[i];
        if !((b >= 32 && b != 127) || b == 9) {
            return false;
        }
        i += 1;
    }
    true
}

/// Whether `name` is spelt `text`.
pub fn name_is(name: &[u8], text: &str) -> (r: bool)
    requires
        is_ascii_chars(text@),
    ensures
        r == (name@ == ascii(text@)),
{
    bytes_eq(name, ascii_bytes(text))
}

/// Whether `name` begins with `text`.
pub fn name_starts_with(name: &[u8], text: &str) -> (r: bool)
    requires
        is_ascii_chars(text@),
    ensures
        r == ascii(text@).is_prefix_of(name@),
{
    let prefix = ascii_bytes(text);
    if prefix.len() > name.len() {
        return false;
    }
    let mut i: usize = 0;
    while i < prefix.len()
        invariant
            i <= prefix.len() <= name.len(),
            prefix@ == ascii(text@),
            forall|k: int| 0 <= k < i ==> name@[k] == prefix@[k],
        decreases prefix.len() - i,
    {
        if name[i] != prefix[i] {
            assert(name@.subrange(0, prefix@.len() as int)[i as int] != prefix@[i as int]);
            return false;
        }
        i += 1;
    }
    assert(name@.subrange(0, prefix@.len() as int) =~= prefix@);
    true
}

} // verus!
