//! The guard of a header list: which headers a list under each guard passes
//! over in silence.

use vstd::prelude::*;
use crate::byte_string::{ascii, to_lower_bytes};
use crate::field::{
    name_is, name_starts_with, slice_to_vec, trim, trim_http_whitespace,
};
use crate::header_map::lower;

verus! {

/// How far a header list may be changed.
#[derive(Clone, Copy, Debug, PartialEq, Eq, Structural)]
pub enum Guard {
    /// No change is taken.
    Immutable,
    /// The list of a request: headers that only the user agent may set are
    /// passed over.
    Request,
    /// The list of a `no-cors` request: only safelisted headers are taken.
    RequestNoCors,
    /// The list of a response: the cookie-setting headers are passed over.
    Response,
    /// Every well-formed header is taken.
    Open,
}

/// Whether a request header of this name, given in small letters, is for
/// the user agent alone to set.
pub open spec fn forbidden_request_header_name(name: Seq<u8>) -> bool {
    ||| name == ascii("accept-charset"@)
    ||| name == ascii("accept-encoding"@)
    ||| name == ascii("access-control-request-headers"@)
    ||| name == ascii("access-control-request-method"@)
    ||| name == ascii("connection"@)
    ||| name == ascii("content-length"@)
    ||| name == ascii("cookie"@)
    ||| name == ascii("cookie2"@)
    ||| name == ascii("date"@)
    ||| name == ascii("dnt"@)
    ||| name == ascii("expect"@)
    ||| name == ascii("host"@)
    ||| name == ascii("keep-alive"@)
    ||| name == ascii("origin"@)
    ||| name == ascii("referer"@)
    ||| name == ascii("set-cookie"@)
    ||| name == ascii("te"@)
    ||| name == ascii("trailer"@)
    ||| name == ascii("transfer-encoding"@)
    ||| name == ascii("upgrade"@)
    ||| name == ascii("via"@)
    ||| ascii("proxy-"@).is_prefix_of(name)
    ||| ascii("sec-"@).is_prefix_of(name)
}

/// Whether a response header of this name, given in small letters, is kept
/// from scripts.
pub open spec fn forbidden_response_header_name(name: Seq<u8>) -> bool {
    name == ascii("set-cookie"@) || name == ascii("set-cookie2"@)
}

/// A byte that a safelisted `accept` or `content-type` value must not hold:
/// a control character other than tab, a delimiter, or DEL.
pub open spec fn is_cors_unsafe_byte(b: u8) -> bool {
    ||| (b < 0x20 && b != 0x09)
    ||| b == 0x22
    ||| b == 0x28
    ||| b == 0x29
    ||| b == 0x3a
    ||| b == 0x3c
    ||| b == 0x3e
    ||| b == 0x3f
    ||| b == 0x40
    ||| b == 0x5b
    ||| b == 0x5c
    ||| b == 0x5d
    ||| b == 0x7b
    ||| b == 0x7d
    ||| b == 0x7f
}

/// A byte of a safelisted language value: a letter, a digit, or one of
/// space, `*`, `,`, `-`, `.`, `;`, `=`.
pub open spec fn is_language_byte(b: u8) -> bool {
    ||| 0x30 <= b <= 0x39
    ||| 0x41 <= b <= 0x5a
    ||| 0x61 <= b <= 0x7a
    ||| b == 0x20
    ||| b == 0x2a
    ||| b == 0x2c
    ||| b == 0x2d
    ||| b == 0x2e
    ||| b == 0x3b
    ||| b == 0x3d
}

pub open spec fn has_no_cors_unsafe_byte(value: Seq<u8>) -> bool {
    forall|i: int| 0 <= i < value.len() ==> !is_cors_unsafe_byte(#[trigger] value[i])
}

pub open spec fn is_language_value(value: Seq<u8>) -> bool {
    forall|i: int| 0 <= i < value.len() ==> is_language_byte(#[trigger] value[i])
}

/// Where the first semicolon of `s` stands, or the length of `s` where it
/// has none.
pub open spec fn semicolon_index(s: Seq<u8>) -> int
    decreases s.len(),
{
    if s.len() == 0 || s[0] == 0x3b {
        0
    } else {
        1 + semicolon_index(s.drop_first())
    }
}

/// The essence of a media type: what stands before its parameters, without
/// whitespace around it and in small letters.
pub open spec fn mime_essence(value: Seq<u8>) -> Seq<u8> {
    let t = trim(value);
    lower(trim(t.subrange(0, semicolon_index(t))))
}

/// Whether the media type is one that a form can send.
pub open spec fn is_safelisted_content_type(value: Seq<u8>) -> bool {
    &&& has_no_cors_unsafe_byte(value)
    &&& {
        ||| mime_essence(value) == ascii("application/x-www-form-urlencoded"@)
        ||| mime_essence(value) == ascii("multipart/form-data"@)
        ||| mime_essence(value) == ascii("text/plain"@)
    }
}

/// The longest value of a safelisted header.
pub const MAX_SAFELISTED_VALUE_LEN: usize = 128;

/// Whether a `no-cors` request may carry the header; the name is given in
/// small letters.
pub open spec fn no_cors_safelisted(name: Seq<u8>, value: Seq<u8>) -> bool {
    &&& value.len() <= MAX_SAFELISTED_VALUE_LEN
    &&& {
        ||| name == ascii("accept"@) && has_no_cors_unsafe_byte(value)
        ||| name == ascii("accept-language"@) && is_language_value(value)
        ||| name == ascii("content-language"@) && is_language_value(value)
        ||| name == ascii("content-type"@) && is_safelisted_content_type(value)
    }
}

/// The values of one header as one value: joined by a comma and a space.
pub open spec fn joined_values(values: Seq<Seq<u8>>) -> Seq<u8>
    decreases values.len(),
{
    if values.len() == 0 {
        Seq::empty()
    } else if values.len() == 1 {
        values[0]
    } else {
        joined_values(values.drop_last()) + seq![0x2cu8, 0x20u8] + values.last()
    }
}

pub fn is_forbidden_request_header_name(name: &[u8]) -> (r: bool)
    ensures
        r == forbidden_request_header_name(name@),
{
    proof {
        reveal_strlit("accept-charset");
        reveal_strlit("accept-encoding");
        reveal_strlit("access-control-request-headers");
        reveal_strlit("access-control-request-method");
        reveal_strlit("connection");
        reveal_strlit("content-length");
        reveal_strlit("cookie");
        reveal_strlit("cookie2");
        reveal_strlit("date");
        reveal_strlit("dnt");
        reveal_strlit("expect");
        reveal_strlit("host");
        reveal_strlit("keep-alive");
        reveal_strlit("origin");
        reveal_strlit("referer");
        reveal_strlit("set-cookie");
        reveal_strlit("te");
        reveal_strlit("trailer");
        reveal_strlit("transfer-encoding");
        reveal_strlit("upgrade");
        reveal_strlit("via");
        reveal_strlit("proxy-");
        reveal_strlit("sec-");
    }
    name_is(name, "accept-charset") || name_is(name, "accept-encoding") || name_is(
        name,
        "access-control-request-headers",
    ) || name_is(name, "access-control-request-method") || name_is(name, "connection") || name_is(
        name,
        "content-length",
    ) || name_is(name, "cookie") || name_is(name, "cookie2") || name_is(name, "date") || name_is(
        name,
        "dnt",
    ) || name_is(name, "expect") || name_is(name, "host") || name_is(name, "keep-alive")
        || name_is(name, "origin") || name_is(name, "referer") || name_is(name, "set-cookie")
        || name_is(name, "te") || name_is(name, "trailer") || name_is(name, "transfer-encoding")
        || name_is(name, "upgrade") || name_is(name, "via") || name_starts_with(name, "proxy-")
        || name_starts_with(name, "sec-")
}

pub fn is_forbidden_response_header_name(name: &[u8]) -> (r: bool)
    ensures
        r == forbidden_response_header_name(name@),
{
    proof {
        reveal_strlit("set-cookie");
        reveal_strlit("set-cookie2");
    }
    name_is(name, "set-cookie") || name_is(name, "set-cookie2")
}

pub fn is_cors_unsafe_u8(b: u8) -> (r: bool)
    ensures
        r == is_cors_unsafe_byte(b),
{
    (b < 0x20 && b != 0x09) || b == 0x22 || b == 0x28 || b == 0x29 || b == 0x3a || b == 0x3c || b
        == 0x3e || b == 0x3f || b == 0x40 || b == 0x5b || b == 0x5c || b == 0x5d || b == 0x7b || b
        == 0x7d || b == 0x7f
}

pub fn is_language_u8(b: u8) -> (r: bool)
    ensures
        r == is_language_byte(b),
{
    (0x30 <= b && b <= 0x39) || (0x41 <= b && b <= 0x5a) || (0x61 <= b && b <= 0x7a) || b == 0x20
        || b == 0x2a || b == 0x2c || b == 0x2d || b == 0x2e || b == 0x3b || b == 0x3d
}

pub fn no_cors_unsafe_byte_in(value: &[u8]) -> (r: bool)
    ensures
        r == has_no_cors_unsafe_byte(value@),
{
    let mut i: usize = 0;
    while i < value.len()
        invariant
            i <= value.len(),
            forall|k: int| 0 <= k < i ==> !is_cors_unsafe_byte(#[trigger] value@[k]),
        decreases value.len() - i,
    {
        if is_cors_unsafe_u8(value[i]) {
            return false;
        }
        i += 1;
    }
    true
}

pub fn is_language(value: &[u8]) -> (r: bool)
    ensures
        r == is_language_value(value@),
{
    let mut i: usize = 0;
    while i < value.len()
        invariant
            i <= value.len(),
            forall|k: int| 0 <= k < i ==> is_language_byte(#[trigger] value@[k]),
        decreases value.len() - i,
    {
        if !is_language_u8(value[i]) {
            return false;
        }
        i += 1;
    }
    true
}

/// The essence of a media type.
pub fn essence_of(value: &[u8]) -> (r: Vec<u8>)
    ensures
        r@ == mime_essence(value@),
{
    let t = trim_http_whitespace(value);
    let n = t.len();
    let mut k: usize = 0;
    assert(t@.subrange(0, n as int) =~= t@);
    while k < n && t[k] != 0x3b
        invariant
            k <= n,
            n == t.len(),
            semicolon_index(t@) == k + semicolon_index(t@.subrange(k as int, n as int)),
        decreases n - k,
    {
        proof {
            assert(t@.subrange(k as int, n as int).drop_first() =~= t@.subrange(k + 1, n as int));
        }
        k += 1;
    }
    let head = slice_to_vec(t.as_slice(), 0, k);
    let stripped = trim_http_whitespace(head.as_slice());
    to_lower_bytes(stripped.as_slice())
}

pub fn content_type_is_safelisted(value: &[u8]) -> (r: bool)
    ensures
        r == is_safelisted_content_type(value@),
{
    if !no_cors_unsafe_byte_in(value) {
        return false;
    }
    proof {
        reveal_strlit("application/x-www-form-urlencoded");
        reveal_strlit("multipart/form-data");
        reveal_strlit("text/plain");
    }
    let essence = essence_of(value);
    name_is(essence.as_slice(), "application/x-www-form-urlencoded") || name_is(
        essence.as_slice(),
        "multipart/form-data",
    ) || name_is(essence.as_slice(), "text/plain")
}

/// Whether a `no-cors` request may carry the header; the name is given in
/// small letters.
pub fn is_no_cors_safelisted(name: &[u8], value: &[u8]) -> (r: bool)
    ensures
        r == no_cors_safelisted(name@, value@),
{
    if value.len() > MAX_SAFELISTED_VALUE_LEN {
        return false;
    }
    proof {
        reveal_strlit("accept");
        reveal_strlit("accept-language");
        reveal_strlit("content-language");
        reveal_strlit("content-type");
        assert(ascii("accept"@).len() == 6);
        assert(ascii("accept-language"@).len() == 15);
        assert(ascii("content-language"@).len() == 16);
        assert(ascii("content-type"@).len() == 12);
    }
    if name_is(name, "accept") {
        no_cors_unsafe_byte_in(value)
    } else if name_is(name, "accept-language") || name_is(name, "content-language") {
        is_language(value)
    } else if name_is(name, "content-type") {
        content_type_is_safelisted(value)
    } else {
        false
    }
}

} // verus!
