//! Request methods: what counts as one, which ones a script may not use, and
//! how the common ones are put into capitals.

use std::str::FromStr;
use vstd::prelude::*;
use vstd::utf8::{
    is_leading_byte_width_1, partial_valid_utf8, partial_valid_utf8_extend_ascii_block, valid_utf8,
};
use vstd::string::StringSliceAdditionalSpecFns;
use http::method::InvalidMethod;
use crate::byte_string::{ascii, ascii_bytes, bytes_eq, eq_ignore_ascii_case, to_vec, ByteString};
use crate::field::is_token_bytes;
use crate::header_map::{is_token, is_token_byte, lower};

verus! {

/// `http::method::InvalidMethod`, the refusal of what is no method.
#[verifier::external_type_specification]
#[verifier::external_body]
pub struct ExInvalidMethod(InvalidMethod);

pub open spec fn delete_bytes() -> Seq<u8> {
    ascii("DELETE"@)
}

pub open spec fn get_bytes() -> Seq<u8> {
    ascii("GET"@)
}

pub open spec fn head_bytes() -> Seq<u8> {
    ascii("HEAD"@)
}

pub open spec fn options_bytes() -> Seq<u8> {
    ascii("OPTIONS"@)
}

pub open spec fn post_bytes() -> Seq<u8> {
    ascii("POST"@)
}

pub open spec fn put_bytes() -> Seq<u8> {
    ascii("PUT"@)
}

pub open spec fn connect_bytes() -> Seq<u8> {
    ascii("CONNECT"@)
}

pub open spec fn trace_bytes() -> Seq<u8> {
    ascii("TRACE"@)
}

pub open spec fn track_bytes() -> Seq<u8> {
    ascii("TRACK"@)
}

/// The method that `m` names: one of the six common methods in capitals
/// where `m` spells it in any case, else `m` itself where it is a token,
/// else nothing.
pub open spec fn normalized_method(m: Seq<u8>) -> Option<Seq<u8>> {
    if lower(m) == lower(delete_bytes()) {
        Some(delete_bytes())
    } else if lower(m) == lower(get_bytes()) {
        Some(get_bytes())
    } else if lower(m) == lower(head_bytes()) {
        Some(head_bytes())
    } else if lower(m) == lower(options_bytes()) {
        Some(options_bytes())
    } else if lower(m) == lower(post_bytes()) {
        Some(post_bytes())
    } else if lower(m) == lower(put_bytes()) {
        Some(put_bytes())
    } else if is_token(m) {
        Some(m)
    } else {
        None
    }
}

/// Whether `m`, in any case, is CONNECT, TRACE or TRACK.
pub open spec fn forbidden_method(m: Seq<u8>) -> bool {
    ||| lower(m) == lower(connect_bytes())
    ||| lower(m) == lower(trace_bytes())
    ||| lower(m) == lower(track_bytes())
}

/// Whether `m` is GET, HEAD or POST, spelt in capitals.
pub open spec fn cors_safelisted_method(m: Seq<u8>) -> bool {
    m == get_bytes() || m == head_bytes() || m == post_bytes()
}

/// A request method: a token, kept as its bytes.
#[derive(Debug)]
pub struct Method {
    name: Vec<u8>,
}

impl View for Method {
    type V = Seq<u8>;

    closed spec fn view(&self) -> Seq<u8> {
        self.name@
    }
}

/// `Method::from_str` of the `http` crate, with the name of the method that
/// it makes: a method exactly where the text is a non-empty run of token
/// characters, and then one that is spelt as the text is.
#[verifier::external_body]
fn parse_method(m: &str) -> (r: Result<Vec<u8>, InvalidMethod>)
    ensures
        r is Ok <==> is_token(m.spec_bytes()),
        r matches Ok(name) ==> name@ == m.spec_bytes(),
{
    http::Method::from_str(m).map(|method| method.as_str().as_bytes().to_vec())
}

impl Method {
    #[verifier::type_invariant]
    spec fn well_formed(self) -> bool {
        is_token(self.name@)
    }

    pub fn delete() -> (r: Method)
        ensures
            r@ == delete_bytes(),
    {
        proof {
            reveal_strlit("DELETE");
        }
        Method { name: to_vec(ascii_bytes("DELETE")) }
    }

    pub fn get() -> (r: Method)
        ensures
            r@ == get_bytes(),
    {
        proof {
            reveal_strlit("GET");
        }
        Method { name: to_vec(ascii_bytes("GET")) }
    }

    pub fn head() -> (r: Method)
        ensures
            r@ == head_bytes(),
    {
        proof {
            reveal_strlit("HEAD");
        }
        Method { name: to_vec(ascii_bytes("HEAD")) }
    }

    pub fn options() -> (r: Method)
        ensures
            r@ == options_bytes(),
    {
        proof {
            reveal_strlit("OPTIONS");
        }
        Method { name: to_vec(ascii_bytes("OPTIONS")) }
    }

    pub fn post() -> (r: Method)
        ensures
            r@ == post_bytes(),
    {
        proof {
            reveal_strlit("POST");
        }
        Method { name: to_vec(ascii_bytes("POST")) }
    }

    pub fn put() -> (r: Method)
        ensures
            r@ == put_bytes(),
    {
        proof {
            reveal_strlit("PUT");
        }
        Method { name: to_vec(ascii_bytes("PUT")) }
    }

    /// The method's name, which is a token.
    pub fn as_bytes(&self) -> (r: &[u8])
        ensures
            r@ == self@,
            is_token(self@),
    {
        proof {
            use_type_invariant(self);
        }
        self.name.as_slice()
    }

    /// A second value for the same method.
    pub fn duplicate(&self) -> (r: Method)
        ensures
            r@ == self@,
    {
        proof {
            use_type_invariant(self);
        }
        Method { name: to_vec(self.name.as_slice()) }
    }

    pub fn is_get(&self) -> (r: bool)
        ensures
            r == (self@ == get_bytes()),
    {
        proof {
            reveal_strlit("GET");
        }
        bytes_eq(self.name.as_slice(), ascii_bytes("GET"))
    }

    pub fn is_head(&self) -> (r: bool)
        ensures
            r == (self@ == head_bytes()),
    {
        proof {
            reveal_strlit("HEAD");
        }
        bytes_eq(self.name.as_slice(), ascii_bytes("HEAD"))
    }

    pub fn is_post(&self) -> (r: bool)
        ensures
            r == (self@ == post_bytes()),
    {
        proof {
            reveal_strlit("POST");
        }
        bytes_eq(self.name.as_slice(), ascii_bytes("POST"))
    }
}

/// Puts a method given in any case into its usual form: DELETE, GET, HEAD,
/// OPTIONS, POST and PUT come out in capitals, any other token as it was
/// written, and what is no token is refused.
pub fn normalize_method(m: &str) -> (r: Result<Method, InvalidMethod>)
    ensures
        r is Ok <==> normalized_method(m.spec_bytes()) is Some,
        r matches Ok(method) ==> Some(method@) == normalized_method(m.spec_bytes()),
{
    let bytes = m.as_bytes();
    if eq_ignore_ascii_case(bytes, Method::delete().as_bytes()) {
        return Ok(Method::delete());
    }
    if eq_ignore_ascii_case(bytes, Method::get().as_bytes()) {
        return Ok(Method::get());
    }
    if eq_ignore_ascii_case(bytes, Method::head().as_bytes()) {
        return Ok(Method::head());
    }
    if eq_ignore_ascii_case(bytes, Method::options().as_bytes()) {
        return Ok(Method::options());
    }
    if eq_ignore_ascii_case(bytes, Method::post().as_bytes()) {
        return Ok(Method::post());
    }
    if eq_ignore_ascii_case(bytes, Method::put().as_bytes()) {
        return Ok(Method::put());
    }
    match parse_method(m) {
        Ok(name) => Ok(Method { name }),
        Err(e) => Err(e),
    }
}

/// A token is text: each of its bytes is an ASCII character.
pub proof fn lemma_token_is_text(s: Seq<u8>)
    requires
        is_token(s),
    ensures
        valid_utf8(s),
{
    assert forall|i: int| 0 <= i < s.len() implies #[trigger] is_leading_byte_width_1(s[i]) by {
        assert(is_token_byte(s[i]));
    }
    assert(s.subrange(0, 0) =~= Seq::<u8>::empty());
    assert(partial_valid_utf8(s, 0));
    partial_valid_utf8_extend_ascii_block(s, 0, s.len() as int);
    assert(s.subrange(0, s.len() as int) =~= s);
}

/// Whether the bytes are a method: a token, which is a non-empty run of
/// token characters.
pub fn is_method(m: &ByteString) -> (r: bool)
    ensures
        r == is_token(m@),
{
    is_token_bytes(m.as_bytes())
}

/// Whether a script is barred from the method: CONNECT, TRACE and TRACK are,
/// however they are spelt.
pub fn is_forbidden_method(m: &ByteString) -> (r: bool)
    ensures
        r == forbidden_method(m@),
{
    proof {
        reveal_strlit("CONNECT");
        reveal_strlit("TRACE");
        reveal_strlit("TRACK");
    }
    let bytes = m.as_bytes();
    eq_ignore_ascii_case(bytes, ascii_bytes("CONNECT")) || eq_ignore_ascii_case(
        bytes,
        ascii_bytes("TRACE"),
    ) || eq_ignore_ascii_case(bytes, ascii_bytes("TRACK"))
}

/// Whether the method may be used without a preflight: GET, HEAD and POST.
pub fn is_cors_safelisted_method(m: &Method) -> (r: bool)
    ensures
        r == cors_safelisted_method(m@),
{
    m.is_get() || m.is_head() || m.is_post()
}

} // verus!
