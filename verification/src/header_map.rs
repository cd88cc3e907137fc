//! The header multimap of the `http` crate, as the rest of the library sees
//! it: a sequence of (name, value) pairs of bytes in the order in which the
//! map is walked.  Nothing here is proved; each contract restates what the
//! map's source does.

use vstd::prelude::*;
use http::header::{HeaderMap, HeaderName, HeaderValue};

verus! {

/// `http::HeaderMap`, of which the verifier sees nothing but the name.
#[verifier::external_type_specification]
#[verifier::external_body]
#[verifier::reject_recursive_types(T)]
pub struct ExHeaderMap<T>(HeaderMap<T>);

/// `http::HeaderValue`, of which the verifier sees nothing but the name.
#[verifier::external_type_specification]
#[verifier::external_body]
pub struct ExHeaderValue(HeaderValue);

/// One header: its name and its value, as bytes.
pub type Entry = (Seq<u8>, Seq<u8>);

/// The pairs that walking the map yields, in the order of the walk.
pub uninterp spec fn header_entries(map: HeaderMap<HeaderValue>) -> Seq<Entry>;

/// The most pairs a header list of this library holds.  This is the
/// library's own rule, set as high as the map allows: a map that holds
/// fewer names than this never refuses another pair.
pub const MAX_HEADERS: usize = 6553;

/// The longest name the map stores.
pub const MAX_NAME_LEN: usize = 65535;

/// `tchar` of RFC 9110: a visible ASCII character that is no delimiter.
pub open spec fn is_token_byte(b: u8) -> bool {
    ||| 0x30 <= b <= 0x39
    ||| 0x41 <= b <= 0x5a
    ||| 0x61 <= b <= 0x7a
    ||| b == 0x21
    ||| b == 0x23
    ||| b == 0x24
    ||| b == 0x25
    ||| b == 0x26
    ||| b == 0x27
    ||| b == 0x2a
    ||| b == 0x2b
    ||| b == 0x2d
    ||| b == 0x2e
    ||| b == 0x5e
    ||| b == 0x5f
    ||| b == 0x60
    ||| b == 0x7c
    ||| b == 0x7e
}

/// A non-empty run of token bytes.
pub open spec fn is_token(s: Seq<u8>) -> bool {
    &&& s.len() > 0
    &&& forall|i: int| 0 <= i < s.len() ==> is_token_byte(#[trigger] s[i])
}

/// A name that the map accepts: a token of at most `MAX_NAME_LEN` bytes.
pub open spec fn is_storable_name(s: Seq<u8>) -> bool {
    is_token(s) && s.len() <= MAX_NAME_LEN
}

/// A byte that the map accepts in a value: a tab, or anything from the space
/// upwards but DEL.
pub open spec fn is_value_byte(b: u8) -> bool {
    (b >= 32 && b != 127) || b == 9
}

/// A value that the map accepts.
pub open spec fn is_storable_value(s: Seq<u8>) -> bool {
    forall|i: int| 0 <= i < s.len() ==> is_value_byte(#[trigger] s[i])
}

/// An ASCII capital becomes its small letter; every other byte stays.
pub open spec fn lower_byte(b: u8) -> u8 {
    if 0x41 <= b <= 0x5a {
        (b + 32) as u8
    } else {
        b
    }
}

/// `s` with every ASCII capital made small.
pub open spec fn lower(s: Seq<u8>) -> Seq<u8> {
    Seq::new(s.len(), |i: int| lower_byte(s[i]))
}

/// Whether some pair carries `name`.
pub open spec fn has_name(entries: Seq<Entry>, name: Seq<u8>) -> bool {
    exists|i: int| 0 <= i < entries.len() && (#[trigger] entries[i]).0 == name
}

/// The position just behind the last pair that carries `name`, or 0 where
/// none does.
pub open spec fn end_of_name(entries: Seq<Entry>, name: Seq<u8>) -> int
    decreases entries.len(),
{
    if entries.len() == 0 {
        0
    } else if entries.last().0 == name {
        entries.len() as int
    } else {
        end_of_name(entries.drop_last(), name)
    }
}

/// The values of the pairs that carry `name`, in the order of the walk.
pub open spec fn values_of(entries: Seq<Entry>, name: Seq<u8>) -> Seq<Seq<u8>>
    decreases entries.len(),
{
    if entries.len() == 0 {
        Seq::empty()
    } else if entries.last().0 == name {
        values_of(entries.drop_last(), name).push(entries.last().1)
    } else {
        values_of(entries.drop_last(), name)
    }
}

/// The list after one more value was appended under `name`: the new pair
/// stands behind the last pair of that name, or at the very end where the
/// name is new.
pub open spec fn with_appended(entries: Seq<Entry>, name: Seq<u8>, value: Seq<u8>) -> Seq<Entry> {
    if has_name(entries, name) {
        entries.insert(end_of_name(entries, name), (name, value))
    } else {
        entries.push((name, value))
    }
}

/// `HeaderMap::new`: a map that yields nothing.
#[verifier::external_body]
pub(crate) fn header_map_new() -> (map: HeaderMap<HeaderValue>)
    ensures
        header_entries(map) == Seq::<Entry>::empty(),
{
    HeaderMap::new()
}

/// `HeaderMap::clone`: a second map that yields the same pairs in the same
/// order.
#[verifier::external_body]
pub(crate) fn header_map_clone(map: &HeaderMap<HeaderValue>) -> (copy: HeaderMap<HeaderValue>)
    ensures
        header_entries(copy) == header_entries(*map),
{
    map.clone()
}

/// `HeaderMap::len`: the number of values held, which is the number of pairs
/// that a walk yields.
#[verifier::external_body]
pub(crate) fn header_map_len(map: &HeaderMap<HeaderValue>) -> (n: usize)
    ensures
        n == header_entries(*map).len(),
{
    map.len()
}

/// `HeaderMap::contains_key` with the name made by `HeaderName::from_bytes`,
/// which turns capitals into small letters: whether a pair is stored under
/// that name.
#[verifier::external_body]
pub(crate) fn header_map_contains(map: &HeaderMap<HeaderValue>, name: &[u8]) -> (found: bool)
    requires
        is_storable_name(name@),
    ensures
        found == has_name(header_entries(*map), lower(name@)),
{
    map.contains_key(HeaderName::from_bytes(name).unwrap())
}

/// `HeaderMap::get_all` with the name made by `HeaderName::from_bytes`: the
/// values stored under that name, oldest first.
#[verifier::external_body]
pub(crate) fn header_map_get_all(map: &HeaderMap<HeaderValue>, name: &[u8]) -> (values: Vec<
    Vec<u8>,
>)
    requires
        is_storable_name(name@),
    ensures
        values@.len() == values_of(header_entries(*map), lower(name@)).len(),
        forall|i: int|
            0 <= i < values@.len() ==> (#[trigger] values@[i])@ == values_of(
                header_entries(*map),
                lower(name@),
            )[i],
{
    map.get_all(HeaderName::from_bytes(name).unwrap()).iter().map(|v| v.as_bytes().to_vec()).collect()
}

/// `HeaderMap::append` with the name made by `HeaderName::from_bytes` and the
/// value made by `HeaderValue::from_bytes`.  The name is stored in small
/// letters and the value as it is; the pair joins the values of its name, or
/// comes last where the name is new.  `append` panics only where the map
/// refuses to grow.  It refuses only where 2^15 names are stored or its
/// table, whose size is a power of two, would pass 2^15 slots; and it
/// doubles the table only when the names fill three quarters of it or,
/// after many collisions, a fifth of it.  So a refusal needs a table of
/// 2^15 slots and at least 6554 stored names, and a map that yields fewer
/// than `MAX_HEADERS` pairs takes one more.
#[verifier::external_body]
pub(crate) fn header_map_append(map: &mut HeaderMap<HeaderValue>, name: &[u8], value: &[u8])
    requires
        is_storable_name(name@),
        is_storable_value(value@),
        header_entries(*old(map)).len() < MAX_HEADERS,
    ensures
        header_entries(*final(map)) == with_appended(
            header_entries(*old(map)),
            lower(name@),
            value@,
        ),
{
    map.append(HeaderName::from_bytes(name).unwrap(), HeaderValue::from_bytes(value).unwrap());
}

/// `HeaderMap::iter`, each pair copied out as bytes: the pairs in the order
/// of the walk.
#[verifier::external_body]
pub(crate) fn header_map_entries(map: &HeaderMap<HeaderValue>) -> (pairs: Vec<(Vec<u8>, Vec<u8>)>)
    ensures
        pairs@.len() == header_entries(*map).len(),
        forall|i: int|
            0 <= i < pairs@.len() ==> (#[trigger] pairs@[i]).0@ == header_entries(*map)[i].0
                && pairs@[i].1@ == header_entries(*map)[i].1,
{
    map.iter().map(|(n, v)| (n.as_str().as_bytes().to_vec(), v.as_bytes().to_vec())).collect()
}

} // verus!
