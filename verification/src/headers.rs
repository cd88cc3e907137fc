//! The header list of a request as a script sees it: an ordered list of
//! headers behind a guard.  Every change goes through `append`, which puts
//! the value into normal form, checks name and value, and obeys the guard.

use vstd::prelude::*;
use http::header::{HeaderMap, HeaderValue};
use crate::byte_string::{to_lower_bytes, ByteString};
use crate::error::RequestError;
use crate::field::{
    is_field_name, is_field_value, is_header_name, is_header_value, is_storable, lemma_trim,
    trim, trim_http_whitespace,
};
use crate::guard::{
    forbidden_request_header_name, forbidden_response_header_name,
    is_forbidden_request_header_name, is_forbidden_response_header_name, is_no_cors_safelisted,
    joined_values, no_cors_safelisted, Guard,
};
use crate::header_map::{
    end_of_name, has_name, header_entries, header_map_append, header_map_clone,
    header_map_contains, header_map_entries, header_map_get_all, header_map_len, header_map_new,
    is_storable_value, is_token, is_token_byte, lower, values_of, with_appended, Entry,
    MAX_HEADERS,
};

verus! {

/// What a header list holds, as values of mathematics.
pub struct HeadersView {
    pub guard: Guard,
    pub entries: Seq<Entry>,
}

/// The initial headers a caller may give: a sequence of sequences, each of
/// which ought to be a pair, or a record of pairs.
#[derive(Debug)]
pub enum HeadersInit {
    Sequence(Vec<Vec<ByteString>>),
    Record(Vec<(ByteString, ByteString)>),
}

pub enum HeadersInitView {
    Sequence(Seq<Seq<Seq<u8>>>),
    Record(Seq<Entry>),
}

pub open spec fn sequence_view(items: Seq<Vec<ByteString>>) -> Seq<Seq<Seq<u8>>> {
    Seq::new(items.len(), |i: int| Seq::new(items[i]@.len(), |j: int| items[i]@[j]@))
}

pub open spec fn record_view(items: Seq<(ByteString, ByteString)>) -> Seq<Entry> {
    Seq::new(items.len(), |i: int| (items[i].0@, items[i].1@))
}

impl View for HeadersInit {
    type V = HeadersInitView;

    open spec fn view(&self) -> HeadersInitView {
        match self {
            HeadersInit::Sequence(items) => HeadersInitView::Sequence(sequence_view(items@)),
            HeadersInit::Record(items) => HeadersInitView::Record(record_view(items@)),
        }
    }
}

/// A stored header: its name is a header name in small letters, and its
/// value a header value that the map takes.
pub open spec fn well_formed_entry(e: Entry) -> bool {
    &&& is_header_name(e.0)
    &&& lower(e.0) == e.0
    &&& is_header_value(e.1)
    &&& is_storable_value(e.1)
}

/// The headers of one name stand together.
pub open spec fn grouped(entries: Seq<Entry>) -> bool {
    forall|i: int, j: int|
        0 <= i < j < entries.len() && (#[trigger] entries[i]).0 == (#[trigger] entries[j]).0
            ==> entries[j - 1].0 == entries[j].0
}

/// What holds of every header list: it holds no more than `MAX_HEADERS`
/// headers, each of its headers is well formed, and the headers of one name
/// stand together.
pub open spec fn well_formed_entries(entries: Seq<Entry>) -> bool {
    &&& entries.len() <= MAX_HEADERS
    &&& forall|i: int| 0 <= i < entries.len() ==> well_formed_entry(#[trigger] entries[i])
    &&& grouped(entries)
}

/// Whether a list under guard `guard` passes over the header in silence.
/// Name and value are given as they would be stored.
pub open spec fn passed_over(h: HeadersView, name: Seq<u8>, value: Seq<u8>) -> bool {
    ||| h.guard is Request && forbidden_request_header_name(name)
    ||| h.guard is Response && forbidden_response_header_name(name)
    ||| h.guard is RequestNoCors && !no_cors_safelisted(
        name,
        joined_values(values_of(h.entries, name).push(value)),
    )
    ||| !is_storable_value(value)
}

/// What appending `value` under `name` does to a header list: the list that
/// comes of it, or the reason for which the header is refused.
pub open spec fn append_outcome(h: HeadersView, name: Seq<u8>, value: Seq<u8>) -> Result<
    HeadersView,
    RequestError,
> {
    let stored_name = lower(name);
    let stored_value = trim(value);
    if !is_header_name(name) {
        Err(RequestError::HeaderNameInvalid)
    } else if !is_header_value(stored_value) {
        Err(RequestError::HeaderValueInvalid)
    } else if h.guard is Immutable {
        Err(RequestError::GuardImmutable)
    } else if passed_over(h, stored_name, stored_value) {
        Ok(h)
    } else if h.entries.len() >= MAX_HEADERS {
        Err(RequestError::TooManyHeaders)
    } else {
        Ok(
            HeadersView {
                guard: h.guard,
                entries: with_appended(h.entries, stored_name, stored_value),
            },
        )
    }
}

/// What appending the pairs one after the other does: the list as it stands
/// when all are in or the first is refused, and the reason if one was.
pub open spec fn fill_outcome(h: HeadersView, pairs: Seq<Entry>) -> (HeadersView, Option<
    RequestError,
>)
    decreases pairs.len(),
{
    if pairs.len() == 0 {
        (h, None)
    } else {
        match append_outcome(h, pairs[0].0, pairs[0].1) {
            Ok(next) => fill_outcome(next, pairs.drop_first()),
            Err(e) => (h, Some(e)),
        }
    }
}

/// The same for a sequence of sequences, of which each must be a pair.
pub open spec fn fill_sequence_outcome(h: HeadersView, items: Seq<Seq<Seq<u8>>>) -> (
    HeadersView,
    Option<RequestError>,
)
    decreases items.len(),
{
    if items.len() == 0 {
        (h, None)
    } else if items[0].len() != 2 {
        (h, Some(RequestError::HeaderPairMalformed))
    } else {
        match append_outcome(h, items[0][0], items[0][1]) {
            Ok(next) => fill_sequence_outcome(next, items.drop_first()),
            Err(e) => (h, Some(e)),
        }
    }
}

pub open spec fn pairs_view(items: Seq<(Vec<u8>, Vec<u8>)>) -> Seq<Entry> {
    Seq::new(items.len(), |i: int| (items[i].0@, items[i].1@))
}

/// The result that goes with the outcome of a filling.
pub open spec fn outcome_result(refusal: Option<RequestError>) -> Result<(), RequestError> {
    match refusal {
        None => Ok(()),
        Some(e) => Err(e),
    }
}

pub open spec fn init_view(init: Option<&HeadersInit>) -> Option<HeadersInitView> {
    match init {
        None => None,
        Some(i) => Some(i@),
    }
}

/// What filling a list from initial headers does.
pub open spec fn fill_init_outcome(h: HeadersView, init: Option<HeadersInitView>) -> (
    HeadersView,
    Option<RequestError>,
) {
    match init {
        None => (h, None),
        Some(HeadersInitView::Sequence(items)) => fill_sequence_outcome(h, items),
        Some(HeadersInitView::Record(pairs)) => fill_outcome(h, pairs),
    }
}

pub proof fn lemma_lower(s: Seq<u8>)
    ensures
        lower(s).len() == s.len(),
        lower(lower(s)) == lower(s),
        is_token(s) ==> is_token(lower(s)),
        is_header_name(s) ==> is_header_name(lower(s)),
{
    assert(lower(lower(s)) =~= lower(s));
    if is_token(s) {
        assert forall|i: int| 0 <= i < lower(s).len() implies is_token_byte(
            #[trigger] lower(s)[i],
        ) by {
            assert(is_token_byte(s[i]));
        }
    }
}

/// Where the headers of `name` end: behind one of them, with none further on.
pub proof fn lemma_end_of_name(entries: Seq<Entry>, name: Seq<u8>)
    ensures
        0 <= end_of_name(entries, name) <= entries.len(),
        has_name(entries, name) <==> end_of_name(entries, name) > 0,
        end_of_name(entries, name) > 0 ==> entries[end_of_name(entries, name) - 1].0 == name,
        forall|k: int|
            end_of_name(entries, name) <= k < entries.len() ==> (#[trigger] entries[k]).0 != name,
    decreases entries.len(),
{
    if entries.len() == 0 {
    } else if entries.last().0 == name {
        assert(entries[entries.len() - 1].0 == name);
    } else {
        let rest = entries.drop_last();
        lemma_end_of_name(rest, name);
        if has_name(entries, name) {
            let i = choose|i: int| 0 <= i < entries.len() && (#[trigger] entries[i]).0 == name;
            assert(rest[i].0 == name);
        }
        if end_of_name(rest, name) > 0 {
            assert(entries[end_of_name(rest, name) - 1].0 == name);
        }
        assert forall|k: int| end_of_name(entries, name) <= k < entries.len() implies (
        #[trigger] entries[k]).0 != name by {
            if k < rest.len() {
                assert(rest[k].0 != name);
            }
        }
    }
}

/// A well-formed list stays well formed when a well-formed header is
/// appended to it, as long as it was not full.
pub proof fn lemma_append_keeps_well_formed(entries: Seq<Entry>, name: Seq<u8>, value: Seq<u8>)
    requires
        well_formed_entries(entries),
        well_formed_entry((name, value)),
        entries.len() < MAX_HEADERS,
    ensures
        well_formed_entries(with_appended(entries, name, value)),
{
    lemma_end_of_name(entries, name);
    let p = end_of_name(entries, name);
    let out = with_appended(entries, name, value);
    if has_name(entries, name) {
        assert(out.len() == entries.len() + 1);
        assert forall|k: int| 0 <= k < out.len() implies well_formed_entry(#[trigger] out[k]) by {
            if k < p {
                assert(out[k] == entries[k]);
            } else if k == p {
            } else {
                assert(out[k] == entries[k - 1]);
            }
        }
        assert forall|i: int, j: int|
            0 <= i < j < out.len() && (#[trigger] out[i]).0 == (#[trigger] out[j]).0 implies out[j
                - 1].0 == out[j].0 by {
            if j < p {
                assert(entries[i].0 == entries[j].0);
            } else if j == p {
                assert(out[j - 1] == entries[p - 1]);
            } else if j == p + 1 {
                assert(out[j] == entries[p]);
                assert(entries[p].0 != name);
                if i < p {
                    assert(entries[i].0 == entries[p].0);
                    assert(entries[p - 1].0 == entries[p].0);
                }
            } else {
                assert(out[j] == entries[j - 1]);
                assert(out[j - 1] == entries[j - 2]);
                assert(entries[j - 1].0 != name);
                if i < p {
                    assert(entries[i].0 == entries[j - 1].0);
                } else if i > p {
                    assert(out[i] == entries[i - 1]);
                    assert(entries[i - 1].0 == entries[j - 1].0);
                }
            }
        }
    } else {
        assert forall|i: int, j: int|
            0 <= i < j < out.len() && (#[trigger] out[i]).0 == (#[trigger] out[j]).0 implies out[j
                - 1].0 == out[j].0 by {
            if j < entries.len() {
                assert(entries[i].0 == entries[j].0);
            } else {
                assert(entries[i].0 == name);
            }
        }
    }
}

/// Appending to a well-formed list the header that follows it in a longer
/// well-formed list gives the longer list's next prefix.
pub proof fn lemma_append_next(entries: Seq<Entry>, k: int)
    requires
        well_formed_entries(entries),
        0 <= k < entries.len(),
    ensures
        with_appended(entries.subrange(0, k), entries[k].0, entries[k].1) == entries.subrange(
            0,
            k + 1,
        ),
{
    let prefix = entries.subrange(0, k);
    let name = entries[k].0;
    lemma_end_of_name(prefix, name);
    if has_name(prefix, name) {
        let i = choose|i: int| 0 <= i < prefix.len() && (#[trigger] prefix[i]).0 == name;
        assert(entries[i].0 == entries[k].0);
        assert(entries[k - 1].0 == name);
        assert(prefix.last().0 == name);
        assert(end_of_name(prefix, name) == k);
        assert(prefix.insert(k, entries[k]) =~= entries.subrange(0, k + 1));
    } else {
        assert(prefix.push(entries[k]) =~= entries.subrange(0, k + 1));
    }
}

/// Copying a well-formed list, header by header, into a list that takes
/// every header gives the same list: from the point where the first `k`
/// headers are in, the rest follow without a refusal.
pub proof fn lemma_copy_from(entries: Seq<Entry>, k: int)
    requires
        well_formed_entries(entries),
        0 <= k <= entries.len(),
    ensures
        fill_outcome(
            HeadersView { guard: Guard::Open, entries: entries.subrange(0, k) },
            entries.subrange(k, entries.len() as int),
        ) == (HeadersView { guard: Guard::Open, entries: entries }, None::<RequestError>),
    decreases entries.len() - k,
{
    let rest = entries.subrange(k, entries.len() as int);
    if k == entries.len() {
        assert(entries.subrange(0, k) =~= entries);
    } else {
        let e = entries[k];
        assert(rest[0] == e);
        assert(well_formed_entry(e));
        lemma_trim(e.1);
        lemma_append_next(entries, k);
        assert(rest.drop_first() =~= entries.subrange(k + 1, entries.len() as int));
        lemma_copy_from(entries, k + 1);
    }
}

/// Filling a well-formed list that takes changes with well-formed headers
/// is never refused as long as there is room for all of them, and leaves a
/// well-formed list under the same guard.
pub proof fn lemma_fill_from_well_formed(h: HeadersView, pairs: Seq<Entry>)
    requires
        well_formed_entries(h.entries),
        forall|i: int| 0 <= i < pairs.len() ==> well_formed_entry(#[trigger] pairs[i]),
        h.entries.len() + pairs.len() <= MAX_HEADERS,
        !(h.guard is Immutable),
    ensures
        fill_outcome(h, pairs).1 is None,
        fill_outcome(h, pairs).0.guard == h.guard,
        well_formed_entries(fill_outcome(h, pairs).0.entries),
        fill_outcome(h, pairs).0.entries.len() <= h.entries.len() + pairs.len(),
    decreases pairs.len(),
{
    if pairs.len() > 0 {
        let e = pairs[0];
        assert(well_formed_entry(e));
        lemma_trim(e.1);
        let rest = pairs.drop_first();
        assert forall|i: int| 0 <= i < rest.len() implies well_formed_entry(#[trigger] rest[i]) by {
            assert(rest[i] == pairs[i + 1]);
        }
        if passed_over(h, e.0, e.1) {
            lemma_fill_from_well_formed(h, rest);
        } else {
            lemma_append_keeps_well_formed(h.entries, e.0, e.1);
            let next = HeadersView { guard: h.guard, entries: with_appended(h.entries, e.0, e.1) };
            lemma_end_of_name(h.entries, e.0);
            lemma_fill_from_well_formed(next, rest);
        }
    }
}

/// The header list of a request or a response.
#[derive(Debug)]
pub struct Headers {
    guard: Guard,
    header_list: HeaderMap<HeaderValue>,
}

impl View for Headers {
    type V = HeadersView;

    closed spec fn view(&self) -> HeadersView {
        HeadersView { guard: self.guard, entries: header_entries(self.header_list) }
    }
}

/// All the values in `values`, and `last` behind them, joined by a comma
/// and a space.
fn join_values(values: &Vec<Vec<u8>>, last: &[u8]) -> (r: Vec<u8>)
    ensures
        r@ == joined_values(Seq::new(values@.len(), |i: int| values@[i]@).push(last@)),
{
    let ghost all = Seq::new(values@.len(), |i: int| values@[i]@).push(last@);
    let mut out: Vec<u8> = Vec::new();
    let mut i: usize = 0;
    while i < values.len()
        invariant
            i <= values.len(),
            all == Seq::new(values@.len(), |i: int| values@[i]@).push(last@),
            out@ == joined_values(all.subrange(0, i as int)),
        decreases values.len() - i,
    {
        if i > 0 {
            out.push(0x2c);
            out.push(0x20);
        }
        let v = &values[i];
        let mut k: usize = 0;
        let ghost before = out@;
        while k < v.len()
            invariant
                k <= v.len(),
                out@ == before + v@.subrange(0, k as int),
            decreases v.len() - k,
        {
            out.push(v[k]);
            k += 1;
            assert(out@ =~= before + v@.subrange(0, k as int));
        }
        assert(v@.subrange(0, k as int) =~= v@);
        proof {
            let next = all.subrange(0, i + 1);
            assert(next.drop_last() =~= all.subrange(0, i as int));
            assert(next.last() == v@);
            if i > 0 {
                assert(out@ =~= joined_values(all.subrange(0, i as int)) + seq![0x2cu8, 0x20u8]
                    + v@);
            } else {
                assert(out@ =~= v@);
            }
        }
        i += 1;
    }
    if i > 0 {
        out.push(0x2c);
        out.push(0x20);
    }
    let mut k: usize = 0;
    let ghost before = out@;
    while k < last.len()
        invariant
            k <= last.len(),
            out@ == before + last@.subrange(0, k as int),
        decreases last.len() - k,
    {
        out.push(last[k]);
        k += 1;
        assert(out@ =~= before + last@.subrange(0, k as int));
    }
    proof {
        assert(last@.subrange(0, k as int) =~= last@);
        assert(all.drop_last() =~= all.subrange(0, i as int));
        assert(all.subrange(0, all.len() as int) =~= all);
        if i > 0 {
            assert(out@ =~= joined_values(all.drop_last()) + seq![0x2cu8, 0x20u8] + last@);
        } else {
            assert(out@ =~= last@);
        }
    }
    out
}

impl Headers {
    #[verifier::type_invariant]
    spec fn well_formed(self) -> bool {
        well_formed_entries(header_entries(self.header_list))
    }

    /// An empty list that takes every header.
    pub fn new() -> (r: Headers)
        ensures
            r@ == (HeadersView { guard: Guard::Open, entries: Seq::empty() }),
    {
        Headers { guard: Guard::Open, header_list: header_map_new() }
    }

    /// An empty list for a request.
    pub fn for_request() -> (r: Headers)
        ensures
            r@ == (HeadersView { guard: Guard::Request, entries: Seq::empty() }),
    {
        Headers { guard: Guard::Request, header_list: header_map_new() }
    }

    pub fn get_guard(&self) -> (r: Guard)
        ensures
            r == self@.guard,
    {
        self.guard
    }

    pub fn set_guard(&mut self, guard: Guard)
        ensures
            final(self)@ == (HeadersView { guard: guard, entries: old(self)@.entries }),
    {
        proof {
            use_type_invariant(&*self);
        }
        self.guard = guard;
    }

    /// The number of headers, which never passes `MAX_HEADERS`.
    pub fn len(&self) -> (r: usize)
        ensures
            r == self@.entries.len(),
            well_formed_entries(self@.entries),
    {
        proof {
            use_type_invariant(self);
        }
        header_map_len(&self.header_list)
    }

    /// Whether the list holds a header of this name, in whatever case the
    /// name is written.  What is no header name is refused.
    pub fn has(&self, name: &ByteString) -> (r: Result<bool, RequestError>)
        ensures
            is_header_name(name@) ==> r == Ok::<bool, RequestError>(
                has_name(self@.entries, lower(name@)),
            ),
            !is_header_name(name@) ==> r == Err::<bool, RequestError>(
                RequestError::HeaderNameInvalid,
            ),
    {
        if !is_field_name(name.as_bytes()) {
            return Err(RequestError::HeaderNameInvalid);
        }
        Ok(header_map_contains(&self.header_list, name.as_bytes()))
    }

    /// Appends a header.  The value is put into normal form; a malformed
    /// name or value and an immutable list are errors; a header that the
    /// guard does not admit, or whose value the list cannot store, is passed
    /// over.  By this library's rule a list that holds `MAX_HEADERS` headers
    /// takes no more: one more is an error.
    pub fn append(&mut self, name: &ByteString, value: &ByteString) -> (r: Result<
        (),
        RequestError,
    >)
        ensures
            match append_outcome(old(self)@, name@, value@) {
                Ok(h) => r is Ok && final(self)@ == h,
                Err(e) => r == Err::<(), RequestError>(e) && final(self)@ == old(self)@,
            },
    {
        self.append_bytes(name.as_bytes(), value.as_bytes())
    }

    /// `append` for a name and a value given as plain bytes.
    pub fn append_bytes(&mut self, name: &[u8], value: &[u8]) -> (r: Result<(), RequestError>)
        ensures
            match append_outcome(old(self)@, name@, value@) {
                Ok(h) => r is Ok && final(self)@ == h,
                Err(e) => r == Err::<(), RequestError>(e) && final(self)@ == old(self)@,
            },
    {
        proof {
            use_type_invariant(&*self);
            lemma_trim(value@);
            lemma_lower(name@);
        }
        let stored_value = trim_http_whitespace(value);
        if !is_field_name(name) {
            return Err(RequestError::HeaderNameInvalid);
        }
        if !is_field_value(stored_value.as_slice()) {
            return Err(RequestError::HeaderValueInvalid);
        }
        let stored_name = to_lower_bytes(name);
        match self.guard {
            Guard::Immutable => {
                return Err(RequestError::GuardImmutable);
            },
            Guard::Request => {
                if is_forbidden_request_header_name(stored_name.as_slice()) {
                    return Ok(());
                }
            },
            Guard::Response => {
                if is_forbidden_response_header_name(stored_name.as_slice()) {
                    return Ok(());
                }
            },
            Guard::RequestNoCors => {
                let existing = header_map_get_all(&self.header_list, stored_name.as_slice());
                let candidate = join_values(&existing, stored_value.as_slice());
                proof {
                    assert(Seq::new(existing@.len(), |i: int| existing@[i]@) =~= values_of(
                        header_entries(self.header_list),
                        stored_name@,
                    ));
                }
                if !is_no_cors_safelisted(stored_name.as_slice(), candidate.as_slice()) {
                    return Ok(());
                }
            },
            Guard::Open => {},
        }
        if !is_storable(stored_value.as_slice()) {
            return Ok(());
        }
        if header_map_len(&self.header_list) >= MAX_HEADERS {
            return Err(RequestError::TooManyHeaders);
        }
        proof {
            lemma_append_keeps_well_formed(
                header_entries(self.header_list),
                stored_name@,
                stored_value@,
            );
        }
        let mut list = header_map_new();
        core::mem::swap(&mut self.header_list, &mut list);
        header_map_append(&mut list, stored_name.as_slice(), stored_value.as_slice());
        core::mem::swap(&mut self.header_list, &mut list);
        Ok(())
    }

    /// Appends the pairs one after the other, up to the first that is
    /// refused.
    fn fill_pairs(&mut self, pairs: &Vec<(Vec<u8>, Vec<u8>)>) -> (r: Result<(), RequestError>)
        ensures
            final(self)@ == fill_outcome(old(self)@, pairs_view(pairs@)).0,
            r == outcome_result(fill_outcome(old(self)@, pairs_view(pairs@)).1),
    {
        let ghost all = pairs_view(pairs@);
        let ghost start = self@;
        let mut i: usize = 0;
        assert(all.subrange(0, all.len() as int) =~= all);
        while i < pairs.len()
            invariant
                i <= pairs.len(),
                all == pairs_view(pairs@),
                start == old(self)@,
                fill_outcome(start, all) == fill_outcome(
                    self@,
                    all.subrange(i as int, all.len() as int),
                ),
            decreases pairs.len() - i,
        {
            let ghost rest = all.subrange(i as int, all.len() as int);
            assert(rest[0] == (pairs@[i as int].0@, pairs@[i as int].1@));
            assert(rest.drop_first() =~= all.subrange(i + 1, all.len() as int));
            match self.append_bytes(pairs[i].0.as_slice(), pairs[i].1.as_slice()) {
                Ok(()) => {},
                Err(e) => {
                    return Err(e);
                },
            }
            i += 1;
        }
        Ok(())
    }

    /// Appends the pairs of a record one after the other, up to the first
    /// that is refused.
    fn fill_record(&mut self, pairs: &Vec<(ByteString, ByteString)>) -> (r: Result<
        (),
        RequestError,
    >)
        ensures
            final(self)@ == fill_outcome(old(self)@, record_view(pairs@)).0,
            r == outcome_result(fill_outcome(old(self)@, record_view(pairs@)).1),
    {
        let ghost all = record_view(pairs@);
        let ghost start = self@;
        let mut i: usize = 0;
        assert(all.subrange(0, all.len() as int) =~= all);
        while i < pairs.len()
            invariant
                i <= pairs.len(),
                all == record_view(pairs@),
                start == old(self)@,
                fill_outcome(start, all) == fill_outcome(
                    self@,
                    all.subrange(i as int, all.len() as int),
                ),
            decreases pairs.len() - i,
        {
            let ghost rest = all.subrange(i as int, all.len() as int);
            assert(rest[0] == (pairs@[i as int].0@, pairs@[i as int].1@));
            assert(rest.drop_first() =~= all.subrange(i + 1, all.len() as int));
            match self.append(&pairs[i].0, &pairs[i].1) {
                Ok(()) => {},
                Err(e) => {
                    return Err(e);
                },
            }
            i += 1;
        }
        Ok(())
    }

    /// Appends the items of a sequence one after the other, up to the first
    /// that is no pair or is refused.
    fn fill_sequence(&mut self, items: &Vec<Vec<ByteString>>) -> (r: Result<(), RequestError>)
        ensures
            final(self)@ == fill_sequence_outcome(old(self)@, sequence_view(items@)).0,
            r == outcome_result(fill_sequence_outcome(old(self)@, sequence_view(items@)).1),
    {
        let ghost all = sequence_view(items@);
        let ghost start = self@;
        let mut i: usize = 0;
        assert(all.subrange(0, all.len() as int) =~= all);
        while i < items.len()
            invariant
                i <= items.len(),
                all == sequence_view(items@),
                start == old(self)@,
                fill_sequence_outcome(start, all) == fill_sequence_outcome(
                    self@,
                    all.subrange(i as int, all.len() as int),
                ),
            decreases items.len() - i,
        {
            let ghost rest = all.subrange(i as int, all.len() as int);
            assert(rest[0] == all[i as int]);
            assert(rest.drop_first() =~= all.subrange(i + 1, all.len() as int));
            let item = &items[i];
            if item.len() != 2 {
                return Err(RequestError::HeaderPairMalformed);
            }
            match self.append(&item[0], &item[1]) {
                Ok(()) => {},
                Err(e) => {
                    return Err(e);
                },
            }
            i += 1;
        }
        Ok(())
    }

    /// Fills the list from initial headers: each is appended in turn, and
    /// the first refusal ends the filling with what is in by then.
    pub fn fill(&mut self, filler: Option<&HeadersInit>) -> (r: Result<(), RequestError>)
        ensures
            final(self)@ == fill_init_outcome(old(self)@, init_view(filler)).0,
            r == outcome_result(fill_init_outcome(old(self)@, init_view(filler)).1),
    {
        match filler {
            None => Ok(()),
            Some(HeadersInit::Sequence(items)) => self.fill_sequence(items),
            Some(HeadersInit::Record(pairs)) => self.fill_record(pairs),
        }
    }

    /// Appends every header of `other`, in its order, up to the first that
    /// is refused.  The guard of `other` is not taken over.
    pub fn copy_from_headers(&mut self, other: &Headers) -> (r: Result<(), RequestError>)
        ensures
            final(self)@ == fill_outcome(old(self)@, other@.entries).0,
            r == outcome_result(fill_outcome(old(self)@, other@.entries).1),
    {
        let pairs = other.entries();
        assert(pairs_view(pairs@) =~= other@.entries);
        self.fill_pairs(&pairs)
    }

    /// A copy of the underlying list, for the descriptor.
    pub fn get_headers_list(&self) -> (r: HeaderMap<HeaderValue>)
        ensures
            header_entries(r) == self@.entries,
            well_formed_entries(self@.entries),
    {
        proof {
            use_type_invariant(self);
        }
        header_map_clone(&self.header_list)
    }

    /// The headers, copied out in the order of the list.
    pub fn entries(&self) -> (r: Vec<(Vec<u8>, Vec<u8>)>)
        ensures
            r@.len() == self@.entries.len(),
            forall|i: int|
                0 <= i < r@.len() ==> (#[trigger] r@[i]).0@ == self@.entries[i].0 && r@[i].1@
                    == self@.entries[i].1,
            well_formed_entries(self@.entries),
    {
        proof {
            use_type_invariant(self);
        }
        header_map_entries(&self.header_list)
    }
}

} // verus!
