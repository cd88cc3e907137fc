//! The request handle: one descriptor, the header list that a script sees,
//! and the stream of a bound body.  A handle comes out of the construction
//! from a URL or from another handle, or out of cloning.

use vstd::prelude::*;
use crate::body::{BodyStream, ExtractedBody, ExtractedBodyView, RequestBody, RequestBodyView};
use crate::byte_string::{ascii, ascii_bytes, to_vec, ByteString};
use crate::descriptor::{
    body_view, net_request_from_global, seeded_request, GlobalScope, GlobalScopeView,
    NetRequest, NetRequestView, Referrer,
};
use crate::error::RequestError;
use crate::guard::Guard;
use crate::header_map::{has_name, lower, Entry};
use crate::headers::{
    append_outcome, fill_init_outcome, fill_outcome, lemma_copy_from, well_formed_entries,
    Headers, HeadersView,
};
use crate::host::{
    ReferrerPolicy, RequestCache, RequestCredentials, RequestDestination, RequestMode,
    RequestRedirect,
};
use crate::init::{RequestInit, RequestInitView};
use crate::method::{
    cors_safelisted_method, get_bytes, head_bytes, is_cors_safelisted_method,
};
use crate::normalize::{normalize_descriptor, normalized_descriptor, url_option_view};
use crate::transport::TransportMode;
use crate::web_url::{includes_credentials, joined_url, Url, UrlView};

verus! {

/// What a request handle holds, as values of mathematics.
pub struct RequestView {
    pub request: NetRequestView,
    pub body_stream: Option<BodyStream>,
    pub headers: HeadersView,
}

impl RequestView {
    /// Whether the body has begun to be read.
    pub open spec fn is_disturbed(self) -> bool {
        self.body_stream matches Some(stream) && stream.disturbed()
    }

    /// Whether a reader holds the body.
    pub open spec fn is_locked(self) -> bool {
        self.body_stream matches Some(stream) && stream.locked()
    }

    /// What holds of every handle.  The descriptor names a URL.  Its headers
    /// are those of the header list, which is well formed.  Its mode and
    /// destination are ones a script may read, and the mode is no
    /// navigation.  `only-if-cached` goes with `same-origin` alone, and
    /// `no-cors` with a safelisted method alone.
    pub open spec fn legal(self) -> bool {
        &&& self.request.url_list.len() > 0
        &&& self.request.headers == self.headers.entries
        &&& well_formed_entries(self.headers.entries)
        &&& self.request.mode.has_host_image()
        &&& !(self.request.mode is Navigate)
        &&& self.request.destination.has_host_image()
        &&& self.request.cache_mode is OnlyIfCached ==> self.request.mode is SameOrigin
        &&& self.request.mode is NoCors ==> cors_safelisted_method(self.request.method)
    }
}

/// The guard of the header list of a new request.
pub open spec fn guard_for(mode: TransportMode) -> Guard {
    if mode is NoCors {
        Guard::RequestNoCors
    } else {
        Guard::Request
    }
}

/// The header list of the new request: empty under the guard of its mode,
/// then filled from the caller's headers or, where the caller gave none,
/// from the headers of the request given as input.  A `no-cors` request
/// with a method that is not safelisted is refused before that.
pub open spec fn populated_headers(
    request: NetRequestView,
    init: RequestInitView,
    source: Option<HeadersView>,
) -> Result<HeadersView, RequestError> {
    if request.mode is NoCors && !cors_safelisted_method(request.method) {
        Err(RequestError::MethodNotSafelisted)
    } else {
        let fresh = HeadersView { guard: guard_for(request.mode), entries: Seq::empty() };
        let filled = match init.headers {
            Some(h) => fill_init_outcome(fresh, Some(h)),
            None => match source {
                Some(s) => fill_outcome(fresh, s.entries),
                None => (fresh, None),
            },
        };
        match filled.1 {
            Some(e) => Err(e),
            None => Ok(filled.0),
        }
    }
}

/// Why the body is refused, if it is: the caller names a body, that body or
/// the one of the input is there, and the method is GET or HEAD.
pub open spec fn body_refusal(
    method: Seq<u8>,
    init_body: Option<Option<ExtractedBodyView>>,
    input_has_body: bool,
) -> Option<RequestError> {
    if init_body matches Some(b) && (b is Some || input_has_body) {
        if method == get_bytes() {
            Some(RequestError::BodyWithGet)
        } else if method == head_bytes() {
            Some(RequestError::BodyWithHead)
        } else {
            None
        }
    } else {
        None
    }
}

pub open spec fn content_type_name() -> Seq<u8> {
    ascii("Content-Type"@)
}

/// The header list once the content type of the caller's body is in: it is
/// appended where the body declares one and the list names none yet.
pub open spec fn with_content_type(
    headers: HeadersView,
    init_body: Option<Option<ExtractedBodyView>>,
) -> Result<HeadersView, RequestError> {
    match init_body {
        Some(Some(extracted)) => match extracted.content_type {
            Some(content_type) => if has_name(headers.entries, lower(content_type_name())) {
                Ok(headers)
            } else {
                append_outcome(headers, content_type_name(), content_type)
            },
            None => Ok(headers),
        },
        _ => Ok(headers),
    }
}

/// The handle that binds descriptor, header list and body together: the
/// descriptor gets the headers of the list; the caller's body, where there
/// is one, is bound with a fresh stream, and else the body of the input is
/// carried along without a stream.
pub open spec fn bound(
    request: NetRequestView,
    headers: HeadersView,
    init_body: Option<Option<ExtractedBodyView>>,
    input_body: Option<RequestBodyView>,
) -> RequestView {
    match init_body {
        Some(Some(extracted)) => RequestView {
            request: NetRequestView {
                headers: headers.entries,
                body: Some(extracted.net_request_body()),
                ..request
            },
            body_stream: Some(BodyStream::Unconsumed),
            headers: headers,
        },
        _ => RequestView {
            request: NetRequestView { headers: headers.entries, body: input_body, ..request },
            body_stream: None,
            headers: headers,
        },
    }
}

/// The handle that comes of a baseline descriptor and the overrides, or the
/// first refusal: the descriptor is normalised, then the header list is
/// filled, then the body is looked at and bound.
pub open spec fn constructed(
    global: GlobalScopeView,
    baseline: NetRequestView,
    fallback: Option<TransportMode>,
    source: Option<HeadersView>,
    init: RequestInitView,
    parsed_referrer: Option<UrlView>,
) -> Result<RequestView, RequestError> {
    match normalized_descriptor(global, baseline, fallback, init, parsed_referrer) {
        Err(e) => Err(e),
        Ok(request) => match populated_headers(request, init, source) {
            Err(e) => Err(e),
            Ok(filled) => match body_refusal(request.method, init.body, baseline.body is Some) {
                Some(e) => Err(e),
                None => match with_content_type(filled, init.body) {
                    Err(e) => Err(e),
                    Ok(headers) => Ok(bound(request, headers, init.body, baseline.body)),
                },
            },
        },
    }
}

/// The handle for a URL, given what the URL resolved to against the base
/// URL: a URL that did not resolve or that carries credentials is refused;
/// else the baseline is the descriptor seeded at that URL, and the mode
/// falls back to `cors`.
pub open spec fn constructed_from_url(
    global: GlobalScopeView,
    parsed_url: Option<UrlView>,
    init: RequestInitView,
    parsed_referrer: Option<UrlView>,
) -> Result<RequestView, RequestError> {
    match parsed_url {
        None => Err(RequestError::UrlNotParsed),
        Some(url) => if url.includes_credentials() {
            Err(RequestError::UrlHasCredentials)
        } else {
            constructed(
                global,
                seeded_request(global, url),
                Some(TransportMode::CorsMode),
                None,
                init,
                parsed_referrer,
            )
        },
    }
}

/// The handle derived from another: an input whose body is locked or was
/// read is refused; else the baseline is the input's descriptor, and there
/// is no fallback mode.
pub open spec fn constructed_from_request(
    global: GlobalScopeView,
    source: RequestView,
    init: RequestInitView,
    parsed_referrer: Option<UrlView>,
) -> Result<RequestView, RequestError> {
    if source.is_disturbed() || source.is_locked() {
        Err(RequestError::InputDisturbedOrLocked)
    } else {
        constructed(global, source.request, None, Some(source.headers), init, parsed_referrer)
    }
}

/// What the caller's referrer resolves to against the base URL.
pub open spec fn resolved_referrer(global: GlobalScopeView, init: RequestInitView) -> Option<
    UrlView,
> {
    match init.referrer {
        Some(text) => joined_url(global.api_base_url.href, text),
        None => None,
    }
}

/// The clone of a handle: the same descriptor and the same header list
/// under the same guard, and no stream.
pub open spec fn cloned(source: RequestView) -> RequestView {
    RequestView { request: source.request, body_stream: None, headers: source.headers }
}

/// The bytes of a body, and none where there is no body.
pub open spec fn payload_of(body: Option<RequestBodyView>) -> Seq<u8> {
    match body {
        Some(b) => b.payload,
        None => Seq::empty(),
    }
}

/// The stream once it was read.
pub open spec fn consumed(stream: Option<BodyStream>) -> Option<BodyStream> {
    match stream {
        Some(_) => Some(BodyStream::Consumed),
        None => None,
    }
}

/// The input of a construction: a URL to resolve, or a request to derive
/// the new one from.
#[derive(Debug)]
pub enum RequestInfo {
    Url(String),
    Request(Request),
}

pub open spec fn headers_option_view(headers: Option<&Headers>) -> Option<HeadersView> {
    match headers {
        Some(h) => Some(h@),
        None => None,
    }
}

pub open spec fn init_body_view(body: Option<Option<ExtractedBody>>) -> Option<
    Option<ExtractedBodyView>,
> {
    match body {
        Some(Some(b)) => Some(Some(b@)),
        Some(None) => Some(None),
        None => None,
    }
}

/// A request as a script holds it.
#[derive(Debug)]
pub struct Request {
    request: NetRequest,
    body_stream: Option<BodyStream>,
    headers: Headers,
}

impl View for Request {
    type V = RequestView;

    closed spec fn view(&self) -> RequestView {
        RequestView {
            request: self.request@,
            body_stream: self.body_stream,
            headers: self.headers@,
        }
    }
}

/// Makes the header list of the new request and fills it.
pub fn populate_headers(request: &NetRequest, init: &RequestInit, source: Option<&Headers>) -> (r:
    Result<Headers, RequestError>)
    ensures
        match populated_headers(request@, init@, headers_option_view(source)) {
            Ok(v) => r matches Ok(headers) && headers@ == v,
            Err(e) => r matches Err(refusal) && refusal == e,
        },
{
    let mut headers = Headers::for_request();
    if matches!(request.mode, TransportMode::NoCors) {
        if !is_cors_safelisted_method(&request.method) {
            return Err(RequestError::MethodNotSafelisted);
        }
        headers.set_guard(Guard::RequestNoCors);
    }
    let filled = match &init.headers {
        Some(h) => headers.fill(Some(h)),
        None => match source {
            Some(s) => headers.copy_from_headers(s),
            None => Ok(()),
        },
    };
    match filled {
        Ok(()) => Ok(headers),
        Err(e) => Err(e),
    }
}

/// Refuses a body that goes with GET or HEAD.
pub fn check_body(
    request: &NetRequest,
    init_body: &Option<Option<ExtractedBody>>,
    input_has_body: bool,
) -> (r: Result<(), RequestError>)
    ensures
        r == match body_refusal(request@.method, init_body_view(*init_body), input_has_body) {
            Some(e) => Err::<(), RequestError>(e),
            None => Ok::<(), RequestError>(()),
        },
{
    if let Some(body) = init_body {
        if body.is_some() || input_has_body {
            if request.method.is_get() {
                return Err(RequestError::BodyWithGet);
            }
            if request.method.is_head() {
                return Err(RequestError::BodyWithHead);
            }
        }
    }
    Ok(())
}

/// Puts the content type of the caller's body into the header list, where
/// the body declares one and the list names none yet.
pub fn inject_content_type(headers: Headers, init_body: &Option<Option<ExtractedBody>>) -> (r:
    Result<Headers, RequestError>)
    ensures
        match with_content_type(headers@, init_body_view(*init_body)) {
            Ok(v) => r matches Ok(out) && out@ == v,
            Err(e) => r matches Err(refusal) && refusal == e,
        },
{
    let mut headers = headers;
    if let Some(Some(extracted)) = init_body {
        if let Some(content_type) = &extracted.content_type {
            proof {
                reveal_strlit("Content-Type");
            }
            let name = ByteString::new(to_vec(ascii_bytes("Content-Type")));
            match headers.has(&name) {
                Ok(true) => {},
                Ok(false) => {
                    match headers.append_bytes(name.as_bytes(), content_type.as_slice()) {
                        Ok(()) => {},
                        Err(e) => {
                            return Err(e);
                        },
                    }
                },
                Err(e) => {
                    return Err(e);
                },
            }
        }
    }
    Ok(headers)
}

impl Request {
    /// A handle for a descriptor seeded at `url`, with an empty header list
    /// that takes every header.
    fn new_inherited(global: &GlobalScope, url: Url) -> (r: Request)
        ensures
            r@ == (RequestView {
                request: seeded_request(global@, url@),
                body_stream: None,
                headers: HeadersView { guard: Guard::Open, entries: Seq::empty() },
            }),
    {
        Request {
            request: net_request_from_global(global, url),
            body_stream: None,
            headers: Headers::new(),
        }
    }

    /// A fresh handle for `url`: the descriptor that the surroundings seed,
    /// no body, and an empty header list that takes every header.
    pub fn new(global: &GlobalScope, url: Url) -> (r: Request)
        ensures
            r@ == (RequestView {
                request: seeded_request(global@, url@),
                body_stream: None,
                headers: HeadersView { guard: Guard::Open, entries: Seq::empty() },
            }),
            r@.legal(),
    {
        proof {
            reveal_strlit("GET");
        }
        Request::new_inherited(global, url)
    }

    /// Binds descriptor, header list and body into a handle.
    fn bind(
        request: NetRequest,
        headers: Headers,
        init_body: &Option<Option<ExtractedBody>>,
        input_body: Option<RequestBody>,
    ) -> (r: Request)
        ensures
            r@ == bound(request@, headers@, init_body_view(*init_body), body_view(input_body)),
            well_formed_entries(headers@.entries),
    {
        let mut request = request;
        request.headers = headers.get_headers_list();
        match init_body {
            Some(Some(extracted)) => {
                let (net_body, stream) = extracted.into_net_request_body();
                request.body = Some(net_body);
                Request { request, body_stream: Some(stream), headers }
            },
            _ => {
                request.body = input_body;
                Request { request, body_stream: None, headers }
            },
        }
    }

    /// A copy of the descriptor.
    pub fn get_request(&self) -> (r: NetRequest)
        ensures
            r@ == self@.request,
    {
        self.request.duplicate()
    }

    /// Whether the body has begun to be read.
    pub fn is_disturbed(&self) -> (r: bool)
        ensures
            r == self@.is_disturbed(),
    {
        match &self.body_stream {
            Some(stream) => stream.is_disturbed(),
            None => false,
        }
    }

    /// Whether a reader holds the body.
    pub fn is_locked(&self) -> (r: bool)
        ensures
            r == self@.is_locked(),
    {
        match &self.body_stream {
            Some(stream) => stream.is_locked(),
            None => false,
        }
    }

    /// The stream of the body, where one is bound.
    pub fn body(&self) -> (r: Option<BodyStream>)
        ensures
            r == self@.body_stream,
    {
        self.body_stream
    }

    /// The handle that comes of a baseline descriptor and the overrides.
    fn construct(
        global: &GlobalScope,
        baseline: NetRequest,
        fallback: Option<TransportMode>,
        source: Option<&Headers>,
        init: &RequestInit,
        parsed_referrer: Option<Url>,
    ) -> (r: Result<Request, RequestError>)
        requires
            baseline@.url_list.len() > 0,
            baseline@.mode.has_host_image(),
            fallback is Some || !(baseline@.mode is Navigate),
            fallback matches Some(m) ==> m.has_host_image(),
        ensures
            match constructed(
                global@,
                baseline@,
                fallback,
                headers_option_view(source),
                init@,
                url_option_view(parsed_referrer),
            ) {
                Ok(v) => r matches Ok(request) && request@ == v && v.legal(),
                Err(e) => r matches Err(refusal) && refusal == e,
            },
    {
        let ghost start = baseline@;
        let ghost referrer = url_option_view(parsed_referrer);
        let mut baseline = baseline;
        let mut input_body: Option<RequestBody> = None;
        core::mem::swap(&mut baseline.body, &mut input_body);
        assert(normalized_descriptor(global@, baseline@, fallback, init@, referrer)
            == normalized_descriptor(global@, start, fallback, init@, referrer));
        let request = match normalize_descriptor(global, baseline, fallback, init, parsed_referrer) {
            Ok(request) => request,
            Err(e) => {
                return Err(e);
            },
        };
        let filled = match populate_headers(&request, init, source) {
            Ok(headers) => headers,
            Err(e) => {
                return Err(e);
            },
        };
        match check_body(&request, &init.body, input_body.is_some()) {
            Ok(()) => {},
            Err(e) => {
                return Err(e);
            },
        }
        let headers = match inject_content_type(filled, &init.body) {
            Ok(headers) => headers,
            Err(e) => {
                return Err(e);
            },
        };
        Ok(Request::bind(request, headers, &init.body, input_body))
    }

    /// Makes a request for a URL that was already resolved against the base
    /// URL.  `parsed_url` is what the URL resolved to, and `parsed_referrer`
    /// what the referrer among the overrides resolved to; either is `None`
    /// where the text did not parse.
    pub fn from_resolved_url(
        global: &GlobalScope,
        parsed_url: Option<Url>,
        init: &RequestInit,
        parsed_referrer: Option<Url>,
    ) -> (r: Result<Request, RequestError>)
        ensures
            match constructed_from_url(
                global@,
                url_option_view(parsed_url),
                init@,
                url_option_view(parsed_referrer),
            ) {
                Ok(v) => r matches Ok(request) && request@ == v && v.legal(),
                Err(e) => r matches Err(refusal) && refusal == e,
            },
    {
        let url = match parsed_url {
            Some(url) => url,
            None => {
                return Err(RequestError::UrlNotParsed);
            },
        };
        if includes_credentials(&url) {
            return Err(RequestError::UrlHasCredentials);
        }
        let baseline = net_request_from_global(global, url);
        Request::construct(
            global,
            baseline,
            Some(TransportMode::CorsMode),
            None,
            init,
            parsed_referrer,
        )
    }

    /// Makes a request out of another, given what the referrer among the
    /// overrides resolved to.  On success the input has given its body away.
    pub fn from_resolved_request(
        global: &GlobalScope,
        input: &mut Request,
        init: &RequestInit,
        parsed_referrer: Option<Url>,
    ) -> (r: Result<Request, RequestError>)
        requires
            old(input)@.legal(),
        ensures
            match constructed_from_request(
                global@,
                old(input)@,
                init@,
                url_option_view(parsed_referrer),
            ) {
                Ok(v) => r matches Ok(request) && request@ == v && v.legal() && final(input)@ == (
                RequestView {
                    request: NetRequestView { body: None, ..old(input)@.request },
                    ..old(input)@
                }),
                Err(e) => r matches Err(refusal) && refusal == e && final(input)@ == old(input)@,
            },
            final(input)@.legal(),
    {
        if request_is_disturbed(input) || request_is_locked(input) {
            return Err(RequestError::InputDisturbedOrLocked);
        }
        let baseline = input.request.duplicate();
        let made = Request::construct(
            global,
            baseline,
            None,
            Some(&input.headers),
            init,
            parsed_referrer,
        );
        match made {
            Ok(request) => {
                input.request.body = None;
                Ok(request)
            },
            Err(e) => Err(e),
        }
    }

    /// Resolves the referrer among the overrides against the base URL.
    fn resolve_referrer(global: &GlobalScope, init: &RequestInit) -> (r: Option<Url>)
        ensures
            url_option_view(r) == resolved_referrer(global@, init@),
    {
        match &init.referrer {
            Some(text) => match global.api_base_url.join(text.as_str()) {
                Ok(url) => Some(url),
                Err(_) => None,
            },
            None => None,
        }
    }

    /// Makes a request for a URL, which is resolved against the base URL of
    /// the surroundings.
    pub fn from_url(global: &GlobalScope, url: &str, init: &RequestInit) -> (r: Result<
        Request,
        RequestError,
    >)
        ensures
            match constructed_from_url(
                global@,
                joined_url(global@.api_base_url.href, url@),
                init@,
                resolved_referrer(global@, init@),
            ) {
                Ok(v) => r matches Ok(request) && request@ == v && v.legal(),
                Err(e) => r matches Err(refusal) && refusal == e,
            },
    {
        let parsed_url = match global.api_base_url.join(url) {
            Ok(url) => Some(url),
            Err(_) => None,
        };
        let parsed_referrer = Request::resolve_referrer(global, init);
        Request::from_resolved_url(global, parsed_url, init, parsed_referrer)
    }

    /// Makes a request out of another.  On success the input has given its
    /// body away; on failure it is as it was.
    pub fn from_request(global: &GlobalScope, input: &mut Request, init: &RequestInit) -> (r:
        Result<Request, RequestError>)
        requires
            old(input)@.legal(),
        ensures
            match constructed_from_request(
                global@,
                old(input)@,
                init@,
                resolved_referrer(global@, init@),
            ) {
                Ok(v) => r matches Ok(request) && request@ == v && v.legal() && final(input)@ == (
                RequestView {
                    request: NetRequestView { body: None, ..old(input)@.request },
                    ..old(input)@
                }),
                Err(e) => r matches Err(refusal) && refusal == e && final(input)@ == old(input)@,
            },
            final(input)@.legal(),
    {
        let parsed_referrer = Request::resolve_referrer(global, init);
        Request::from_resolved_request(global, input, init, parsed_referrer)
    }

    /// Makes a request from either kind of input.
    pub fn constructor(global: &GlobalScope, input: &mut RequestInfo, init: &RequestInit) -> (r:
        Result<Request, RequestError>)
        requires
            *old(input) matches RequestInfo::Request(source) ==> source@.legal(),
        ensures
            match *old(input) {
                RequestInfo::Url(url) => *final(input) == *old(input) && match constructed_from_url(
                    global@,
                    joined_url(global@.api_base_url.href, url@),
                    init@,
                    resolved_referrer(global@, init@),
                ) {
                    Ok(v) => r matches Ok(request) && request@ == v && v.legal(),
                    Err(e) => r matches Err(refusal) && refusal == e,
                },
                RequestInfo::Request(source) => *final(input) matches RequestInfo::Request(after)
                    && after@.legal() && match constructed_from_request(
                    global@,
                    source@,
                    init@,
                    resolved_referrer(global@, init@),
                ) {
                    Ok(v) => r matches Ok(request) && request@ == v && v.legal() && after@ == (
                    RequestView {
                        request: NetRequestView { body: None, ..source@.request },
                        ..source@
                    }),
                    Err(e) => r matches Err(refusal) && refusal == e && after@ == source@,
                },
            },
    {
        match input {
            RequestInfo::Url(url) => Request::from_url(global, url.as_str(), init),
            RequestInfo::Request(source) => Request::from_request(global, source, init),
        }
    }

    /// A clone of a handle whose body is untouched: the same descriptor, a
    /// header list of its own with the same headers under the same guard,
    /// and no stream.  `try_clone` is the entry that looks at the body.
    pub fn clone_from(r: &Request) -> (made: Result<Request, RequestError>)
        requires
            r@.legal(),
            !r@.is_disturbed(),
            !r@.is_locked(),
        ensures
            made matches Ok(copy) && copy@ == cloned(r@) && copy@.legal(),
    {
        let guard = r.headers.get_guard();
        let mut headers = Headers::new();
        let ghost entries = r@.headers.entries;
        proof {
            lemma_copy_from(entries, 0);
            assert(entries.subrange(0, 0) =~= Seq::<Entry>::empty());
            assert(entries.subrange(0, entries.len() as int) =~= entries);
        }
        match headers.copy_from_headers(&r.headers) {
            Ok(()) => {},
            Err(e) => {
                return Err(e);
            },
        }
        headers.set_guard(guard);
        let mut request = r.request.duplicate();
        request.headers = headers.get_headers_list();
        Ok(Request { request, body_stream: None, headers })
    }

    /// A clone of the handle.  A handle whose body is locked or was read
    /// cannot be cloned; every other handle can.
    pub fn try_clone(&self) -> (made: Result<Request, RequestError>)
        requires
            self@.legal(),
        ensures
            self@.is_locked() ==> (made matches Err(e) && e == RequestError::RequestLocked),
            !self@.is_locked() && self@.is_disturbed() ==> (made matches Err(e) && e
                == RequestError::RequestDisturbed),
            !self@.is_locked() && !self@.is_disturbed() ==> (made matches Ok(copy) && copy@
                == cloned(self@) && copy@.legal()),
    {
        if request_is_locked(self) {
            return Err(RequestError::RequestLocked);
        }
        if request_is_disturbed(self) {
            return Err(RequestError::RequestDisturbed);
        }
        Request::clone_from(self)
    }

    /// Appends a header to the header list and brings the descriptor's
    /// headers in line with it.
    pub fn append_header(&mut self, name: &ByteString, value: &ByteString) -> (r: Result<
        (),
        RequestError,
    >)
        requires
            old(self)@.legal(),
        ensures
            match append_outcome(old(self)@.headers, name@, value@) {
                Ok(h) => r is Ok && final(self)@ == (RequestView {
                    request: NetRequestView { headers: h.entries, ..old(self)@.request },
                    headers: h,
                    ..old(self)@
                }),
                Err(e) => r == Err::<(), RequestError>(e) && final(self)@ == old(self)@,
            },
            final(self)@.legal(),
    {
        match self.headers.append(name, value) {
            Ok(()) => {
                self.request.headers = self.headers.get_headers_list();
                Ok(())
            },
            Err(e) => Err(e),
        }
    }

    /// The method.
    pub fn method(&self) -> (r: ByteString)
        ensures
            r@ == self@.request.method,
    {
        ByteString::new(to_vec(self.request.method.as_bytes()))
    }

    /// The URL the request was made for: the first of its list.
    pub fn url(&self) -> (r: String)
        ensures
            self@.request.url_list.len() > 0 ==> r@ == self@.request.url_list[0].href,
            self@.request.url_list.len() == 0 ==> r@ == Seq::<char>::empty(),
    {
        if self.request.url_list.len() > 0 {
            self.request.url_list[0].href.clone()
        } else {
            String::new()
        }
    }

    /// The header list.
    pub fn headers(&self) -> (r: &Headers)
        ensures
            r@ == self@.headers,
    {
        &self.headers
    }

    /// The destination.
    pub fn destination(&self) -> (r: RequestDestination)
        requires
            self@.request.destination.has_host_image(),
        ensures
            r == self@.request.destination.to_host(),
    {
        self.request.destination.convert()
    }

    /// The referrer: nothing, `about:client`, or a URL.
    pub fn referrer(&self) -> (r: String)
        ensures
            r@ == self@.request.referrer.serialized(),
    {
        match &self.request.referrer {
            Referrer::NoReferrer => String::new(),
            Referrer::Client(_) => "about:client".to_owned(),
            Referrer::ReferrerUrl(u) => u.href.clone(),
        }
    }

    /// The referrer policy.
    pub fn referrer_policy(&self) -> (r: ReferrerPolicy)
        ensures
            r == self@.request.referrer_policy.to_host(),
    {
        self.request.referrer_policy.convert()
    }

    /// The mode.
    pub fn mode(&self) -> (r: RequestMode)
        requires
            self@.request.mode.has_host_image(),
        ensures
            r == self@.request.mode.to_host(),
    {
        self.request.mode.convert()
    }

    /// The credentials mode.
    pub fn credentials(&self) -> (r: RequestCredentials)
        ensures
            r == self@.request.credentials_mode.to_host(),
    {
        self.request.credentials_mode.convert()
    }

    /// The cache mode.
    pub fn cache(&self) -> (r: RequestCache)
        ensures
            r == self@.request.cache_mode.to_host(),
    {
        self.request.cache_mode.convert()
    }

    /// The redirect mode.
    pub fn redirect(&self) -> (r: RequestRedirect)
        ensures
            r == self@.request.redirect_mode.to_host(),
    {
        self.request.redirect_mode.convert()
    }

    /// The integrity metadata.
    pub fn integrity(&self) -> (r: String)
        ensures
            r@ == self@.request.integrity_metadata,
    {
        self.request.integrity_metadata.clone()
    }

    /// The stream of the body, where one is bound.
    pub fn get_body(&self) -> (r: Option<BodyStream>)
        ensures
            r == self@.body_stream,
    {
        self.body()
    }

    /// Whether the body has begun to be read.
    pub fn body_used(&self) -> (r: bool)
        ensures
            r == self@.is_disturbed(),
    {
        self.is_disturbed()
    }

    /// Hands the stream of the body to a reader.  Only a bound stream that
    /// nobody has read or holds can be handed over.
    pub fn lock_body(&mut self) -> (r: Result<(), RequestError>)
        ensures
            old(self)@.body_stream == Some(BodyStream::Unconsumed) ==> r is Ok && final(self)@ == (
            RequestView { body_stream: Some(BodyStream::Locked), ..old(self)@ }),
            old(self)@.body_stream != Some(BodyStream::Unconsumed) ==> r == Err::<
                (),
                RequestError,
            >(RequestError::BodyDisturbedOrLocked) && final(self)@ == old(self)@,
    {
        match self.body_stream {
            Some(BodyStream::Unconsumed) => {
                self.body_stream = Some(BodyStream::Locked);
                Ok(())
            },
            _ => Err(RequestError::BodyDisturbedOrLocked),
        }
    }

    /// Reads the body, once and for all: the payload is handed out and the
    /// stream, where one is bound, is consumed.  A body that is locked or
    /// was read is refused.  A request without a body reads as no bytes.
    pub fn consume_body(&mut self) -> (r: Result<Vec<u8>, RequestError>)
        ensures
            old(self)@.is_locked() || old(self)@.is_disturbed() ==> (r matches Err(e) && e
                == RequestError::BodyDisturbedOrLocked) && final(self)@ == old(self)@,
            !(old(self)@.is_locked() || old(self)@.is_disturbed()) ==> (r matches Ok(bytes)
                && bytes@ == payload_of(old(self)@.request.body)) && final(self)@ == (RequestView {
                body_stream: consumed(old(self)@.body_stream),
                ..old(self)@
            }),
    {
        if self.is_locked() || self.is_disturbed() {
            return Err(RequestError::BodyDisturbedOrLocked);
        }
        if self.body_stream.is_some() {
            self.body_stream = Some(BodyStream::Consumed);
        }
        match &self.request.body {
            Some(body) => Ok(to_vec(body.payload.as_slice())),
            None => Ok(Vec::new()),
        }
    }
}

/// Whether the body of the request has begun to be read.
pub fn request_is_disturbed(input: &Request) -> (r: bool)
    ensures
        r == input@.is_disturbed(),
{
    input.is_disturbed()
}

/// Whether a reader holds the body of the request.
pub fn request_is_locked(input: &Request) -> (r: bool)
    ensures
        r == input@.is_locked(),
{
    input.is_locked()
}

} // verus!
