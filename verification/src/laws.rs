//! What holds of request construction whatever the inputs: laws over the
//! functions that say what a construction gives.

use vstd::prelude::*;
use crate::body::ExtractedBodyView;
use crate::descriptor::{GlobalScopeView, NetRequestView};
use crate::error::RequestError;
use crate::header_map::{is_token, is_token_byte, lower, lower_byte, Entry};
use crate::guard::Guard;
use crate::headers::{lemma_fill_from_well_formed, HeadersView};
use crate::host::{RequestCache, RequestMode};
use crate::init::{RequestInitView, WindowInit};
use crate::method::{
    connect_bytes, cors_safelisted_method, delete_bytes, get_bytes, head_bytes, options_bytes,
    post_bytes, put_bytes, trace_bytes, track_bytes,
};
use crate::normalize::method_for;
use crate::request::{
    constructed, constructed_from_request, constructed_from_url, guard_for, RequestView,
};
use crate::transport::TransportMode;
use crate::web_url::UrlView;

verus! {

/// The overrides of a caller who asks for a mode and a method and nothing
/// else.
pub open spec fn only_mode_and_method(init: RequestInitView) -> bool {
    &&& init.body is None
    &&& init.cache is None
    &&& init.credentials is None
    &&& init.headers is None
    &&& init.integrity is None
    &&& init.redirect is None
    &&& init.referrer is None
    &&& init.referrer_policy is None
    &&& init.window == WindowInit::Absent
}

/// The overrides of a caller who asks for a mode and a cache mode and
/// nothing else.
pub open spec fn only_mode_and_cache(init: RequestInitView) -> bool {
    &&& init.body is None
    &&& init.credentials is None
    &&& init.headers is None
    &&& init.integrity is None
    &&& init.method is None
    &&& init.redirect is None
    &&& init.referrer is None
    &&& init.referrer_policy is None
    &&& init.window == WindowInit::Absent
}

/// A request for a URL without credentials, made without overrides, is a
/// GET in `cors` mode for that URL, without headers and without a body.
pub proof fn law_plain_url(
    global: GlobalScopeView,
    url: UrlView,
    parsed_referrer: Option<UrlView>,
)
    requires
        !url.includes_credentials(),
    ensures
        constructed_from_url(global, Some(url), RequestInitView::none(), parsed_referrer)
            matches Ok(made) && made.request.mode == TransportMode::CorsMode
            && made.request.method == get_bytes() && made.headers.entries == Seq::<Entry>::empty()
            && made.request.headers == Seq::<Entry>::empty() && made.request.url_list == seq![url]
            && made.request.body is None && made.body_stream is None,
{
}

/// A URL with a user name or a password is refused, whatever the overrides;
/// and so is a URL that does not parse.
pub proof fn law_url_credentials(
    global: GlobalScopeView,
    url: UrlView,
    init: RequestInitView,
    parsed_referrer: Option<UrlView>,
)
    requires
        url.username.len() > 0 || url.password is Some,
    ensures
        constructed_from_url(global, Some(url), init, parsed_referrer) == Err::<
            RequestView,
            RequestError,
        >(RequestError::UrlHasCredentials),
        constructed_from_url(global, None, init, parsed_referrer) == Err::<
            RequestView,
            RequestError,
        >(RequestError::UrlNotParsed),
{
}

/// A common method is the same method however its letters are capitalised:
/// bytes that spell DELETE, GET, HEAD, OPTIONS, POST or PUT in any case
/// stand for that method in capitals.
pub proof fn law_common_method_in_any_case(m: Seq<u8>, c: Seq<u8>)
    requires
        c == delete_bytes() || c == get_bytes() || c == head_bytes() || c == options_bytes() || c
            == post_bytes() || c == put_bytes(),
        lower(m) == lower(c),
    ensures
        method_for(m) == Ok::<Seq<u8>, RequestError>(c),
{
    reveal_strlit("DELETE");
    reveal_strlit("GET");
    reveal_strlit("HEAD");
    reveal_strlit("OPTIONS");
    reveal_strlit("POST");
    reveal_strlit("PUT");
    reveal_strlit("CONNECT");
    reveal_strlit("TRACE");
    reveal_strlit("TRACK");
    assert(lower(m).len() == m.len());
    assert(lower(c).len() == c.len());
    assert(lower(delete_bytes()).len() == 6);
    assert(lower(get_bytes()).len() == 3);
    assert(lower(head_bytes()).len() == 4);
    assert(lower(options_bytes()).len() == 7);
    assert(lower(post_bytes()).len() == 4);
    assert(lower(put_bytes()).len() == 3);
    assert(lower(connect_bytes()).len() == 7);
    assert(lower(trace_bytes()).len() == 5);
    assert(lower(track_bytes()).len() == 5);
    assert(lower(get_bytes())[0] != lower(put_bytes())[0]);
    assert(lower(head_bytes())[0] != lower(post_bytes())[0]);
    assert(lower(options_bytes())[0] != lower(connect_bytes())[0]);
    assert(m.len() == c.len());
    assert forall|i: int| 0 <= i < m.len() implies is_token_byte(#[trigger] m[i]) by {
        assert(lower(m)[i] == lower(c)[i]);
        assert(lower(m)[i] == lower_byte(m[i]));
        assert(lower(c)[i] == lower_byte(c[i]));
        assert(0x41 <= c[i] <= 0x5a);
    }
    assert(is_token(m));
}

/// No request comes out in `no-cors` mode with a method other than GET,
/// HEAD and POST: whatever the baseline and the overrides, a construction
/// that ends in `no-cors` mode with another method is refused.
pub proof fn law_no_cors_needs_safelisted_method(
    global: GlobalScopeView,
    baseline: NetRequestView,
    fallback: Option<TransportMode>,
    source: Option<HeadersView>,
    init: RequestInitView,
    parsed_referrer: Option<UrlView>,
)
    ensures
        constructed(global, baseline, fallback, source, init, parsed_referrer) matches Ok(made)
            ==> (made.request.mode == TransportMode::NoCors ==> cors_safelisted_method(
            made.request.method,
        )),
{
}

/// Asking for `no-cors` together with PUT is refused, whatever else is
/// asked and whatever the input.
pub proof fn law_no_cors_with_put(
    global: GlobalScopeView,
    baseline: NetRequestView,
    fallback: Option<TransportMode>,
    source: Option<HeadersView>,
    init: RequestInitView,
    parsed_referrer: Option<UrlView>,
)
    requires
        init.mode == Some(RequestMode::NoCors),
        init.method matches Some(m) && method_for(m) == Ok::<Seq<u8>, RequestError>(put_bytes()),
    ensures
        constructed(global, baseline, fallback, source, init, parsed_referrer) is Err,
{
    reveal_strlit("PUT");
    reveal_strlit("GET");
    reveal_strlit("HEAD");
    reveal_strlit("POST");
    assert(put_bytes().len() == 3);
    assert(head_bytes().len() == 4);
    assert(post_bytes().len() == 4);
    assert(put_bytes()[0] != get_bytes()[0]);
}

/// Asking for `no-cors` together with GET, HEAD or POST, and for nothing
/// else, of a URL without credentials succeeds, and the request is in
/// `no-cors` mode with that method.
pub proof fn law_no_cors_with_safelisted_method(
    global: GlobalScopeView,
    url: UrlView,
    init: RequestInitView,
    parsed_referrer: Option<UrlView>,
)
    requires
        !url.includes_credentials(),
        only_mode_and_method(init),
        init.mode == Some(RequestMode::NoCors),
        init.method matches Some(m) && (method_for(m) matches Ok(method)
            && cors_safelisted_method(method)),
    ensures
        constructed_from_url(global, Some(url), init, parsed_referrer) matches Ok(made)
            && made.request.mode == TransportMode::NoCors && Ok::<Seq<u8>, RequestError>(
            made.request.method,
        ) == method_for(init.method->0),
{
}

/// Asking for `no-cors` together with GET, HEAD or POST, and for nothing
/// else, of a request whose body is untouched and whose cache mode is not
/// `only-if-cached` succeeds.
pub proof fn law_no_cors_with_safelisted_method_of_request(
    global: GlobalScopeView,
    source: RequestView,
    init: RequestInitView,
    parsed_referrer: Option<UrlView>,
)
    requires
        source.legal(),
        !source.is_disturbed(),
        !source.is_locked(),
        !(source.request.cache_mode is OnlyIfCached),
        only_mode_and_method(init),
        init.mode == Some(RequestMode::NoCors),
        init.method matches Some(m) && (method_for(m) matches Ok(method)
            && cors_safelisted_method(method)),
    ensures
        constructed_from_request(global, source, init, parsed_referrer) matches Ok(made)
            && made.request.mode == TransportMode::NoCors && Ok::<Seq<u8>, RequestError>(
            made.request.method,
        ) == method_for(init.method->0),
{
    let fresh = HeadersView { guard: Guard::RequestNoCors, entries: Seq::empty() };
    lemma_fill_from_well_formed(fresh, source.headers.entries);
}

/// No request comes out with the cache mode `only-if-cached` in another
/// mode than `same-origin`.
pub proof fn law_only_if_cached_needs_same_origin(
    global: GlobalScopeView,
    baseline: NetRequestView,
    fallback: Option<TransportMode>,
    source: Option<HeadersView>,
    init: RequestInitView,
    parsed_referrer: Option<UrlView>,
)
    ensures
        constructed(global, baseline, fallback, source, init, parsed_referrer) matches Ok(made)
            ==> (made.request.cache_mode is OnlyIfCached ==> made.request.mode is SameOrigin),
{
}

/// Asking for `only-if-cached` together with `cors` is refused, whatever
/// else is asked and whatever the input.
pub proof fn law_only_if_cached_with_cors(
    global: GlobalScopeView,
    baseline: NetRequestView,
    fallback: Option<TransportMode>,
    source: Option<HeadersView>,
    init: RequestInitView,
    parsed_referrer: Option<UrlView>,
)
    requires
        init.cache == Some(RequestCache::OnlyIfCached),
        init.mode == Some(RequestMode::Cors),
    ensures
        constructed(global, baseline, fallback, source, init, parsed_referrer) is Err,
{
}

/// Asking for `only-if-cached` together with `same-origin`, and for nothing
/// else, of a URL without credentials succeeds.
pub proof fn law_only_if_cached_with_same_origin(
    global: GlobalScopeView,
    url: UrlView,
    init: RequestInitView,
    parsed_referrer: Option<UrlView>,
)
    requires
        !url.includes_credentials(),
        only_mode_and_cache(init),
        init.cache == Some(RequestCache::OnlyIfCached),
        init.mode == Some(RequestMode::SameOrigin),
    ensures
        constructed_from_url(global, Some(url), init, parsed_referrer) matches Ok(made)
            && made.request.mode == TransportMode::SameOrigin && made.request.cache_mode
            is OnlyIfCached,
{
}

/// Asking for `only-if-cached` together with `same-origin`, and for nothing
/// else, of a request whose body is untouched succeeds.
pub proof fn law_only_if_cached_with_same_origin_of_request(
    global: GlobalScopeView,
    source: RequestView,
    init: RequestInitView,
    parsed_referrer: Option<UrlView>,
)
    requires
        source.legal(),
        !source.is_disturbed(),
        !source.is_locked(),
        only_mode_and_cache(init),
        init.cache == Some(RequestCache::OnlyIfCached),
        init.mode == Some(RequestMode::SameOrigin),
    ensures
        constructed_from_request(global, source, init, parsed_referrer) matches Ok(made)
            && made.request.mode == TransportMode::SameOrigin && made.request.cache_mode
            is OnlyIfCached,
{
    let fresh = HeadersView { guard: Guard::Request, entries: Seq::empty() };
    lemma_fill_from_well_formed(fresh, source.headers.entries);
}

/// A request made out of another without overrides succeeds as long as the
/// body of the other is untouched, and has the other's method, modes and
/// current URL.
pub proof fn law_request_without_overrides(
    global: GlobalScopeView,
    source: RequestView,
    parsed_referrer: Option<UrlView>,
)
    requires
        source.legal(),
        !source.is_disturbed(),
        !source.is_locked(),
    ensures
        constructed_from_request(global, source, RequestInitView::none(), parsed_referrer)
            matches Ok(made) && made.request.method == source.request.method
            && made.request.mode == source.request.mode && made.request.url_list
            == seq![source.request.current_url()] && made.request.body == source.request.body
            && made.request.referrer == source.request.referrer && made.request.cache_mode
            == source.request.cache_mode && made.body_stream is None,
{
    let fresh = HeadersView { guard: guard_for(source.request.mode), entries: Seq::empty() };
    lemma_fill_from_well_formed(fresh, source.headers.entries);
}

/// A body together with GET is refused, whatever the headers and whatever
/// else is asked.
pub proof fn law_body_with_get(
    global: GlobalScopeView,
    baseline: NetRequestView,
    fallback: Option<TransportMode>,
    source: Option<HeadersView>,
    init: RequestInitView,
    parsed_referrer: Option<UrlView>,
    body: ExtractedBodyView,
)
    requires
        init.body == Some(Some(body)),
        init.method matches Some(m) && method_for(m) == Ok::<Seq<u8>, RequestError>(get_bytes()),
    ensures
        constructed(global, baseline, fallback, source, init, parsed_referrer) is Err,
{
}

/// A body without a method among the overrides is refused where the
/// baseline's method is GET, as it is for every URL.
pub proof fn law_body_with_default_get(
    global: GlobalScopeView,
    url: UrlView,
    init: RequestInitView,
    parsed_referrer: Option<UrlView>,
    body: ExtractedBodyView,
)
    requires
        init.body == Some(Some(body)),
        init.method is None,
    ensures
        constructed_from_url(global, Some(url), init, parsed_referrer) is Err,
{
}

} // verus!
