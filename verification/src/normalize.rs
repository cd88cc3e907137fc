//! The descriptor's part of request construction: the caller's overrides
//! are laid over a baseline descriptor in a fixed order, and the first
//! illegal combination ends the construction.

use vstd::prelude::*;
use crate::byte_string::ByteString;
use crate::descriptor::{
    net_request_from_global, seeded_request, GlobalScope, GlobalScopeView, NetRequest,
    NetRequestView, Origin, OriginView, Referrer, ReferrerView, Window,
};
use crate::error::RequestError;
use crate::host::RequestMode;
use crate::init::{RequestInit, RequestInitView, WindowInit};
use crate::header_map::is_token;
use crate::method::{
    forbidden_method, is_forbidden_method, is_method, lemma_token_is_text, normalize_method,
    normalized_method, Method,
};
use crate::transport::{CacheMode, TransportMode, TransportReferrerPolicy};
use crate::web_url::{Url, UrlView};

verus! {

pub open spec fn url_option_view(url: Option<Url>) -> Option<UrlView> {
    match url {
        Some(u) => Some(u@),
        None => None,
    }
}

/// The window of the new request: a caller who names a window at all, and
/// may only name null, gets none.
pub open spec fn window_of(init: WindowInit) -> Result<Window, RequestError> {
    match init {
        WindowInit::Absent => Ok(Window::Client),
        WindowInit::Null => Ok(Window::NoWindow),
        WindowInit::Object => Err(RequestError::WindowNotNull),
    }
}

/// The fresh descriptor at the baseline's current URL that takes over what
/// the baseline says of method, headers, referrer, modes and integrity.
pub open spec fn carried_over(
    global: GlobalScopeView,
    baseline: NetRequestView,
    window: Window,
) -> NetRequestView {
    NetRequestView {
        method: baseline.method,
        headers: baseline.headers,
        unsafe_request: true,
        window: window,
        origin: OriginView::Client,
        referrer: baseline.referrer,
        referrer_policy: baseline.referrer_policy,
        mode: baseline.mode,
        credentials_mode: baseline.credentials_mode,
        cache_mode: baseline.cache_mode,
        redirect_mode: baseline.redirect_mode,
        integrity_metadata: baseline.integrity_metadata,
        ..seeded_request(global, baseline.current_url())
    }
}

/// Where the caller asked for anything, a navigation becomes a same-origin
/// request, and referrer and referrer policy start from the defaults.
pub open spec fn reset_for_overrides(
    global: GlobalScopeView,
    request: NetRequestView,
    any_override: bool,
) -> NetRequestView {
    if any_override {
        NetRequestView {
            mode: if request.mode is Navigate {
                TransportMode::SameOrigin
            } else {
                request.mode
            },
            referrer: global.referrer,
            referrer_policy: TransportReferrerPolicy::EmptyString,
            ..request
        }
    } else {
        request
    }
}

/// The referrer that the caller's text stands for.  No text is no referrer;
/// a text that does not parse is refused; `about:client` and a URL of
/// another origin than the base URL's stand for the default referrer.
pub open spec fn referrer_for(
    global: GlobalScopeView,
    text: Seq<char>,
    parsed: Option<UrlView>,
) -> Result<ReferrerView, RequestError> {
    if text.len() == 0 {
        Ok(ReferrerView::NoReferrer)
    } else {
        match parsed {
            None => Err(RequestError::ReferrerNotParsed),
            Some(u) => if u.is_about_client() || !u.origin.same_as(global.api_base_url.origin) {
                Ok(global.referrer)
            } else {
                Ok(ReferrerView::ReferrerUrl(u))
            },
        }
    }
}

/// The mode that the caller's wish and the fallback give: the wish wins, and
/// a navigation is refused.
pub open spec fn mode_for(
    current: TransportMode,
    wish: Option<RequestMode>,
    fallback: Option<TransportMode>,
) -> Result<TransportMode, RequestError> {
    let chosen = match wish {
        Some(m) => Some(m.to_transport()),
        None => fallback,
    };
    match chosen {
        Some(TransportMode::Navigate) => Err(RequestError::ModeIsNavigate),
        Some(m) => Ok(m),
        None => Ok(current),
    }
}

/// The method that the caller's bytes stand for: they must be a token and
/// name no forbidden method; a common method comes out in capitals.
pub open spec fn method_for(bytes: Seq<u8>) -> Result<Seq<u8>, RequestError> {
    if !is_token(bytes) {
        Err(RequestError::MethodNotToken)
    } else if forbidden_method(bytes) {
        Err(RequestError::MethodForbidden)
    } else {
        match normalized_method(bytes) {
            Some(m) => Ok(m),
            None => Err(RequestError::MethodNotToken),
        }
    }
}

/// The descriptor with the caller's referrer, where one was given.
pub open spec fn with_referrer(
    global: GlobalScopeView,
    request: NetRequestView,
    init: RequestInitView,
    parsed_referrer: Option<UrlView>,
) -> Result<NetRequestView, RequestError> {
    match init.referrer {
        None => Ok(request),
        Some(text) => match referrer_for(global, text, parsed_referrer) {
            Err(e) => Err(e),
            Ok(referrer) => Ok(NetRequestView { referrer: referrer, ..request }),
        },
    }
}

/// The descriptor with the caller's referrer policy, mode, credentials
/// mode, cache mode, redirect mode and integrity metadata, where given.  A
/// navigation is refused, and so is `only-if-cached` in any mode but
/// `same-origin`.
pub open spec fn with_modes(
    request: NetRequestView,
    init: RequestInitView,
    fallback: Option<TransportMode>,
) -> Result<NetRequestView, RequestError> {
    match mode_for(request.mode, init.mode, fallback) {
        Err(e) => Err(e),
        Ok(mode) => {
            let cache_mode = match init.cache {
                Some(c) => c.to_transport(),
                None => request.cache_mode,
            };
            if cache_mode is OnlyIfCached && !(mode is SameOrigin) {
                Err(RequestError::OnlyIfCachedNeedsSameOrigin)
            } else {
                Ok(
                    NetRequestView {
                        referrer_policy: match init.referrer_policy {
                            Some(p) => p.to_transport(),
                            None => request.referrer_policy,
                        },
                        mode: mode,
                        credentials_mode: match init.credentials {
                            Some(c) => c.to_transport(),
                            None => request.credentials_mode,
                        },
                        cache_mode: cache_mode,
                        redirect_mode: match init.redirect {
                            Some(r) => r.to_transport(),
                            None => request.redirect_mode,
                        },
                        integrity_metadata: match init.integrity {
                            Some(i) => i,
                            None => request.integrity_metadata,
                        },
                        ..request
                    },
                )
            }
        },
    }
}

/// The descriptor with the caller's method, where one was given.
pub open spec fn with_method(request: NetRequestView, init: RequestInitView) -> Result<
    NetRequestView,
    RequestError,
> {
    match init.method {
        None => Ok(request),
        Some(bytes) => match method_for(bytes) {
            Err(e) => Err(e),
            Ok(method) => Ok(NetRequestView { method: method, ..request }),
        },
    }
}

/// The descriptor that the overrides make of a baseline, up to the point
/// where headers and body are bound, or the first refusal on the way: the
/// window is looked at first, then the referrer, then the modes, then the
/// method.  `parsed_referrer` is what the caller's referrer resolves to.
pub open spec fn normalized_descriptor(
    global: GlobalScopeView,
    baseline: NetRequestView,
    fallback: Option<TransportMode>,
    init: RequestInitView,
    parsed_referrer: Option<UrlView>,
) -> Result<NetRequestView, RequestError> {
    match window_of(init.window) {
        Err(e) => Err(e),
        Ok(window) => {
            let seeded = reset_for_overrides(
                global,
                carried_over(global, baseline, window),
                init.has_any_override(),
            );
            match with_referrer(global, seeded, init, parsed_referrer) {
                Err(e) => Err(e),
                Ok(referred) => match with_modes(referred, init, fallback) {
                    Err(e) => Err(e),
                    Ok(moded) => with_method(moded, init),
                },
            }
        },
    }
}

/// The window of the new request.
pub fn window_from(init: WindowInit) -> (r: Result<Window, RequestError>)
    ensures
        r == window_of(init),
{
    match init {
        WindowInit::Absent => Ok(Window::Client),
        WindowInit::Null => Ok(Window::NoWindow),
        WindowInit::Object => Err(RequestError::WindowNotNull),
    }
}

/// The referrer that the caller's text stands for, given what the text
/// resolves to against the base URL.
pub fn referrer_from(global: &GlobalScope, text: &str, parsed: Option<Url>) -> (r: Result<
    Referrer,
    RequestError,
>)
    ensures
        match referrer_for(global@, text@, url_option_view(parsed)) {
            Ok(v) => r matches Ok(referrer) && referrer@ == v,
            Err(e) => r matches Err(refusal) && refusal == e,
        },
{
    if text.is_empty() {
        return Ok(Referrer::NoReferrer);
    }
    match parsed {
        None => Err(RequestError::ReferrerNotParsed),
        Some(u) => {
            if u.is_about_client() || !u.origin.same_as(&global.api_base_url.origin) {
                Ok(global.referrer.duplicate())
            } else {
                Ok(Referrer::ReferrerUrl(u))
            }
        },
    }
}

/// The mode that the caller's wish and the fallback give.
pub fn mode_from(current: TransportMode, wish: Option<RequestMode>, fallback: Option<TransportMode>) -> (r:
    Result<TransportMode, RequestError>)
    ensures
        r == mode_for(current, wish, fallback),
{
    let chosen = match wish {
        Some(m) => Some(m.convert()),
        None => fallback,
    };
    match chosen {
        Some(TransportMode::Navigate) => Err(RequestError::ModeIsNavigate),
        Some(m) => Ok(m),
        None => Ok(current),
    }
}

/// The method that the caller's bytes stand for.
pub fn method_from(bytes: &ByteString) -> (r: Result<Method, RequestError>)
    ensures
        match method_for(bytes@) {
            Ok(v) => r matches Ok(method) && method@ == v,
            Err(e) => r matches Err(refusal) && refusal == e,
        },
{
    if !is_method(bytes) {
        return Err(RequestError::MethodNotToken);
    }
    if is_forbidden_method(bytes) {
        return Err(RequestError::MethodForbidden);
    }
    proof {
        lemma_token_is_text(bytes@);
    }
    match bytes.as_str() {
        Some(text) => match normalize_method(text) {
            Ok(method) => Ok(method),
            Err(_) => Err(RequestError::MethodNotToken),
        },
        None => Err(RequestError::MethodNotToken),
    }
}

/// The fresh descriptor at the baseline's current URL that takes over what
/// the baseline says of method, headers, referrer, modes and integrity.
pub fn carry_over(global: &GlobalScope, baseline: NetRequest, window: Window) -> (r: NetRequest)
    requires
        baseline.url_list@.len() > 0,
    ensures
        r@ == carried_over(global@, baseline@, window),
{
    let mut request = net_request_from_global(global, baseline.current_url());
    request.method = baseline.method;
    request.headers = baseline.headers;
    request.unsafe_request = true;
    request.window = window;
    request.origin = Origin::Client;
    request.referrer = baseline.referrer;
    request.referrer_policy = baseline.referrer_policy;
    request.mode = baseline.mode;
    request.credentials_mode = baseline.credentials_mode;
    request.cache_mode = baseline.cache_mode;
    request.redirect_mode = baseline.redirect_mode;
    request.integrity_metadata = baseline.integrity_metadata;
    request
}

/// Where the caller asked for anything, turns a navigation into a
/// same-origin request and puts referrer and referrer policy back to the
/// defaults.
pub fn reset_if_overridden(global: &GlobalScope, request: NetRequest, any_override: bool) -> (r:
    NetRequest)
    ensures
        r@ == reset_for_overrides(global@, request@, any_override),
{
    let mut request = request;
    if any_override {
        if let TransportMode::Navigate = request.mode {
            request.mode = TransportMode::SameOrigin;
        }
        request.referrer = global.referrer.duplicate();
        request.referrer_policy = TransportReferrerPolicy::EmptyString;
    }
    request
}

/// Sets the caller's referrer, where one was given.
pub fn apply_referrer(
    global: &GlobalScope,
    request: NetRequest,
    init: &RequestInit,
    parsed_referrer: Option<Url>,
) -> (r: Result<NetRequest, RequestError>)
    ensures
        match with_referrer(global@, request@, init@, url_option_view(parsed_referrer)) {
            Ok(v) => r matches Ok(out) && out@ == v,
            Err(e) => r matches Err(refusal) && refusal == e,
        },
{
    let mut request = request;
    if let Some(text) = &init.referrer {
        match referrer_from(global, text.as_str(), parsed_referrer) {
            Ok(referrer) => {
                request.referrer = referrer;
            },
            Err(e) => {
                return Err(e);
            },
        }
    }
    Ok(request)
}

/// Sets the caller's referrer policy, mode, credentials mode, cache mode,
/// redirect mode and integrity metadata, where given.
pub fn apply_modes(request: NetRequest, init: &RequestInit, fallback: Option<TransportMode>) -> (r:
    Result<NetRequest, RequestError>)
    ensures
        match with_modes(request@, init@, fallback) {
            Ok(v) => r matches Ok(out) && out@ == v,
            Err(e) => r matches Err(refusal) && refusal == e,
        },
{
    let mode = match mode_from(request.mode, init.mode, fallback) {
        Ok(mode) => mode,
        Err(e) => {
            return Err(e);
        },
    };
    let cache_mode = match init.cache {
        Some(cache) => cache.convert(),
        None => request.cache_mode,
    };
    if matches!(cache_mode, CacheMode::OnlyIfCached) && !matches!(mode, TransportMode::SameOrigin) {
        return Err(RequestError::OnlyIfCachedNeedsSameOrigin);
    }
    let referrer_policy = match init.referrer_policy {
        Some(policy) => policy.convert(),
        None => request.referrer_policy,
    };
    let credentials_mode = match init.credentials {
        Some(credentials) => credentials.convert(),
        None => request.credentials_mode,
    };
    let redirect_mode = match init.redirect {
        Some(redirect) => redirect.convert(),
        None => request.redirect_mode,
    };
    let mut request = request;
    if let Some(integrity) = &init.integrity {
        request.integrity_metadata = integrity.clone();
    }
    request.referrer_policy = referrer_policy;
    request.mode = mode;
    request.credentials_mode = credentials_mode;
    request.cache_mode = cache_mode;
    request.redirect_mode = redirect_mode;
    Ok(request)
}

/// Sets the caller's method, where one was given.
pub fn apply_method(request: NetRequest, init: &RequestInit) -> (r: Result<
    NetRequest,
    RequestError,
>)
    ensures
        match with_method(request@, init@) {
            Ok(v) => r matches Ok(out) && out@ == v,
            Err(e) => r matches Err(refusal) && refusal == e,
        },
{
    let mut request = request;
    if let Some(bytes) = &init.method {
        match method_from(bytes) {
            Ok(method) => {
                request.method = method;
            },
            Err(e) => {
                return Err(e);
            },
        }
    }
    Ok(request)
}

/// Lays the overrides over a baseline descriptor.
pub fn normalize_descriptor(
    global: &GlobalScope,
    baseline: NetRequest,
    fallback: Option<TransportMode>,
    init: &RequestInit,
    parsed_referrer: Option<Url>,
) -> (r: Result<NetRequest, RequestError>)
    requires
        baseline.url_list@.len() > 0,
    ensures
        match normalized_descriptor(
            global@,
            baseline@,
            fallback,
            init@,
            url_option_view(parsed_referrer),
        ) {
            Ok(v) => r matches Ok(request) && request@ == v,
            Err(e) => r matches Err(refusal) && refusal == e,
        },
{
    let window = match window_from(init.window) {
        Ok(w) => w,
        Err(e) => {
            return Err(e);
        },
    };
    let carried = carry_over(global, baseline, window);
    let seeded = reset_if_overridden(global, carried, init.has_any_override());
    let referred = match apply_referrer(global, seeded, init, parsed_referrer) {
        Ok(request) => request,
        Err(e) => {
            return Err(e);
        },
    };
    let moded = match apply_modes(referred, init, fallback) {
        Ok(request) => request,
        Err(e) => {
            return Err(e);
        },
    };
    apply_method(moded, init)
}

} // verus!
