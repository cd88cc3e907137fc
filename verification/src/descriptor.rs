//! The descriptor of an outgoing request, as the transport takes it, and
//! the surroundings from which a fresh one is seeded.

use vstd::prelude::*;
use http::header::{HeaderMap, HeaderValue};
use crate::body::{RequestBody, RequestBodyView};
use crate::header_map::{header_entries, header_map_clone, header_map_new, Entry};
use crate::method::{get_bytes, Method};
use crate::transport::{
    CacheMode, CredentialsMode, Destination, RedirectMode, TransportMode,
    TransportReferrerPolicy,
};
use crate::web_url::{Url, UrlOrigin, UrlOriginView, UrlView};

verus! {

/// Whether the request belongs to a window.
#[derive(Clone, Copy, Debug, PartialEq, Eq, Structural)]
pub enum Window {
    NoWindow,
    Client,
}

/// How well the connection of the surroundings is protected.
#[derive(Clone, Copy, Debug, PartialEq, Eq, Structural)]
pub enum HttpsState {
    Unprotected,
    Deprecated,
    Modern,
}

/// Whether insecure requests are to be upgraded.
#[derive(Clone, Copy, Debug, PartialEq, Eq, Structural)]
pub enum InsecureRequestsPolicy {
    DoNotUpgrade,
    Upgrade,
}

/// On whose behalf the request is made.
#[derive(Debug)]
pub enum Origin {
    Client,
    Origin(UrlOrigin),
}

pub enum OriginView {
    Client,
    Origin(UrlOriginView),
}

impl View for Origin {
    type V = OriginView;

    open spec fn view(&self) -> OriginView {
        match self {
            Origin::Client => OriginView::Client,
            Origin::Origin(o) => OriginView::Origin(o@),
        }
    }
}

impl Origin {
    pub fn duplicate(&self) -> (r: Origin)
        ensures
            r@ == self@,
    {
        match self {
            Origin::Client => Origin::Client,
            Origin::Origin(o) => Origin::Origin(o.duplicate()),
        }
    }
}

/// What the request names as the place it comes from.
#[derive(Debug)]
pub enum Referrer {
    NoReferrer,
    /// The default of the surroundings.
    Client(Url),
    ReferrerUrl(Url),
}

pub enum ReferrerView {
    NoReferrer,
    Client(UrlView),
    ReferrerUrl(UrlView),
}

impl View for Referrer {
    type V = ReferrerView;

    open spec fn view(&self) -> ReferrerView {
        match self {
            Referrer::NoReferrer => ReferrerView::NoReferrer,
            Referrer::Client(u) => ReferrerView::Client(u@),
            Referrer::ReferrerUrl(u) => ReferrerView::ReferrerUrl(u@),
        }
    }
}

impl Referrer {
    pub fn duplicate(&self) -> (r: Referrer)
        ensures
            r@ == self@,
    {
        match self {
            Referrer::NoReferrer => Referrer::NoReferrer,
            Referrer::Client(u) => Referrer::Client(u.duplicate()),
            Referrer::ReferrerUrl(u) => Referrer::ReferrerUrl(u.duplicate()),
        }
    }
}

impl ReferrerView {
    /// The referrer as a script reads it: nothing, `about:client`, or the URL.
    pub open spec fn serialized(self) -> Seq<char> {
        match self {
            ReferrerView::NoReferrer => Seq::empty(),
            ReferrerView::Client(_) => "about:client"@,
            ReferrerView::ReferrerUrl(u) => u.href,
        }
    }
}

/// The surroundings in which a request is made.
#[derive(Debug)]
pub struct GlobalScope {
    /// The URL against which relative URLs are resolved.
    pub api_base_url: Url,
    /// The URL of the surroundings themselves.
    pub url: Url,
    /// The default referrer.
    pub referrer: Referrer,
    pub pipeline_id: u64,
    pub webview_id: u64,
    pub https_state: HttpsState,
    pub insecure_requests_policy: InsecureRequestsPolicy,
    pub has_trustworthy_ancestor_or_current_origin: bool,
}

pub struct GlobalScopeView {
    pub api_base_url: UrlView,
    pub url: UrlView,
    pub referrer: ReferrerView,
    pub pipeline_id: u64,
    pub webview_id: u64,
    pub https_state: HttpsState,
    pub insecure_requests_policy: InsecureRequestsPolicy,
    pub has_trustworthy_ancestor_or_current_origin: bool,
}

impl View for GlobalScope {
    type V = GlobalScopeView;

    open spec fn view(&self) -> GlobalScopeView {
        GlobalScopeView {
            api_base_url: self.api_base_url@,
            url: self.url@,
            referrer: self.referrer@,
            pipeline_id: self.pipeline_id,
            webview_id: self.webview_id,
            https_state: self.https_state,
            insecure_requests_policy: self.insecure_requests_policy,
            has_trustworthy_ancestor_or_current_origin: self.has_trustworthy_ancestor_or_current_origin,
        }
    }
}

/// The canonical description of an outgoing request.
#[derive(Debug)]
pub struct NetRequest {
    pub method: Method,
    /// The URLs visited so far; the last is the current one.
    pub url_list: Vec<Url>,
    pub headers: HeaderMap<HeaderValue>,
    /// Whether the descriptor was built from a caller's finished input.
    pub unsafe_request: bool,
    pub body: Option<RequestBody>,
    pub window: Window,
    pub target_webview_id: Option<u64>,
    pub destination: Destination,
    pub origin: Origin,
    pub referrer: Referrer,
    pub referrer_policy: TransportReferrerPolicy,
    pub pipeline_id: Option<u64>,
    pub mode: TransportMode,
    pub credentials_mode: CredentialsMode,
    pub cache_mode: CacheMode,
    pub redirect_mode: RedirectMode,
    pub integrity_metadata: String,
    pub https_state: HttpsState,
    pub insecure_requests_policy: InsecureRequestsPolicy,
    pub has_trustworthy_ancestor_origin: bool,
}

pub struct NetRequestView {
    pub method: Seq<u8>,
    pub url_list: Seq<UrlView>,
    pub headers: Seq<Entry>,
    pub unsafe_request: bool,
    pub body: Option<RequestBodyView>,
    pub window: Window,
    pub target_webview_id: Option<u64>,
    pub destination: Destination,
    pub origin: OriginView,
    pub referrer: ReferrerView,
    pub referrer_policy: TransportReferrerPolicy,
    pub pipeline_id: Option<u64>,
    pub mode: TransportMode,
    pub credentials_mode: CredentialsMode,
    pub cache_mode: CacheMode,
    pub redirect_mode: RedirectMode,
    pub integrity_metadata: Seq<char>,
    pub https_state: HttpsState,
    pub insecure_requests_policy: InsecureRequestsPolicy,
    pub has_trustworthy_ancestor_origin: bool,
}

pub open spec fn url_list_view(urls: Seq<Url>) -> Seq<UrlView> {
    Seq::new(urls.len(), |i: int| urls[i]@)
}

pub open spec fn body_view(body: Option<RequestBody>) -> Option<RequestBodyView> {
    match body {
        Some(b) => Some(b@),
        None => None,
    }
}

impl View for NetRequest {
    type V = NetRequestView;

    open spec fn view(&self) -> NetRequestView {
        NetRequestView {
            method: self.method@,
            url_list: url_list_view(self.url_list@),
            headers: header_entries(self.headers),
            unsafe_request: self.unsafe_request,
            body: body_view(self.body),
            window: self.window,
            target_webview_id: self.target_webview_id,
            destination: self.destination,
            origin: self.origin@,
            referrer: self.referrer@,
            referrer_policy: self.referrer_policy,
            pipeline_id: self.pipeline_id,
            mode: self.mode,
            credentials_mode: self.credentials_mode,
            cache_mode: self.cache_mode,
            redirect_mode: self.redirect_mode,
            integrity_metadata: self.integrity_metadata@,
            https_state: self.https_state,
            insecure_requests_policy: self.insecure_requests_policy,
            has_trustworthy_ancestor_origin: self.has_trustworthy_ancestor_origin,
        }
    }
}

impl NetRequestView {
    /// The URL the request is bound for now: the last of its list.
    pub open spec fn current_url(self) -> UrlView
        recommends
            self.url_list.len() > 0,
    {
        self.url_list.last()
    }
}

/// The descriptor that the surroundings give a request for `url` before
/// anything is asked of it: a GET without headers or body, in `no-cors`
/// mode, with the referrer, the origin and the security state of the
/// surroundings.
pub open spec fn seeded_request(global: GlobalScopeView, url: UrlView) -> NetRequestView {
    NetRequestView {
        method: get_bytes(),
        url_list: seq![url],
        headers: Seq::empty(),
        unsafe_request: false,
        body: None,
        window: Window::Client,
        target_webview_id: Some(global.webview_id),
        destination: Destination::Empty,
        origin: OriginView::Origin(global.url.origin),
        referrer: global.referrer,
        referrer_policy: TransportReferrerPolicy::EmptyString,
        pipeline_id: Some(global.pipeline_id),
        mode: TransportMode::NoCors,
        credentials_mode: CredentialsMode::CredentialsSameOrigin,
        cache_mode: CacheMode::Default,
        redirect_mode: RedirectMode::Follow,
        integrity_metadata: Seq::empty(),
        https_state: global.https_state,
        insecure_requests_policy: global.insecure_requests_policy,
        has_trustworthy_ancestor_origin: global.has_trustworthy_ancestor_or_current_origin,
    }
}

/// Seeds a descriptor for `url` from the surroundings.
pub fn net_request_from_global(global: &GlobalScope, url: Url) -> (r: NetRequest)
    ensures
        r@ == seeded_request(global@, url@),
{
    let mut url_list: Vec<Url> = Vec::new();
    let ghost url_view = url@;
    url_list.push(url);
    assert(url_list_view(url_list@) =~= seq![url_view]);
    NetRequest {
        method: Method::get(),
        url_list,
        headers: header_map_new(),
        unsafe_request: false,
        body: None,
        window: Window::Client,
        target_webview_id: Some(global.webview_id),
        destination: Destination::Empty,
        origin: Origin::Origin(global.url.origin.duplicate()),
        referrer: global.referrer.duplicate(),
        referrer_policy: TransportReferrerPolicy::EmptyString,
        pipeline_id: Some(global.pipeline_id),
        mode: TransportMode::NoCors,
        credentials_mode: CredentialsMode::CredentialsSameOrigin,
        cache_mode: CacheMode::Default,
        redirect_mode: RedirectMode::Follow,
        integrity_metadata: String::new(),
        https_state: global.https_state,
        insecure_requests_policy: global.insecure_requests_policy,
        has_trustworthy_ancestor_origin: global.has_trustworthy_ancestor_or_current_origin,
    }
}

/// A copy of a list of URLs.
pub fn duplicate_urls(urls: &Vec<Url>) -> (r: Vec<Url>)
    ensures
        url_list_view(r@) == url_list_view(urls@),
{
    let mut out: Vec<Url> = Vec::new();
    let mut i: usize = 0;
    while i < urls.len()
        invariant
            i <= urls.len(),
            out@.len() == i,
            forall|k: int| 0 <= k < i ==> (#[trigger] out@[k])@ == urls@[k]@,
        decreases urls.len() - i,
    {
        out.push(urls[i].duplicate());
        i += 1;
    }
    assert(url_list_view(out@) =~= url_list_view(urls@));
    out
}

impl NetRequest {
    /// The URL the request is bound for now.
    pub fn current_url(&self) -> (r: Url)
        requires
            self.url_list@.len() > 0,
        ensures
            r@ == self@.current_url(),
    {
        self.url_list[self.url_list.len() - 1].duplicate()
    }

    /// A copy of the descriptor, field by field.
    pub fn duplicate(&self) -> (r: NetRequest)
        ensures
            r@ == self@,
    {
        NetRequest {
            method: self.method.duplicate(),
            url_list: duplicate_urls(&self.url_list),
            headers: header_map_clone(&self.headers),
            unsafe_request: self.unsafe_request,
            body: match &self.body {
                Some(b) => Some(b.duplicate()),
                None => None,
            },
            window: self.window,
            target_webview_id: self.target_webview_id,
            destination: self.destination,
            origin: self.origin.duplicate(),
            referrer: self.referrer.duplicate(),
            referrer_policy: self.referrer_policy,
            pipeline_id: self.pipeline_id,
            mode: self.mode,
            credentials_mode: self.credentials_mode,
            cache_mode: self.cache_mode,
            redirect_mode: self.redirect_mode,
            integrity_metadata: self.integrity_metadata.clone(),
            https_state: self.https_state,
            insecure_requests_policy: self.insecure_requests_policy,
            has_trustworthy_ancestor_origin: self.has_trustworthy_ancestor_origin,
        }
    }
}

} // verus!
