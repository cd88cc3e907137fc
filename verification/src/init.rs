//! What a caller may ask of a new request: the overrides.

use vstd::prelude::*;
use crate::body::{ExtractedBody, ExtractedBodyView};
use crate::byte_string::ByteString;
use crate::headers::{HeadersInit, HeadersInitView};
use crate::host::{
    ReferrerPolicy, RequestCache, RequestCredentials, RequestMode, RequestRedirect,
};

verus! {

/// What the caller said of the window: nothing, null, or something else.
#[derive(Clone, Copy, Debug, PartialEq, Eq, Structural)]
pub enum WindowInit {
    Absent,
    Null,
    Object,
}

/// The overrides of a request.  A field that is `None` leaves the matter as
/// it is; a body that is `Some(None)` is a body explicitly set to nothing.
#[derive(Debug)]
pub struct RequestInit {
    pub body: Option<Option<ExtractedBody>>,
    pub cache: Option<RequestCache>,
    pub credentials: Option<RequestCredentials>,
    pub headers: Option<HeadersInit>,
    pub integrity: Option<String>,
    pub method: Option<ByteString>,
    pub mode: Option<RequestMode>,
    pub redirect: Option<RequestRedirect>,
    pub referrer: Option<String>,
    pub referrer_policy: Option<ReferrerPolicy>,
    pub window: WindowInit,
}

pub struct RequestInitView {
    pub body: Option<Option<ExtractedBodyView>>,
    pub cache: Option<RequestCache>,
    pub credentials: Option<RequestCredentials>,
    pub headers: Option<HeadersInitView>,
    pub integrity: Option<Seq<char>>,
    pub method: Option<Seq<u8>>,
    pub mode: Option<RequestMode>,
    pub redirect: Option<RequestRedirect>,
    pub referrer: Option<Seq<char>>,
    pub referrer_policy: Option<ReferrerPolicy>,
    pub window: WindowInit,
}

impl View for RequestInit {
    type V = RequestInitView;

    open spec fn view(&self) -> RequestInitView {
        RequestInitView {
            body: match self.body {
                Some(Some(b)) => Some(Some(b@)),
                Some(None) => Some(None),
                None => None,
            },
            cache: self.cache,
            credentials: self.credentials,
            headers: match self.headers {
                Some(h) => Some(h@),
                None => None,
            },
            integrity: match self.integrity {
                Some(s) => Some(s@),
                None => None,
            },
            method: match self.method {
                Some(m) => Some(m@),
                None => None,
            },
            mode: self.mode,
            redirect: self.redirect,
            referrer: match self.referrer {
                Some(s) => Some(s@),
                None => None,
            },
            referrer_policy: self.referrer_policy,
            window: self.window,
        }
    }
}

impl RequestInitView {
    /// Whether the caller asked for anything at all.
    pub open spec fn has_any_override(self) -> bool {
        ||| self.body is Some
        ||| self.cache is Some
        ||| self.credentials is Some
        ||| self.integrity is Some
        ||| self.headers is Some
        ||| self.method is Some
        ||| self.mode is Some
        ||| self.redirect is Some
        ||| self.referrer is Some
        ||| self.referrer_policy is Some
        ||| self.window != WindowInit::Absent
    }

    /// The overrides of a caller who asks for nothing.
    pub open spec fn none() -> RequestInitView {
        RequestInitView {
            body: None,
            cache: None,
            credentials: None,
            headers: None,
            integrity: None,
            method: None,
            mode: None,
            redirect: None,
            referrer: None,
            referrer_policy: None,
            window: WindowInit::Absent,
        }
    }
}

impl RequestInit {
    /// The overrides of a caller who asks for nothing.
    pub fn new() -> (r: RequestInit)
        ensures
            r@ == RequestInitView::none(),
    {
        RequestInit {
            body: None,
            cache: None,
            credentials: None,
            headers: None,
            integrity: None,
            method: None,
            mode: None,
            redirect: None,
            referrer: None,
            referrer_policy: None,
            window: WindowInit::Absent,
        }
    }

    /// Whether the caller asked for anything at all.
    pub fn has_any_override(&self) -> (r: bool)
        ensures
            r == self@.has_any_override(),
    {
        self.body.is_some() || self.cache.is_some() || self.credentials.is_some()
            || self.integrity.is_some() || self.headers.is_some() || self.method.is_some()
            || self.mode.is_some() || self.redirect.is_some() || self.referrer.is_some()
            || self.referrer_policy.is_some() || !matches!(self.window, WindowInit::Absent)
    }
}

} // verus!
