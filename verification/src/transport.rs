//! Transport-facing enumerations: the values the descriptor carries.  Some of
//! them describe requests that a script must never see; converting one of
//! those to its host-visible counterpart is ruled out by precondition.

use vstd::prelude::*;
use crate::host::{
    ReferrerPolicy, RequestCache, RequestCredentials, RequestDestination, RequestMode,
    RequestRedirect,
};

verus! {

#[derive(Clone, Copy, Debug, PartialEq, Eq, Structural)]
pub enum CacheMode {
    Default,
    NoStore,
    Reload,
    NoCache,
    ForceCache,
    OnlyIfCached,
}

#[derive(Clone, Copy, Debug, PartialEq, Eq, Structural)]
pub enum CredentialsMode {
    Omit,
    CredentialsSameOrigin,
    Include,
}

#[derive(Clone, Copy, Debug, PartialEq, Eq, Structural)]
pub enum Destination {
    Empty,
    Audio,
    AudioWorklet,
    Document,
    Embed,
    Font,
    Frame,
    IFrame,
    Image,
    Json,
    Manifest,
    Object,
    PaintWorklet,
    Report,
    Script,
    ServiceWorker,
    SharedWorker,
    Style,
    Track,
    Video,
    WebIdentity,
    Worker,
    Xslt,
}

#[derive(Clone, Copy, Debug, PartialEq, Eq, Structural)]
pub enum TransportMode {
    Navigate,
    SameOrigin,
    NoCors,
    CorsMode,
    WebSocket,
}

#[derive(Clone, Copy, Debug, PartialEq, Eq, Structural)]
pub enum RedirectMode {
    Follow,
    Error,
    Manual,
}

#[derive(Clone, Copy, Debug, PartialEq, Eq, Structural)]
pub enum TransportReferrerPolicy {
    EmptyString,
    NoReferrer,
    NoReferrerWhenDowngrade,
    Origin,
    SameOrigin,
    StrictOrigin,
    OriginWhenCrossOrigin,
    StrictOriginWhenCrossOrigin,
    UnsafeUrl,
}

impl CacheMode {
    pub open spec fn to_host(self) -> RequestCache {
        match self {
            CacheMode::Default => RequestCache::Default,
            CacheMode::NoStore => RequestCache::NoStore,
            CacheMode::Reload => RequestCache::Reload,
            CacheMode::NoCache => RequestCache::NoCache,
            CacheMode::ForceCache => RequestCache::ForceCache,
            CacheMode::OnlyIfCached => RequestCache::OnlyIfCached,
        }
    }

    pub fn convert(self) -> (r: RequestCache)
        ensures
            r == self.to_host(),
    {
        match self {
            CacheMode::Default => RequestCache::Default,
            CacheMode::NoStore => RequestCache::NoStore,
            CacheMode::Reload => RequestCache::Reload,
            CacheMode::NoCache => RequestCache::NoCache,
            CacheMode::ForceCache => RequestCache::ForceCache,
            CacheMode::OnlyIfCached => RequestCache::OnlyIfCached,
        }
    }
}

impl CredentialsMode {
    pub open spec fn to_host(self) -> RequestCredentials {
        match self {
            CredentialsMode::Omit => RequestCredentials::Omit,
            CredentialsMode::CredentialsSameOrigin => RequestCredentials::SameOrigin,
            CredentialsMode::Include => RequestCredentials::Include,
        }
    }

    pub fn convert(self) -> (r: RequestCredentials)
        ensures
            r == self.to_host(),
    {
        match self {
            CredentialsMode::Omit => RequestCredentials::Omit,
            CredentialsMode::CredentialsSameOrigin => RequestCredentials::SameOrigin,
            CredentialsMode::Include => RequestCredentials::Include,
        }
    }
}

impl Destination {
    /// Whether a script may be told of this destination.  The service-worker
    /// and worklet destinations may not: a request that carries one was never
    /// meant to be host-visible.
    pub open spec fn has_host_image(self) -> bool {
        !(self is ServiceWorker || self is AudioWorklet || self is PaintWorklet)
    }

    /// The host-visible value for a destination that has one.  The
    /// identity-flow destination is reported as the empty destination, by
    /// policy; the value for a destination without an image is arbitrary.
    pub open spec fn to_host(self) -> RequestDestination {
        match self {
            Destination::Empty => RequestDestination::Empty,
            Destination::Audio => RequestDestination::Audio,
            Destination::Document => RequestDestination::Document,
            Destination::Embed => RequestDestination::Embed,
            Destination::Font => RequestDestination::Font,
            Destination::Frame => RequestDestination::Frame,
            Destination::IFrame => RequestDestination::Iframe,
            Destination::Image => RequestDestination::Image,
            Destination::Manifest => RequestDestination::Manifest,
            Destination::Json => RequestDestination::Json,
            Destination::Object => RequestDestination::Object,
            Destination::Report => RequestDestination::Report,
            Destination::Script => RequestDestination::Script,
            Destination::SharedWorker => RequestDestination::Sharedworker,
            Destination::Style => RequestDestination::Style,
            Destination::Track => RequestDestination::Track,
            Destination::Video => RequestDestination::Video,
            Destination::Worker => RequestDestination::Worker,
            Destination::Xslt => RequestDestination::Xslt,
            Destination::WebIdentity => RequestDestination::Empty,
            Destination::ServiceWorker | Destination::AudioWorklet | Destination::PaintWorklet => {
                arbitrary()
            },
        }
    }

    pub fn convert(self) -> (r: RequestDestination)
        requires
            self.has_host_image(),
        ensures
            r == self.to_host(),
    {
        match self {
            Destination::Empty => RequestDestination::Empty,
            Destination::Audio => RequestDestination::Audio,
            Destination::Document => RequestDestination::Document,
            Destination::Embed => RequestDestination::Embed,
            Destination::Font => RequestDestination::Font,
            Destination::Frame => RequestDestination::Frame,
            Destination::IFrame => RequestDestination::Iframe,
            Destination::Image => RequestDestination::Image,
            Destination::Manifest => RequestDestination::Manifest,
            Destination::Json => RequestDestination::Json,
            Destination::Object => RequestDestination::Object,
            Destination::Report => RequestDestination::Report,
            Destination::Script => RequestDestination::Script,
            Destination::ServiceWorker | Destination::AudioWorklet | Destination::PaintWorklet => {
                vstd::pervasive::unreached()
            },
            Destination::SharedWorker => RequestDestination::Sharedworker,
            Destination::Style => RequestDestination::Style,
            Destination::Track => RequestDestination::Track,
            Destination::Video => RequestDestination::Video,
            Destination::Worker => RequestDestination::Worker,
            Destination::Xslt => RequestDestination::Xslt,
            Destination::WebIdentity => RequestDestination::Empty,
        }
    }
}

impl TransportMode {
    /// Whether a script may be told of this mode; the web-socket mode is for
    /// the transport alone.
    pub open spec fn has_host_image(self) -> bool {
        !(self is WebSocket)
    }

    pub open spec fn to_host(self) -> RequestMode {
        match self {
            TransportMode::Navigate => RequestMode::Navigate,
            TransportMode::SameOrigin => RequestMode::SameOrigin,
            TransportMode::NoCors => RequestMode::NoCors,
            TransportMode::CorsMode => RequestMode::Cors,
            TransportMode::WebSocket => arbitrary(),
        }
    }

    pub fn convert(self) -> (r: RequestMode)
        requires
            self.has_host_image(),
        ensures
            r == self.to_host(),
    {
        match self {
            TransportMode::Navigate => RequestMode::Navigate,
            TransportMode::SameOrigin => RequestMode::SameOrigin,
            TransportMode::NoCors => RequestMode::NoCors,
            TransportMode::CorsMode => RequestMode::Cors,
            TransportMode::WebSocket => vstd::pervasive::unreached(),
        }
    }
}

impl TransportReferrerPolicy {
    pub open spec fn to_host(self) -> ReferrerPolicy {
        match self {
            TransportReferrerPolicy::EmptyString => ReferrerPolicy::Empty,
            TransportReferrerPolicy::NoReferrer => ReferrerPolicy::NoReferrer,
            TransportReferrerPolicy::NoReferrerWhenDowngrade => {
                ReferrerPolicy::NoReferrerWhenDowngrade
            },
            TransportReferrerPolicy::Origin => ReferrerPolicy::Origin,
            TransportReferrerPolicy::OriginWhenCrossOrigin => ReferrerPolicy::OriginWhenCrossOrigin,
            TransportReferrerPolicy::UnsafeUrl => ReferrerPolicy::UnsafeUrl,
            TransportReferrerPolicy::SameOrigin => ReferrerPolicy::SameOrigin,
            TransportReferrerPolicy::StrictOrigin => ReferrerPolicy::StrictOrigin,
            TransportReferrerPolicy::StrictOriginWhenCrossOrigin => {
                ReferrerPolicy::StrictOriginWhenCrossOrigin
            },
        }
    }

    pub fn convert(self) -> (r: ReferrerPolicy)
        ensures
            r == self.to_host(),
    {
        match self {
            TransportReferrerPolicy::EmptyString => ReferrerPolicy::Empty,
            TransportReferrerPolicy::NoReferrer => ReferrerPolicy::NoReferrer,
            TransportReferrerPolicy::NoReferrerWhenDowngrade => {
                ReferrerPolicy::NoReferrerWhenDowngrade
            },
            TransportReferrerPolicy::Origin => ReferrerPolicy::Origin,
            TransportReferrerPolicy::OriginWhenCrossOrigin => ReferrerPolicy::OriginWhenCrossOrigin,
            TransportReferrerPolicy::UnsafeUrl => ReferrerPolicy::UnsafeUrl,
            TransportReferrerPolicy::SameOrigin => ReferrerPolicy::SameOrigin,
            TransportReferrerPolicy::StrictOrigin => ReferrerPolicy::StrictOrigin,
            TransportReferrerPolicy::StrictOriginWhenCrossOrigin => {
                ReferrerPolicy::StrictOriginWhenCrossOrigin
            },
        }
    }
}

impl RedirectMode {
    pub open spec fn to_host(self) -> RequestRedirect {
        match self {
            RedirectMode::Follow => RequestRedirect::Follow,
            RedirectMode::Error => RequestRedirect::Error,
            RedirectMode::Manual => RequestRedirect::Manual,
        }
    }

    pub fn convert(self) -> (r: RequestRedirect)
        ensures
            r == self.to_host(),
    {
        match self {
            RedirectMode::Follow => RequestRedirect::Follow,
            RedirectMode::Error => RequestRedirect::Error,
            RedirectMode::Manual => RequestRedirect::Manual,
        }
    }
}

} // verus!
