//! Host-visible enumerations: the values a script may read from or write to
//! a request.  Each converts totally into its transport counterpart.

use vstd::prelude::*;
use crate::transport::{
    CacheMode, CredentialsMode, Destination, RedirectMode, TransportMode,
    TransportReferrerPolicy,
};

verus! {

#[derive(Clone, Copy, Debug, PartialEq, Eq, Structural)]
pub enum RequestCache {
    Default,
    NoStore,
    Reload,
    NoCache,
    ForceCache,
    OnlyIfCached,
}

#[derive(Clone, Copy, Debug, PartialEq, Eq, Structural)]
pub enum RequestCredentials {
    Omit,
    SameOrigin,
    Include,
}

#[derive(Clone, Copy, Debug, PartialEq, Eq, Structural)]
pub enum RequestDestination {
    Empty,
    Audio,
    Document,
    Embed,
    Font,
    Frame,
    Iframe,
    Image,
    Manifest,
    Json,
    Object,
    Report,
    Script,
    Sharedworker,
    Style,
    Track,
    Video,
    Worker,
    Xslt,
}

#[derive(Clone, Copy, Debug, PartialEq, Eq, Structural)]
pub enum RequestMode {
    Navigate,
    SameOrigin,
    NoCors,
    Cors,
}

#[derive(Clone, Copy, Debug, PartialEq, Eq, Structural)]
pub enum RequestRedirect {
    Follow,
    Error,
    Manual,
}

#[derive(Clone, Copy, Debug, PartialEq, Eq, Structural)]
pub enum ReferrerPolicy {
    Empty,
    NoReferrer,
    NoReferrerWhenDowngrade,
    Origin,
    OriginWhenCrossOrigin,
    UnsafeUrl,
    SameOrigin,
    StrictOrigin,
    StrictOriginWhenCrossOrigin,
}

impl RequestCache {
    pub open spec fn to_transport(self) -> CacheMode {
        match self {
            RequestCache::Default => CacheMode::Default,
            RequestCache::NoStore => CacheMode::NoStore,
            RequestCache::Reload => CacheMode::Reload,
            RequestCache::NoCache => CacheMode::NoCache,
            RequestCache::ForceCache => CacheMode::ForceCache,
            RequestCache::OnlyIfCached => CacheMode::OnlyIfCached,
        }
    }

    pub fn convert(self) -> (r: CacheMode)
        ensures
            r == self.to_transport(),
    {
        match self {
            RequestCache::Default => CacheMode::Default,
            RequestCache::NoStore => CacheMode::NoStore,
            RequestCache::Reload => CacheMode::Reload,
            RequestCache::NoCache => CacheMode::NoCache,
            RequestCache::ForceCache => CacheMode::ForceCache,
            RequestCache::OnlyIfCached => CacheMode::OnlyIfCached,
        }
    }
}

impl RequestCredentials {
    pub open spec fn to_transport(self) -> CredentialsMode {
        match self {
            RequestCredentials::Omit => CredentialsMode::Omit,
            RequestCredentials::SameOrigin => CredentialsMode::CredentialsSameOrigin,
            RequestCredentials::Include => CredentialsMode::Include,
        }
    }

    pub fn convert(self) -> (r: CredentialsMode)
        ensures
            r == self.to_transport(),
    {
        match self {
            RequestCredentials::Omit => CredentialsMode::Omit,
            RequestCredentials::SameOrigin => CredentialsMode::CredentialsSameOrigin,
            RequestCredentials::Include => CredentialsMode::Include,
        }
    }
}

impl RequestDestination {
    pub open spec fn to_transport(self) -> Destination {
        match self {
            RequestDestination::Empty => Destination::Empty,
            RequestDestination::Audio => Destination::Audio,
            RequestDestination::Document => Destination::Document,
            RequestDestination::Embed => Destination::Embed,
            RequestDestination::Font => Destination::Font,
            RequestDestination::Frame => Destination::Frame,
            RequestDestination::Iframe => Destination::IFrame,
            RequestDestination::Image => Destination::Image,
            RequestDestination::Manifest => Destination::Manifest,
            RequestDestination::Json => Destination::Json,
            RequestDestination::Object => Destination::Object,
            RequestDestination::Report => Destination::Report,
            RequestDestination::Script => Destination::Script,
            RequestDestination::Sharedworker => Destination::SharedWorker,
            RequestDestination::Style => Destination::Style,
            RequestDestination::Track => Destination::Track,
            RequestDestination::Video => Destination::Video,
            RequestDestination::Worker => Destination::Worker,
            RequestDestination::Xslt => Destination::Xslt,
        }
    }

    pub fn convert(self) -> (r: Destination)
        ensures
            r == self.to_transport(),
            r.has_host_image(),
    {
        match self {
            RequestDestination::Empty => Destination::Empty,
            RequestDestination::Audio => Destination::Audio,
            RequestDestination::Document => Destination::Document,
            RequestDestination::Embed => Destination::Embed,
            RequestDestination::Font => Destination::Font,
            RequestDestination::Frame => Destination::Frame,
            RequestDestination::Iframe => Destination::IFrame,
            RequestDestination::Image => Destination::Image,
            RequestDestination::Manifest => Destination::Manifest,
            RequestDestination::Json => Destination::Json,
            RequestDestination::Object => Destination::Object,
            RequestDestination::Report => Destination::Report,
            RequestDestination::Script => Destination::Script,
            RequestDestination::Sharedworker => Destination::SharedWorker,
            RequestDestination::Style => Destination::Style,
            RequestDestination::Track => Destination::Track,
            RequestDestination::Video => Destination::Video,
            RequestDestination::Worker => Destination::Worker,
            RequestDestination::Xslt => Destination::Xslt,
        }
    }
}

impl RequestMode {
    pub open spec fn to_transport(self) -> TransportMode {
        match self {
            RequestMode::Navigate => TransportMode::Navigate,
            RequestMode::SameOrigin => TransportMode::SameOrigin,
            RequestMode::NoCors => TransportMode::NoCors,
            RequestMode::Cors => TransportMode::CorsMode,
        }
    }

    pub fn convert(self) -> (r: TransportMode)
        ensures
            r == self.to_transport(),
            r.has_host_image(),
    {
        match self {
            RequestMode::Navigate => TransportMode::Navigate,
            RequestMode::SameOrigin => TransportMode::SameOrigin,
            RequestMode::NoCors => TransportMode::NoCors,
            RequestMode::Cors => TransportMode::CorsMode,
        }
    }
}

impl ReferrerPolicy {
    pub open spec fn to_transport(self) -> TransportReferrerPolicy {
        match self {
            ReferrerPolicy::Empty => TransportReferrerPolicy::EmptyString,
            ReferrerPolicy::NoReferrer => TransportReferrerPolicy::NoReferrer,
            ReferrerPolicy::NoReferrerWhenDowngrade => {
                TransportReferrerPolicy::NoReferrerWhenDowngrade
            },
            ReferrerPolicy::Origin => TransportReferrerPolicy::Origin,
            ReferrerPolicy::OriginWhenCrossOrigin => TransportReferrerPolicy::OriginWhenCrossOrigin,
            ReferrerPolicy::UnsafeUrl => TransportReferrerPolicy::UnsafeUrl,
            ReferrerPolicy::SameOrigin => TransportReferrerPolicy::SameOrigin,
            ReferrerPolicy::StrictOrigin => TransportReferrerPolicy::StrictOrigin,
            ReferrerPolicy::StrictOriginWhenCrossOrigin => {
                TransportReferrerPolicy::StrictOriginWhenCrossOrigin
            },
        }
    }

    pub fn convert(self) -> (r: TransportReferrerPolicy)
        ensures
            r == self.to_transport(),
    {
        match self {
            ReferrerPolicy::Empty => TransportReferrerPolicy::EmptyString,
            ReferrerPolicy::NoReferrer => TransportReferrerPolicy::NoReferrer,
            ReferrerPolicy::NoReferrerWhenDowngrade => {
                TransportReferrerPolicy::NoReferrerWhenDowngrade
            },
            ReferrerPolicy::Origin => TransportReferrerPolicy::Origin,
            ReferrerPolicy::OriginWhenCrossOrigin => TransportReferrerPolicy::OriginWhenCrossOrigin,
            ReferrerPolicy::UnsafeUrl => TransportReferrerPolicy::UnsafeUrl,
            ReferrerPolicy::SameOrigin => TransportReferrerPolicy::SameOrigin,
            ReferrerPolicy::StrictOrigin => TransportReferrerPolicy::StrictOrigin,
            ReferrerPolicy::StrictOriginWhenCrossOrigin => {
                TransportReferrerPolicy::StrictOriginWhenCrossOrigin
            },
        }
    }
}

impl RequestRedirect {
    pub open spec fn to_transport(self) -> RedirectMode {
        match self {
            RequestRedirect::Follow => RedirectMode::Follow,
            RequestRedirect::Error => RedirectMode::Error,
            RequestRedirect::Manual => RedirectMode::Manual,
        }
    }

    pub fn convert(self) -> (r: RedirectMode)
        ensures
            r == self.to_transport(),
    {
        match self {
            RequestRedirect::Follow => RedirectMode::Follow,
            RequestRedirect::Error => RedirectMode::Error,
            RequestRedirect::Manual => RedirectMode::Manual,
        }
    }
}

} // verus!
