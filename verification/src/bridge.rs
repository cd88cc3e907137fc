//! Laws that tie the host-visible enumerations to their transport
//! counterparts.

use vstd::prelude::*;
use crate::host::{
    ReferrerPolicy, RequestCache, RequestCredentials, RequestDestination, RequestMode,
    RequestRedirect,
};
use crate::transport::{
    CacheMode, CredentialsMode, Destination, RedirectMode, TransportMode,
    TransportReferrerPolicy,
};

verus! {

/// A cache value survives the trip to the transport side and back, and so
/// does a transport cache mode the other way round.
pub proof fn lemma_cache_round_trip(host: RequestCache, transport: CacheMode)
    ensures
        host.to_transport().to_host() == host,
        transport.to_host().to_transport() == transport,
{
}

/// A credentials value survives the trip in either direction.
pub proof fn lemma_credentials_round_trip(host: RequestCredentials, transport: CredentialsMode)
    ensures
        host.to_transport().to_host() == host,
        transport.to_host().to_transport() == transport,
{
}

/// A redirect value survives the trip in either direction.
pub proof fn lemma_redirect_round_trip(host: RequestRedirect, transport: RedirectMode)
    ensures
        host.to_transport().to_host() == host,
        transport.to_host().to_transport() == transport,
{
}

/// A referrer policy survives the trip in either direction.
pub proof fn lemma_referrer_policy_round_trip(
    host: ReferrerPolicy,
    transport: TransportReferrerPolicy,
)
    ensures
        host.to_transport().to_host() == host,
        transport.to_host().to_transport() == transport,
{
}

/// Every host-visible mode converts to a transport mode that has a host
/// image, and comes back unchanged.  A transport mode that has a host image
/// comes back unchanged too.
pub proof fn lemma_mode_round_trip(host: RequestMode, transport: TransportMode)
    ensures
        host.to_transport().has_host_image(),
        host.to_transport().to_host() == host,
        transport.has_host_image() ==> transport.to_host().to_transport() == transport,
{
}

/// Every host-visible destination converts to a transport destination that
/// has a host image, and comes back unchanged: no conversion from the host
/// side ever produces a destination that must stay hidden.  The other way
/// round a destination comes back unchanged if it has a host image and is
/// not the identity-flow destination, which is reported as the empty one.
pub proof fn lemma_destination_round_trip(host: RequestDestination, transport: Destination)
    ensures
        host.to_transport().has_host_image(),
        host.to_transport() !is WebIdentity,
        host.to_transport().to_host() == host,
        transport.has_host_image() && transport !is WebIdentity
            ==> transport.to_host().to_transport() == transport,
        transport is WebIdentity ==> transport.to_host() == RequestDestination::Empty,
{
}

} // verus!
