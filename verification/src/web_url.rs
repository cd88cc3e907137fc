//! URLs as the normalisation reads them.  Parsing is the `url` crate's work;
//! what the library keeps of a parsed URL is plain text and flags.

use vstd::prelude::*;
use url::ParseError;
use crate::byte_string::str_eq;

verus! {

/// `url::ParseError`, the refusal of what is no URL.
#[verifier::external_type_specification]
#[verifier::external_body]
pub struct ExParseError(ParseError);

/// Where a URL comes from, for the purpose of telling same-origin from
/// cross-origin.
#[derive(Debug)]
pub enum UrlOrigin {
    /// An origin that equals no origin, not even that of the same URL read a
    /// second time.
    Opaque,
    /// Scheme, host and port.
    Tuple { scheme: String, host: String, port: u16 },
}

pub enum UrlOriginView {
    Opaque,
    Tuple { scheme: Seq<char>, host: Seq<char>, port: u16 },
}

impl View for UrlOrigin {
    type V = UrlOriginView;

    open spec fn view(&self) -> UrlOriginView {
        match self {
            UrlOrigin::Opaque => UrlOriginView::Opaque,
            UrlOrigin::Tuple { scheme, host, port } => UrlOriginView::Tuple {
                scheme: scheme@,
                host: host@,
                port: *port,
            },
        }
    }
}

impl UrlOriginView {
    /// Whether two origins are the same: both are tuples, and equal ones.
    pub open spec fn same_as(self, other: UrlOriginView) -> bool {
        self is Tuple && self == other
    }
}

/// A parsed, absolute URL.
#[derive(Debug)]
pub struct Url {
    /// The URL in full, serialised.
    pub href: String,
    pub scheme: String,
    /// The user name, empty where there is none.
    pub username: String,
    pub password: Option<String>,
    pub path: String,
    /// Whether nothing can be resolved against this URL, as with `data:` and
    /// `about:` URLs.
    pub cannot_be_a_base: bool,
    pub origin: UrlOrigin,
}

pub struct UrlView {
    pub href: Seq<char>,
    pub scheme: Seq<char>,
    pub username: Seq<char>,
    pub password: Option<Seq<char>>,
    pub path: Seq<char>,
    pub cannot_be_a_base: bool,
    pub origin: UrlOriginView,
}

impl View for Url {
    type V = UrlView;

    open spec fn view(&self) -> UrlView {
        UrlView {
            href: self.href@,
            scheme: self.scheme@,
            username: self.username@,
            password: match self.password {
                Some(p) => Some(p@),
                None => None,
            },
            path: self.path@,
            cannot_be_a_base: self.cannot_be_a_base,
            origin: self.origin@,
        }
    }
}

impl UrlView {
    /// Whether the URL carries a user name or a password.
    pub open spec fn includes_credentials(self) -> bool {
        self.username.len() > 0 || self.password is Some
    }

    /// Whether the URL is `about:client`.
    pub open spec fn is_about_client(self) -> bool {
        self.cannot_be_a_base && self.scheme == "about"@ && self.path == "client"@
    }
}

/// What resolving `input` against the URL written `base` gives, where it
/// gives anything.
pub uninterp spec fn joined_url(base: Seq<char>, input: Seq<char>) -> Option<UrlView>;

/// `Url::join` of the `url` crate on the URL that `Url::parse` makes of
/// `base`, read out through the accessors `as_str`, `scheme`, `username`,
/// `password`, `path`, `cannot_be_a_base` and `origin`.  The result depends
/// on the two texts alone; an origin that is no tuple is opaque.
#[verifier::external_body]
fn url_join(base: &str, input: &str) -> (r: Result<Url, ParseError>)
    ensures
        r is Ok <==> joined_url(base@, input@) is Some,
        r matches Ok(u) ==> Some(u@) == joined_url(base@, input@),
{
    let joined = url::Url::parse(base)?.join(input)?;
    Ok(Url {
        href: joined.as_str().to_string(),
        scheme: joined.scheme().to_string(),
        username: joined.username().to_string(),
        password: joined.password().map(|p| p.to_string()),
        path: joined.path().to_string(),
        cannot_be_a_base: joined.cannot_be_a_base(),
        origin: match joined.origin() {
            url::Origin::Opaque(_) => UrlOrigin::Opaque,
            url::Origin::Tuple(scheme, host, port) => UrlOrigin::Tuple { scheme, host: host.to_string(), port },
        },
    })
}

impl UrlOrigin {
    /// A second value for the same origin.
    pub fn duplicate(&self) -> (r: UrlOrigin)
        ensures
            r@ == self@,
    {
        match self {
            UrlOrigin::Opaque => UrlOrigin::Opaque,
            UrlOrigin::Tuple { scheme, host, port } => UrlOrigin::Tuple {
                scheme: scheme.clone(),
                host: host.clone(),
                port: *port,
            },
        }
    }

    /// Whether `other` is the same origin.  An opaque origin is the same as
    /// none.
    pub fn same_as(&self, other: &UrlOrigin) -> (r: bool)
        ensures
            r == self@.same_as(other@),
    {
        match (self, other) {
            (
                UrlOrigin::Tuple { scheme: s1, host: h1, port: p1 },
                UrlOrigin::Tuple { scheme: s2, host: h2, port: p2 },
            ) => str_eq(s1.as_str(), s2.as_str()) && str_eq(h1.as_str(), h2.as_str()) && *p1 == *p2,
            _ => false,
        }
    }
}

impl Url {
    /// Resolves `input` against this URL.
    pub fn join(&self, input: &str) -> (r: Result<Url, ParseError>)
        ensures
            r is Ok <==> joined_url(self@.href, input@) is Some,
            r matches Ok(u) ==> Some(u@) == joined_url(self@.href, input@),
    {
        url_join(self.href.as_str(), input)
    }

    /// A second value for the same URL.
    pub fn duplicate(&self) -> (r: Url)
        ensures
            r@ == self@,
    {
        Url {
            href: self.href.clone(),
            scheme: self.scheme.clone(),
            username: self.username.clone(),
            password: match &self.password {
                Some(p) => Some(p.clone()),
                None => None,
            },
            path: self.path.clone(),
            cannot_be_a_base: self.cannot_be_a_base,
            origin: self.origin.duplicate(),
        }
    }

    /// Whether the URL is `about:client`, which stands for the caller's own
    /// default referrer.
    pub fn is_about_client(&self) -> (r: bool)
        ensures
            r == self@.is_about_client(),
    {
        self.cannot_be_a_base && str_eq(self.scheme.as_str(), "about") && str_eq(
            self.path.as_str(),
            "client",
        )
    }
}

/// Whether the URL carries a user name or a password.
pub fn includes_credentials(input: &Url) -> (r: bool)
    ensures
        r == input@.includes_credentials(),
{
    !input.username.as_str().is_empty() || input.password.is_some()
}

} // verus!
