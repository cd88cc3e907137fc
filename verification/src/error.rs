//! The validation failures of request construction.  Every one of them is
//! reported to a script as a `TypeError`.

use vstd::prelude::*;

verus! {

/// Why a request, or a change to its header list, was refused.
#[derive(Clone, Copy, Debug, PartialEq, Eq, Structural)]
pub enum RequestError {
    /// The URL did not parse against the base URL.
    UrlNotParsed,
    /// The URL carries a user name or a password.
    UrlHasCredentials,
    /// The request given as input has a body that is being read or was read.
    InputDisturbedOrLocked,
    /// A window was given and it is not null.
    WindowNotNull,
    /// The referrer did not parse against the base URL.
    ReferrerNotParsed,
    /// The mode asked for is `navigate`.
    ModeIsNavigate,
    /// The cache mode is `only-if-cached` and the mode is not `same-origin`.
    OnlyIfCachedNeedsSameOrigin,
    /// The method is one that scripts may not use.
    MethodForbidden,
    /// The method is no token: it is empty or holds a byte that is no
    /// token character.
    MethodNotToken,
    /// The mode is `no-cors` and the method is none of GET, HEAD and POST.
    MethodNotSafelisted,
    /// A body was given although the method is GET.
    BodyWithGet,
    /// A body was given although the method is HEAD.
    BodyWithHead,
    /// The body of the request to clone is locked.
    RequestLocked,
    /// The body of the request to clone was read.
    RequestDisturbed,
    /// The body was asked for a second time, or while it is locked.
    BodyDisturbedOrLocked,
    /// A header name is no token, or is too long to store.
    HeaderNameInvalid,
    /// A header value holds a NUL, a line feed or a carriage return.
    HeaderValueInvalid,
    /// The header list does not take changes.
    GuardImmutable,
    /// An item of a header sequence is no pair.
    HeaderPairMalformed,
    /// The header list holds as many headers as this library lets it hold.
    TooManyHeaders,
}

impl RequestError {
    /// The text of the failure.
    pub fn message(&self) -> (text: &'static str)
        ensures
            text@ == self.message_text(),
    {
        match self {
            RequestError::UrlNotParsed => "Url could not be parsed",
            RequestError::UrlHasCredentials => "Url includes credentials",
            RequestError::InputDisturbedOrLocked => "Input is disturbed or locked",
            RequestError::WindowNotNull => "Window is present and is not null",
            RequestError::ReferrerNotParsed => "Failed to parse referrer url",
            RequestError::ModeIsNavigate => "Request mode is Navigate",
            RequestError::OnlyIfCachedNeedsSameOrigin => {
                "Cache is 'only-if-cached' and mode is not 'same-origin'"
            },
            RequestError::MethodForbidden => "Method is forbidden",
            RequestError::MethodNotToken => "Method is not a method",
            RequestError::MethodNotSafelisted => {
                "The mode is 'no-cors' but the method is not a cors-safelisted method"
            },
            RequestError::BodyWithGet => "Init's body is non-null, and request method is GET",
            RequestError::BodyWithHead => "Init's body is non-null, and request method is HEAD",
            RequestError::RequestLocked => "Request is locked",
            RequestError::RequestDisturbed => "Request is disturbed",
            RequestError::BodyDisturbedOrLocked => "The body's stream is disturbed or locked",
            RequestError::HeaderNameInvalid => "Name is not valid",
            RequestError::HeaderValueInvalid => "Header value is not valid",
            RequestError::GuardImmutable => "Guard is immutable",
            RequestError::HeaderPairMalformed => "Each header object must be a sequence of length 2",
            RequestError::TooManyHeaders => "Too many headers",
        }
    }

    pub open spec fn message_text(&self) -> Seq<char> {
        match self {
            RequestError::UrlNotParsed => "Url could not be parsed"@,
            RequestError::UrlHasCredentials => "Url includes credentials"@,
            RequestError::InputDisturbedOrLocked => "Input is disturbed or locked"@,
            RequestError::WindowNotNull => "Window is present and is not null"@,
            RequestError::ReferrerNotParsed => "Failed to parse referrer url"@,
            RequestError::ModeIsNavigate => "Request mode is Navigate"@,
            RequestError::OnlyIfCachedNeedsSameOrigin => {
                "Cache is 'only-if-cached' and mode is not 'same-origin'"@
            },
            RequestError::MethodForbidden => "Method is forbidden"@,
            RequestError::MethodNotToken => "Method is not a method"@,
            RequestError::MethodNotSafelisted => {
                "The mode is 'no-cors' but the method is not a cors-safelisted method"@
            },
            RequestError::BodyWithGet => "Init's body is non-null, and request method is GET"@,
            RequestError::BodyWithHead => "Init's body is non-null, and request method is HEAD"@,
            RequestError::RequestLocked => "Request is locked"@,
            RequestError::RequestDisturbed => "Request is disturbed"@,
            RequestError::BodyDisturbedOrLocked => "The body's stream is disturbed or locked"@,
            RequestError::HeaderNameInvalid => "Name is not valid"@,
            RequestError::HeaderValueInvalid => "Header value is not valid"@,
            RequestError::GuardImmutable => "Guard is immutable"@,
            RequestError::HeaderPairMalformed => {
                "Each header object must be a sequence of length 2"@
            },
            RequestError::TooManyHeaders => "Too many headers"@,
        }
    }
}

} // verus!
