//! Bodies: what extraction hands over, what the descriptor carries, and the
//! single-use stream through which a script reads a bound body.

use vstd::prelude::*;
use crate::byte_string::to_vec;

verus! {

/// The payload of a request as the transport takes it, with a hint of its
/// length.
#[derive(Debug)]
pub struct RequestBody {
    pub payload: Vec<u8>,
    pub total_bytes: Option<usize>,
}

pub struct RequestBodyView {
    pub payload: Seq<u8>,
    pub total_bytes: Option<usize>,
}

impl View for RequestBody {
    type V = RequestBodyView;

    open spec fn view(&self) -> RequestBodyView {
        RequestBodyView { payload: self.payload@, total_bytes: self.total_bytes }
    }
}

impl RequestBody {
    /// A second body with the same payload.
    pub fn duplicate(&self) -> (r: RequestBody)
        ensures
            r@ == self@,
    {
        RequestBody { payload: to_vec(self.payload.as_slice()), total_bytes: self.total_bytes }
    }
}

/// What extracting a body value gives: the payload, a hint of its length,
/// and the content type that the value declares, if it declares one.
#[derive(Debug)]
pub struct ExtractedBody {
    pub payload: Vec<u8>,
    pub total_bytes: Option<usize>,
    pub content_type: Option<Vec<u8>>,
}

pub struct ExtractedBodyView {
    pub payload: Seq<u8>,
    pub total_bytes: Option<usize>,
    pub content_type: Option<Seq<u8>>,
}

impl View for ExtractedBody {
    type V = ExtractedBodyView;

    open spec fn view(&self) -> ExtractedBodyView {
        ExtractedBodyView {
            payload: self.payload@,
            total_bytes: self.total_bytes,
            content_type: match self.content_type {
                Some(t) => Some(t@),
                None => None,
            },
        }
    }
}

impl ExtractedBodyView {
    /// The body for the descriptor.
    pub open spec fn net_request_body(self) -> RequestBodyView {
        RequestBodyView { payload: self.payload, total_bytes: self.total_bytes }
    }
}

impl ExtractedBody {
    /// The body for the descriptor, and a fresh stream to read it through.
    pub fn into_net_request_body(&self) -> (r: (RequestBody, BodyStream))
        ensures
            r.0@ == self@.net_request_body(),
            r.1 == BodyStream::Unconsumed,
    {
        (
            RequestBody {
                payload: to_vec(self.payload.as_slice()),
                total_bytes: self.total_bytes,
            },
            BodyStream::Unconsumed,
        )
    }
}

/// The state of the stream of a bound body.  A stream is read at most once:
/// from `Unconsumed` it can only move on, and it never comes back.
#[derive(Clone, Copy, Debug, PartialEq, Eq, Structural)]
pub enum BodyStream {
    /// Bound, and nobody has read from it or holds it.
    Unconsumed,
    /// A reader holds the stream.
    Locked,
    /// The stream was read.
    Consumed,
}

impl BodyStream {
    /// Whether reading has begun.
    pub open spec fn disturbed(self) -> bool {
        self is Consumed
    }

    /// Whether a reader holds the stream.
    pub open spec fn locked(self) -> bool {
        self is Locked
    }

    pub fn is_disturbed(&self) -> (r: bool)
        ensures
            r == self.disturbed(),
    {
        match self {
            BodyStream::Consumed => true,
            _ => false,
        }
    }

    pub fn is_locked(&self) -> (r: bool)
        ensures
            r == self.locked(),
    {
        match self {
            BodyStream::Locked => true,
            _ => false,
        }
    }
}

} // verus!
