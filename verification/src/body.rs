//! The body of a request.

use vstd::prelude::*;
use crate::bytes::to_vec;

verus! {

/// What a request carries: nothing, bytes at hand, or a stream that the
/// caller holds and that can be read once.
#[derive(Debug)]
pub enum Body {
    Empty,
    Bytes(Vec<u8>),
    /// A stream, by the number under which its owner keeps it.
    Stream(u64),
}

/// A multipart form: the boundary between its parts, its length where that
/// is known before it is sent, and the stream that yields it.
#[derive(Debug)]
pub struct Form {
    pub boundary: String,
    pub length: Option<u64>,
    pub stream: u64,
}

impl Form {
    pub fn boundary(&self) -> (r: &str)
        ensures
            r@ == self.boundary@,
    {
        self.boundary.as_str()
    }

    pub fn compute_length(&self) -> (r: Option<u64>)
        ensures
            r == self.length,
    {
        self.length
    }

    /// The body that yields the form.
    pub fn stream(self) -> (b: Body)
        ensures
            b@ == BodyView::Stream(self.stream),
    {
        Body::Stream(self.stream)
    }
}

/// A body as the mathematics sees it.
pub enum BodyView {
    Empty,
    Bytes(Seq<u8>),
    Stream(u64),
}

impl View for Body {
    type V = BodyView;

    open spec fn view(&self) -> BodyView {
        match self {
            Body::Empty => BodyView::Empty,
            Body::Bytes(b) => BodyView::Bytes(b@),
            Body::Stream(id) => BodyView::Stream(*id),
        }
    }
}

/// The view of an optional body.
pub open spec fn opt_body_view(body: Option<Body>) -> Option<BodyView> {
    match body {
        Some(b) => Some(b@),
        None => None,
    }
}

impl Body {
    pub fn empty() -> (b: Body)
        ensures
            b@ == BodyView::Empty,
    {
        Body::Empty
    }

    pub fn from_bytes(bytes: Vec<u8>) -> (b: Body)
        ensures
            b@ == BodyView::Bytes(bytes@),
    {
        Body::Bytes(bytes)
    }

    pub fn stream(id: u64) -> (b: Body)
        ensures
            b@ == BodyView::Stream(id),
    {
        Body::Stream(id)
    }

    /// Whether the body can be sent a second time: a stream cannot.
    pub open spec fn cloneable(&self) -> bool {
        !(*self is Stream)
    }

    /// A second copy of the body, where it can be sent twice.
    pub fn try_clone(&self) -> (r: Option<Body>)
        ensures
            r is Some == self.cloneable(),
            r is Some ==> r->Some_0@ == self@,
    {
        match self {
            Body::Empty => Some(Body::Empty),
            Body::Bytes(b) => Some(Body::Bytes(to_vec(b.as_slice()))),
            Body::Stream(_) => None,
        }
    }

    /// The bytes of the body, where they are at hand.
    pub fn as_bytes(&self) -> (r: Option<&[u8]>)
        ensures
            match self@ {
                BodyView::Bytes(b) => r is Some && r->Some_0@ == b,
                _ => r is None,
            },
    {
        match self {
            Body::Bytes(b) => Some(b.as_slice()),
            _ => None,
        }
    }

    /// The length of the body, where it is known before it is sent.
    pub fn content_length(&self) -> (r: Option<u64>)
        ensures
            match self@ {
                BodyView::Empty => r == Some(0u64),
                BodyView::Bytes(b) => r == Some(b.len() as u64),
                BodyView::Stream(_) => r is None,
            },
    {
        match self {
            Body::Empty => Some(0),
            Body::Bytes(b) => Some(b.len() as u64),
            Body::Stream(_) => None,
        }
    }
}

} // verus!
