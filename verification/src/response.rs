//! The head of a response.

use vstd::prelude::*;
use crate::connect::ResponseExtensions;
use crate::error::{opt_url_view, Error, Kind};
use crate::header::map::HeaderMap;
use crate::method::Version;
use crate::url::Url;

verus! {

/// A response: its status, version and headers, the URL that answered, its
/// extensions, and the stream of its body by the number under which its
/// owner keeps it. The body is read once and lazily.
#[derive(Debug)]
pub struct Response {
    pub status: u16,
    pub version: Version,
    pub headers: HeaderMap,
    /// The URL that answered: after redirects, the last one.
    pub url: Url,
    pub extensions: ResponseExtensions,
    pub body: u64,
    /// The length of the body, where the response says it.
    pub content_length: Option<u64>,
}

/// Whether a status stands for a failure of the client or of the server.
pub open spec fn is_failure(status: u16) -> bool {
    400 <= status < 600
}

impl Response {
    pub fn status(&self) -> (s: u16)
        ensures
            s == self.status,
    {
        self.status
    }

    pub fn version(&self) -> (v: Version)
        ensures
            v == self.version,
    {
        self.version
    }

    pub fn headers(&self) -> (h: &HeaderMap)
        ensures
            *h == self.headers,
    {
        &self.headers
    }

    /// The URL that answered.
    pub fn url(&self) -> (u: &Url)
        ensures
            *u == self.url,
    {
        &self.url
    }

    pub fn content_length(&self) -> (n: Option<u64>)
        ensures
            n == self.content_length,
    {
        self.content_length
    }

    /// The same response, as the answer of `url`: what the redirect layer
    /// hands on once it has followed a redirect to there.
    pub fn with_url(self, url: Url) -> (r: Response)
        ensures
            r == (Response { url, ..self }),
    {
        let mut r = self;
        r.url = url;
        r
    }

    /// Turns a response into an error where the server said that the
    /// request failed: a status from 400 to 599. No layer does this of
    /// itself.
    pub fn error_for_status(self) -> (r: Result<Response, Error>)
        ensures
            r is Err == is_failure(self.status),
            r is Ok ==> r->Ok_0 == self,
            r is Err ==> r->Err_0.kind == Kind::Status(self.status) && !r->Err_0.timeout
                && opt_url_view(r->Err_0.url) == Some(self.url@),
    {
        if 400 <= self.status && self.status < 600 {
            Err(Error::new(Kind::Status(self.status), "HTTP status error").with_url(self.url))
        } else {
            Ok(self)
        }
    }
}

} // verus!
