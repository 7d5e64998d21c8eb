//! The errors that the client reports.

use vstd::prelude::*;
use vstd::string::StringExecFns;
use crate::url::{Url, UrlView};

verus! {

/// The stage at which a request failed.
#[derive(Clone, Copy, Debug, PartialEq, Eq, Structural)]
pub enum Kind {
    /// Misconfiguration before send: a bad URL, an invalid header, a
    /// serialization failure.
    Builder,
    /// Failure before response headers were received.
    Request,
    /// Redirect policy refusal, loop detection, invalid `Location`,
    /// HTTPS-only violation.
    Redirect,
    /// Raised only for callers who ask for an error on a failure status.
    Status(u16),
    /// Failure during response body read.
    Body,
    /// Decompression failure.
    Decode,
}

/// An error: its kind, whether a timer caused it, the URL it concerns where
/// one is known, and what went wrong, in words.
#[derive(Debug)]
pub struct Error {
    pub kind: Kind,
    pub timeout: bool,
    pub url: Option<Url>,
    pub message: String,
}

/// The view of an optional URL.
pub open spec fn opt_url_view(url: Option<Url>) -> Option<UrlView> {
    match url {
        Some(u) => Some(u@),
        None => None,
    }
}

impl Error {
    pub fn new(kind: Kind, message: &str) -> (e: Error)
        ensures
            e.kind == kind,
            !e.timeout,
            e.url is None,
            e.message@ == message@,
    {
        Error { kind, timeout: false, url: None, message: String::from_str(message) }
    }

    pub fn builder(message: &str) -> (e: Error)
        ensures
            e.kind == Kind::Builder,
            !e.timeout,
            e.url is None,
            e.message@ == message@,
    {
        Error::new(Kind::Builder, message)
    }

    pub fn request(message: &str) -> (e: Error)
        ensures
            e.kind == Kind::Request,
            !e.timeout,
            e.url is None,
            e.message@ == message@,
    {
        Error::new(Kind::Request, message)
    }

    pub fn redirect(message: &str, url: Url) -> (e: Error)
        ensures
            e.kind == Kind::Redirect,
            !e.timeout,
            opt_url_view(e.url) == Some(url@),
            e.message@ == message@,
    {
        Error { kind: Kind::Redirect, timeout: false, url: Some(url), message: String::from_str(message) }
    }

    pub fn body(message: &str) -> (e: Error)
        ensures
            e.kind == Kind::Body,
            !e.timeout,
            e.url is None,
            e.message@ == message@,
    {
        Error::new(Kind::Body, message)
    }

    pub fn decode(message: &str) -> (e: Error)
        ensures
            e.kind == Kind::Decode,
            !e.timeout,
            e.url is None,
            e.message@ == message@,
    {
        Error::new(Kind::Decode, message)
    }

    /// The error of a timer that ran out at the stage `kind`.
    pub fn timed_out(kind: Kind) -> (e: Error)
        ensures
            e.kind == kind,
            e.timeout,
            e.url is None,
            e.message@ == "operation timed out"@,
    {
        Error { kind, timeout: true, url: None, message: String::from_str("operation timed out") }
    }

    /// The same error, said of `url`.
    pub fn with_url(self, url: Url) -> (e: Error)
        ensures
            e.kind == self.kind,
            e.timeout == self.timeout,
            opt_url_view(e.url) == Some(url@),
            e.message == self.message,
    {
        Error { kind: self.kind, timeout: self.timeout, url: Some(url), message: self.message }
    }

    pub fn is_builder(&self) -> (b: bool)
        ensures
            b == (self.kind == Kind::Builder),
    {
        matches!(self.kind, Kind::Builder)
    }

    pub fn is_request(&self) -> (b: bool)
        ensures
            b == (self.kind == Kind::Request),
    {
        matches!(self.kind, Kind::Request)
    }

    pub fn is_redirect(&self) -> (b: bool)
        ensures
            b == (self.kind == Kind::Redirect),
    {
        matches!(self.kind, Kind::Redirect)
    }

    pub fn is_body(&self) -> (b: bool)
        ensures
            b == (self.kind == Kind::Body),
    {
        matches!(self.kind, Kind::Body)
    }

    pub fn is_decode(&self) -> (b: bool)
        ensures
            b == (self.kind == Kind::Decode),
    {
        matches!(self.kind, Kind::Decode)
    }

    pub fn is_status(&self) -> (b: bool)
        ensures
            b == (self.kind is Status),
    {
        matches!(self.kind, Kind::Status(_))
    }

    pub fn is_timeout(&self) -> (b: bool)
        ensures
            b == self.timeout,
    {
        self.timeout
    }

    pub fn url(&self) -> (r: Option<&Url>)
        ensures
            r is Some == self.url is Some,
            r is Some ==> *r->Some_0 == self.url->Some_0,
    {
        self.url.as_ref()
    }
}

/// What the outermost layer makes of an error that reached it: a timer that
/// ran out before the response began is a failure of the request; every
/// other error passes as it is.
pub fn map_timeout_to_request_error(error: Error) -> (e: Error)
    ensures
        e.timeout == error.timeout,
        e.url == error.url,
        e.message == error.message,
        e.kind == (if error.timeout && error.kind != Kind::Body {
            Kind::Request
        } else {
            error.kind
        }),
{
    if error.timeout && !matches!(error.kind, Kind::Body) {
        Error { kind: Kind::Request, timeout: true, url: error.url, message: error.message }
    } else {
        error
    }
}

} // verus!
