//! Request methods and protocol versions.

use vstd::prelude::*;

verus! {

/// The method of a request.
#[derive(Debug)]
pub enum Method {
    Options,
    Get,
    Post,
    Put,
    Delete,
    Head,
    Trace,
    Connect,
    Patch,
    /// A method outside the standard ones, by its name.
    Extension(String),
}

impl Clone for Method {
    fn clone(&self) -> (r: Method)
        ensures
            r.same(*self),
    {
        match self {
            Method::Options => Method::Options,
            Method::Get => Method::Get,
            Method::Post => Method::Post,
            Method::Put => Method::Put,
            Method::Delete => Method::Delete,
            Method::Head => Method::Head,
            Method::Trace => Method::Trace,
            Method::Connect => Method::Connect,
            Method::Patch => Method::Patch,
            Method::Extension(name) => Method::Extension(name.clone()),
        }
    }
}

impl Method {
    /// Whether two methods are the same method.
    pub open spec fn same(self, other: Method) -> bool {
        match (self, other) {
            (Method::Options, Method::Options) => true,
            (Method::Get, Method::Get) => true,
            (Method::Post, Method::Post) => true,
            (Method::Put, Method::Put) => true,
            (Method::Delete, Method::Delete) => true,
            (Method::Head, Method::Head) => true,
            (Method::Trace, Method::Trace) => true,
            (Method::Connect, Method::Connect) => true,
            (Method::Patch, Method::Patch) => true,
            (Method::Extension(a), Method::Extension(b)) => a@ == b@,
            _ => false,
        }
    }

    pub fn is_get(&self) -> (b: bool)
        ensures
            b == (*self is Get),
    {
        matches!(self, Method::Get)
    }

    pub fn is_post(&self) -> (b: bool)
        ensures
            b == (*self is Post),
    {
        matches!(self, Method::Post)
    }

    pub fn is_head(&self) -> (b: bool)
        ensures
            b == (*self is Head),
    {
        matches!(self, Method::Head)
    }
}

/// The version of HTTP that a request is sent in.
#[derive(Clone, Copy, Debug, PartialEq, Eq, Structural)]
pub enum Version {
    Http09,
    Http10,
    Http11,
    Http2,
    Http3,
}

} // verus!
