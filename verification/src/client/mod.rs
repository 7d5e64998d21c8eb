//! The client: the entry point through which requests are built and
//! executed.

pub mod builder;
pub mod dispatch;
pub mod request;
pub mod service;
pub mod stack;

use std::sync::Arc;
use vstd::prelude::*;
use crate::body::{Body, BodyView};
use crate::client::builder::ClientBuilder;
use crate::client::request::{Request, RequestBuilder};
use crate::client::service::HttpRequest;
use crate::client::stack::Stack;
use crate::error::{Error, Kind};
use crate::method::{Method, Version};
use crate::sync::share;
use crate::url::Url;

verus! {

/// The stack of a client: behind a common face where the caller has put
/// layers of its own around it, else in its own type. The two do the same.
#[derive(Debug)]
pub enum ClientRef {
    Boxed(Stack),
    Generic(Stack),
}

impl ClientRef {
    pub open spec fn stack(self) -> Stack {
        match self {
            ClientRef::Boxed(s) => s,
            ClientRef::Generic(s) => s,
        }
    }
}

/// An `Client` to make Requests with.
///
/// The Client has various configuration values to tweak, but the defaults
/// are set to what is usually the most commonly desired value. To configure a
/// `Client`, use `Client::builder()`.
///
/// The `Client` holds a connection pool internally, so it is advised that
/// you create one and **reuse** it.
#[derive(Debug)]
pub struct Client {
    inner: Arc<ClientRef>,
}

impl View for Client {
    type V = ClientRef;

    closed spec fn view(&self) -> ClientRef {
        *self.inner
    }
}

impl Clone for Client {
    fn clone(&self) -> (r: Client)
        ensures
            r@ == self@,
    {
        Client { inner: share(&self.inner) }
    }
}

/// A request on its way: handed to the stack of the client, or failed
/// before it got there.
#[derive(Debug)]
pub enum Pending {
    BoxedRequest { url: Url, request: HttpRequest },
    GenericRequest { url: Url, request: HttpRequest },
    Error { error: Error },
}

/// Whether the transport takes a text as the target of a request.
pub uninterp spec fn uri_accepted(text: Seq<char>) -> bool;

/// `http::Uri::try_from`: whether the parser of request targets takes the
/// text.
#[verifier::external_body]
fn uri_parses(text: &str) -> (b: bool)
    ensures
        b == uri_accepted(text@),
{
    http::Uri::try_from(text).is_ok()
}

/// A request builder for a WebSocket handshake.
#[derive(Debug)]
pub struct WebSocketRequestBuilder {
    pub inner: RequestBuilder,
}

impl WebSocketRequestBuilder {
    pub fn new(inner: RequestBuilder) -> (r: WebSocketRequestBuilder)
        ensures
            r.inner == inner,
    {
        WebSocketRequestBuilder { inner }
    }
}

impl Client {
    /// A client around a stack.
    pub fn from_ref(inner: ClientRef) -> (c: Client)
        ensures
            c@ == inner,
    {
        Client { inner: Arc::new(inner) }
    }

    /// The stack of the client.
    pub fn inner(&self) -> (r: &ClientRef)
        ensures
            *r == self@,
    {
        &*self.inner
    }

    /// Constructs a new `Client` with the default configuration.
    pub fn new() -> (c: Client)
        ensures
            exists|config: crate::client::builder::Config|
                config.is_default() && #[trigger] config.builds(c@),
    {
        let builder = ClientBuilder::new();
        let ghost config = builder.config;
        match builder.build() {
            Ok(c) => {
                assert(config.builds(c@));
                c
            },
            Err(_) => {
                proof {
                    assert(false);
                }
                unreached()
            },
        }
    }

    /// Creates a `ClientBuilder` to configure a `Client`.
    ///
    /// This is the same as `ClientBuilder::new()`.
    pub fn builder() -> (b: ClientBuilder)
        ensures
            b.config.is_default(),
    {
        ClientBuilder::new()
    }

    /// Convenience method to make a `GET` request to a URL.
    ///
    /// # Errors
    ///
    /// This method fails whenever the supplied `Url` cannot be parsed.
    pub fn get(&self, url: &str) -> (r: RequestBuilder)
        ensures
            RequestBuilder::started(r, *self, Method::Get, url@),
    {
        self.request(Method::Get, url)
    }

    /// Upgrades the `RequestBuilder` to perform a websocket handshake.
    /// This returns a wrapped type, so you must do this after you set up
    /// your request, and just before you send the request.
    pub fn websocket(&self, url: &str) -> (r: WebSocketRequestBuilder)
        ensures
            RequestBuilder::started(r.inner, *self, Method::Get, url@),
    {
        WebSocketRequestBuilder::new(self.request(Method::Get, url))
    }

    /// Convenience method to make a `POST` request to a URL.
    pub fn post(&self, url: &str) -> (r: RequestBuilder)
        ensures
            RequestBuilder::started(r, *self, Method::Post, url@),
    {
        self.request(Method::Post, url)
    }

    /// Convenience method to make a `PUT` request to a URL.
    pub fn put(&self, url: &str) -> (r: RequestBuilder)
        ensures
            RequestBuilder::started(r, *self, Method::Put, url@),
    {
        self.request(Method::Put, url)
    }

    /// Convenience method to make a `PATCH` request to a URL.
    pub fn patch(&self, url: &str) -> (r: RequestBuilder)
        ensures
            RequestBuilder::started(r, *self, Method::Patch, url@),
    {
        self.request(Method::Patch, url)
    }

    /// Convenience method to make a `DELETE` request to a URL.
    pub fn delete(&self, url: &str) -> (r: RequestBuilder)
        ensures
            RequestBuilder::started(r, *self, Method::Delete, url@),
    {
        self.request(Method::Delete, url)
    }

    /// Convenience method to make a `HEAD` request to a URL.
    pub fn head(&self, url: &str) -> (r: RequestBuilder)
        ensures
            RequestBuilder::started(r, *self, Method::Head, url@),
    {
        self.request(Method::Head, url)
    }

    /// Start building a `Request` with the `Method` and `Url`.
    ///
    /// Returns a `RequestBuilder`, which will allow setting headers and
    /// the request body before sending.
    ///
    /// # Errors
    ///
    /// This method fails whenever the supplied `Url` cannot be parsed.
    pub fn request(&self, method: Method, url: &str) -> (r: RequestBuilder)
        ensures
            RequestBuilder::started(r, *self, method, url@),
    {
        let req = match Url::parse(url) {
            Some(url) => {
                if url.has_host() {
                    Ok(Request::new(method, url))
                } else {
                    Err(Error::builder("URL scheme is not allowed").with_url(url))
                }
            },
            None => Err(Error::builder("relative URL without a base")),
        };
        RequestBuilder::new(self.clone(), req)
    }

    /// What `execute` makes of a request: the text of its URL as the
    /// target, the version that it enforces or else HTTP/1.1, its headers
    /// and settings, and its body or an empty one.
    pub open spec fn handed_over(request: Request, out: HttpRequest) -> bool {
        &&& out.method == request.method
        &&& out.uri@ == request.url@.text()
        &&& out.version == (match request.extensions.version {
            Some(v) => v,
            None => Version::Http11,
        })
        &&& out.headers == request.headers
        &&& out.extensions == request.extensions
        &&& out.body@ == (match request.body {
            Some(b) => b@,
            None => BodyView::Empty,
        })
    }

    /// Whether `p` is what a client makes of a request that it is to
    /// execute.
    pub open spec fn executed(client: Client, request: Request, p: Pending) -> bool {
        match p {
            Pending::BoxedRequest { url, request: out } => {
                &&& uri_accepted(request.url@.text())
                &&& client@ is Boxed
                &&& url == request.url
                &&& Self::handed_over(request, out)
            },
            Pending::GenericRequest { url, request: out } => {
                &&& uri_accepted(request.url@.text())
                &&& client@ is Generic
                &&& url == request.url
                &&& Self::handed_over(request, out)
            },
            Pending::Error { error } => {
                &&& !uri_accepted(request.url@.text())
                &&& error.kind == Kind::Builder
                &&& crate::error::opt_url_view(error.url) == Some(request.url@)
            },
        }
    }

    /// Executes a `Request`.
    ///
    /// A `Request` can be built manually with `Request::new()` or obtained
    /// from a RequestBuilder with `RequestBuilder::build()`.
    ///
    /// The request goes to the stack of the client where the transport takes
    /// its URL as a target, and fails as a `builder` error where it does not.
    pub fn execute(&self, request: Request) -> (p: Pending)
        ensures
            Self::executed(*self, request, p),
    {
        let version = match request.version() {
            Some(v) => Some(*v),
            None => None,
        };
        let Request { method, url, headers, extensions, body } = request;
        let uri = url.as_string();
        if uri_parses(uri.as_str()) {
            let req = HttpRequest {
                method,
                uri,
                version: match version {
                    Some(v) => v,
                    None => Version::Http11,
                },
                headers,
                body: match body {
                    Some(b) => b,
                    None => Body::empty(),
                },
                extensions,
            };
            match self.inner() {
                ClientRef::Boxed(_) => Pending::BoxedRequest { url, request: req },
                ClientRef::Generic(_) => Pending::GenericRequest { url, request: req },
            }
        } else {
            Pending::Error { error: Error::builder("invalid request target").with_url(url) }
        }
    }
}

} // verus!
