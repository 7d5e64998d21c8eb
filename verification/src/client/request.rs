//! Requests and the builder that assembles them.

use vstd::prelude::*;
use vstd::string::StringSliceAdditionalSpecFns;
use crate::body::{opt_body_view, Body, BodyView};
use crate::bytes::{extend, to_vec};
use crate::client::{Client, Pending};
use crate::config::{AcceptEncoding, EmulationProvider, TcpConnectOptions, TransportConfig};
use crate::dns::{IpAddr, Ipv4Addr, Ipv6Addr};
use crate::error::{Error, Kind};
use crate::ext::Extensions;
use crate::header::map::{contains_name, replaced, Field, HeaderMap};
use crate::header::original::OriginalHeaders;
use crate::header::{valid_name, valid_value, HeaderName, HeaderValue};
use crate::method::{Method, Version};
use crate::proxy::{Matcher, Proxy};
use crate::redirect::policy::Policy;
use crate::time::Duration;
use crate::url::{percent_decode_utf8, percent_decoded, Url, UrlView};

verus! {

/// A request which can be executed with `Client::execute()`.
#[derive(Debug)]
pub struct Request {
    pub method: Method,
    pub url: Url,
    pub headers: HeaderMap,
    pub body: Option<Body>,
    pub extensions: Extensions,
}

impl Request {
    /// Constructs a new request.
    #[inline]
    pub fn new(method: Method, url: Url) -> (r: Request)
        ensures
            r.method == method,
            r.url == url,
            r.headers@ == Seq::<Field>::empty(),
            r.body is None,
            r.extensions.same(Extensions::new_spec()),
    {
        Request {
            method,
            url,
            headers: HeaderMap::new(),
            body: None,
            extensions: Extensions::new(),
        }
    }

    /// Get the method.
    #[inline(always)]
    pub fn method(&self) -> (r: &Method)
        ensures
            *r == self.method,
    {
        &self.method
    }

    /// Get a mutable reference to the method.
    #[inline(always)]
    pub fn method_mut(&mut self) -> (r: &mut Method)
        ensures
            *r == old(self).method,
            *final(self) == (Request { method: *final(r), ..*old(self) }),
    {
        &mut self.method
    }

    /// Get the url.
    #[inline(always)]
    pub fn url(&self) -> (r: &Url)
        ensures
            *r == self.url,
    {
        &self.url
    }

    /// Get a mutable reference to the url.
    #[inline(always)]
    pub fn url_mut(&mut self) -> (r: &mut Url)
        ensures
            *r == old(self).url,
            *final(self) == (Request { url: *final(r), ..*old(self) }),
    {
        &mut self.url
    }

    /// Get the headers.
    #[inline(always)]
    pub fn headers(&self) -> (r: &HeaderMap)
        ensures
            *r == self.headers,
    {
        &self.headers
    }

    /// Get a mutable reference to the headers.
    #[inline(always)]
    pub fn headers_mut(&mut self) -> (r: &mut HeaderMap)
        ensures
            *r == old(self).headers,
            *final(self) == (Request { headers: *final(r), ..*old(self) }),
    {
        &mut self.headers
    }

    /// Get a mutable reference to the original headers.
    #[inline(always)]
    pub fn original_headers_mut(&mut self) -> (r: &mut Option<OriginalHeaders>)
        ensures
            *r == old(self).extensions.original_headers,
            *final(self) == (Request {
                extensions: Extensions { original_headers: *final(r), ..old(self).extensions },
                ..*old(self)
            }),
    {
        &mut self.extensions.original_headers
    }

    /// Get a mutable reference to the redirect policy.
    #[inline(always)]
    pub fn redirect_mut(&mut self) -> (r: &mut Option<Policy>)
        ensures
            *r == old(self).extensions.redirect,
            *final(self) == (Request {
                extensions: Extensions { redirect: *final(r), ..old(self).extensions },
                ..*old(self)
            }),
    {
        &mut self.extensions.redirect
    }

    /// Get the body.
    #[inline(always)]
    pub fn body(&self) -> (r: Option<&Body>)
        ensures
            r is Some == self.body is Some,
            r is Some ==> *r->Some_0 == self.body->Some_0,
    {
        self.body.as_ref()
    }

    /// Get a mutable reference to the body.
    #[inline(always)]
    pub fn body_mut(&mut self) -> (r: &mut Option<Body>)
        ensures
            *r == old(self).body,
            *final(self) == (Request { body: *final(r), ..*old(self) }),
    {
        &mut self.body
    }

    /// Get the http version.
    #[inline]
    pub fn version(&self) -> (r: Option<&Version>)
        ensures
            r is Some == self.extensions.version is Some,
            r is Some ==> *r->Some_0 == self.extensions.version->Some_0,
    {
        self.extensions.version.as_ref()
    }

    /// Get a mutable reference to the http version.
    #[inline(always)]
    pub fn version_mut(&mut self) -> (r: &mut Option<Version>)
        ensures
            *r == old(self).extensions.version,
            *final(self) == (Request {
                extensions: Extensions { version: *final(r), ..old(self).extensions },
                ..*old(self)
            }),
    {
        &mut self.extensions.version
    }

    /// Get a mutable reference to the timeout.
    #[inline(always)]
    pub fn timeout_mut(&mut self) -> (r: &mut Option<Duration>)
        ensures
            *r == old(self).extensions.timeout,
            *final(self) == (Request {
                extensions: Extensions { timeout: *final(r), ..old(self).extensions },
                ..*old(self)
            }),
    {
        &mut self.extensions.timeout
    }

    /// Get a mutable reference to the read timeout.
    #[inline(always)]
    pub fn read_timeout_mut(&mut self) -> (r: &mut Option<Duration>)
        ensures
            *r == old(self).extensions.read_timeout,
            *final(self) == (Request {
                extensions: Extensions { read_timeout: *final(r), ..old(self).extensions },
                ..*old(self)
            }),
    {
        &mut self.extensions.read_timeout
    }

    /// Get a mutable reference to the tcp connect options.
    #[inline(always)]
    pub fn tcp_connect_options_mut(&mut self) -> (r: &mut Option<TcpConnectOptions>)
        ensures
            *r == old(self).extensions.tcp_connect_options,
            *final(self) == (Request {
                extensions: Extensions { tcp_connect_options: *final(r), ..old(self).extensions },
                ..*old(self)
            }),
    {
        &mut self.extensions.tcp_connect_options
    }

    /// Get a mutable reference to the proxy matcher.
    #[inline(always)]
    pub fn proxy_matcher_mut(&mut self) -> (r: &mut Option<Matcher>)
        ensures
            *r == old(self).extensions.proxy_matcher,
            *final(self) == (Request {
                extensions: Extensions { proxy_matcher: *final(r), ..old(self).extensions },
                ..*old(self)
            }),
    {
        &mut self.extensions.proxy_matcher
    }

    /// Get the accepts encoding.
    #[inline(always)]
    pub fn accpet_encoding_mut(&mut self) -> (r: &mut Option<AcceptEncoding>)
        ensures
            *r == old(self).extensions.accept_encoding,
            *final(self) == (Request {
                extensions: Extensions { accept_encoding: *final(r), ..old(self).extensions },
                ..*old(self)
            }),
    {
        &mut self.extensions.accept_encoding
    }

    /// Skip client default headers.
    #[inline(always)]
    pub fn default_headers_mut(&mut self) -> (r: &mut Option<bool>)
        ensures
            *r == old(self).extensions.skip_default_headers,
            *final(self) == (Request {
                extensions: Extensions { skip_default_headers: *final(r), ..old(self).extensions },
                ..*old(self)
            }),
    {
        &mut self.extensions.skip_default_headers
    }

    #[inline(always)]
    pub fn transport_config_mut(&mut self) -> (r: &mut Option<TransportConfig>)
        ensures
            *r == old(self).extensions.transport_config,
            *final(self) == (Request {
                extensions: Extensions { transport_config: *final(r), ..old(self).extensions },
                ..*old(self)
            }),
    {
        &mut self.extensions.transport_config
    }

    /// Get the extensions.
    #[inline(always)]
    pub fn extensions(&self) -> (r: &Extensions)
        ensures
            *r == self.extensions,
    {
        &self.extensions
    }

    /// Get a mutable reference to the extensions.
    #[inline(always)]
    pub fn extensions_mut(&mut self) -> (r: &mut Extensions)
        ensures
            *r == old(self).extensions,
            *final(self) == (Request { extensions: *final(r), ..*old(self) }),
    {
        &mut self.extensions
    }

    /// The request that a request in the form of the transport stands
    /// for: with the method, the headers and the body of that one, the URL
    /// that its target spells, and no settings of its own. A target that is
    /// no URL, or a URL without a host, is a `builder` error.
    pub fn try_from_http(req: crate::client::service::HttpRequest) -> (r: Result<Request, Error>)
        ensures
            match crate::url::parsed_url(req.uri@) {
                Some(u) => if u.host is Some {
                    &&& r is Ok
                    &&& r->Ok_0.method == req.method
                    &&& r->Ok_0.url@ == u
                    &&& r->Ok_0.headers == req.headers
                    &&& r->Ok_0.body == Some(req.body)
                    &&& r->Ok_0.extensions == Extensions::new_spec()
                } else {
                    r is Err && r->Err_0.kind == Kind::Builder
                },
                None => r is Err && r->Err_0.kind == Kind::Builder,
            },
    {
        let crate::client::service::HttpRequest { method, uri, version: _, headers, body, extensions: _ } =
            req;
        match Url::parse(uri.as_str()) {
            Some(url) => {
                if url.has_host() {
                    Ok(Request { method, url, headers, body: Some(body), extensions: Extensions::new() })
                } else {
                    Err(Error::builder("URL scheme is not allowed").with_url(url))
                }
            },
            None => Err(Error::builder("relative URL without a base")),
        }
    }

    /// Whether two requests say the same: same method, URL, headers, body
    /// and settings.
    pub open spec fn same(self, other: Request) -> bool {
        &&& self.method.same(other.method)
        &&& self.url@ == other.url@
        &&& self.headers@ == other.headers@
        &&& opt_body_view(self.body) == opt_body_view(other.body)
        &&& self.extensions.same(other.extensions)
    }

    /// Attempt to clone the request.
    ///
    /// `None` is returned if the request can not be cloned, i.e. if the body is a stream.
    pub fn try_clone(&self) -> (r: Option<Request>)
        ensures
            r is Some == (self.body is Some ==> self.body->Some_0.cloneable()),
            r is Some ==> r->Some_0.same(*self),
    {
        let body = match self.body() {
            Some(body) => match body.try_clone() {
                Some(b) => Some(b),
                None => {
                    return None;
                },
            },
            None => None,
        };
        let mut req = Request::new(self.method().clone(), self.url().clone());
        *req.headers_mut() = self.headers().clone();
        *req.extensions_mut() = self.extensions().clone();
        req.body = body;
        Some(req)
    }
}

/// A builder to construct the properties of a `Request`.
///
/// To construct a `RequestBuilder`, refer to the `Client` documentation.
#[must_use]
#[derive(Debug)]
pub struct RequestBuilder {
    pub client: Client,
    pub request: Result<Request, Error>,
}

/// The name `authorization`.
pub open spec fn authorization_name() -> Seq<u8> {
    "authorization".spec_bytes()
}

/// The name `content-type`.
pub open spec fn content_type_name() -> Seq<u8> {
    "content-type".spec_bytes()
}

/// The user name and the password that a URL carries, decoded: nothing for
/// a URL without an authority, with a user name that does not decode, or
/// with neither a user name nor a password.
pub open spec fn credentials_of(url: UrlView) -> Option<(Seq<char>, Option<Seq<char>>)> {
    if url.slashes {
        match percent_decoded(url.username) {
            None => None,
            Some(user) => {
                let pass = match url.password {
                    Some(p) => percent_decoded(p),
                    None => None,
                };
                if user.len() > 0 || pass is Some {
                    Some((user, pass))
                } else {
                    None
                }
            },
        }
    } else {
        None
    }
}

/// Check the request URL for a "username:password" type authority, and if
/// found, remove it from the URL and return it.
pub fn extract_authority(url: &mut Url) -> (r: Option<(String, Option<String>)>)
    ensures
        match credentials_of(old(url)@) {
            None => r is None && *final(url) == *old(url),
            Some(found) => {
                &&& r is Some
                &&& r->Some_0.0@ == found.0
                &&& crate::url::opt_view(r->Some_0.1) == found.1
                &&& final(url)@ == old(url)@.without_userinfo()
            },
        },
{
    if url.has_authority() {
        let username: String = match percent_decode_utf8(url.username().as_str()) {
            Some(u) => u,
            None => {
                return None;
            },
        };
        let password = match url.password() {
            Some(pass) => percent_decode_utf8(pass.as_str()),
            None => None,
        };
        if username.as_str().unicode_len() > 0 || password.is_some() {
            url.clear_userinfo();
            return Some((username, password));
        }
    }
    None
}

/// The headers after a header operation: a field that is only wanted where
/// the name has none (`or_insert`) is added then alone; one that is to
/// overwrite takes the place of what the name had; any other is appended.
pub open spec fn with_header(
    fields: Seq<Field>,
    field: Field,
    overwrite: bool,
    or_insert: bool,
) -> Seq<Field> {
    if or_insert {
        if contains_name(fields, field.name) {
            fields
        } else {
            fields.push(field)
        }
    } else if overwrite {
        replaced(fields, field)
    } else {
        fields.push(field)
    }
}

/// Whether `after` is `before` with other headers, namely `fields`.
pub open spec fn only_headers(before: Request, after: Request, fields: Seq<Field>) -> bool {
    &&& after.method == before.method
    &&& after.url == before.url
    &&& after.body == before.body
    &&& after.extensions == before.extensions
    &&& after.headers@ == fields
}

/// Whether `after` is what a header operation makes of `before`: a builder
/// that has failed stays as it is; one that has not fails on a name or a
/// value that is none, and else gets the header.
pub open spec fn header_set(
    before: Result<Request, Error>,
    after: Result<Request, Error>,
    name: Option<Seq<u8>>,
    value: Option<Seq<u8>>,
    sensitive: bool,
    overwrite: bool,
    or_insert: bool,
) -> bool {
    match before {
        Err(_) => after == before,
        Ok(req) => match (name, value) {
            (Some(n), Some(v)) => after is Ok && only_headers(
                req,
                after->Ok_0,
                with_header(req.headers@, Field { name: n, value: v, sensitive }, overwrite, or_insert),
            ),
            _ => after is Err && after->Err_0.kind == Kind::Builder,
        },
    }
}

/// The name that a text spells, if it spells one.
pub open spec fn name_of(key: Seq<u8>) -> Option<Seq<u8>> {
    if valid_name(key) {
        Some(crate::bytes::lowered(key))
    } else {
        None
    }
}

/// The value that a text spells, if it spells one.
pub open spec fn value_of(value: Seq<u8>) -> Option<Seq<u8>> {
    if valid_value(value) {
        Some(value)
    } else {
        None
    }
}

/// The query of a URL after `encoded` was put behind what it had.
pub open spec fn extended_query(query: Option<Seq<char>>, encoded: Seq<char>) -> Option<Seq<char>> {
    let had = match query {
        Some(q) => q,
        None => Seq::empty(),
    };
    if encoded.len() == 0 {
        if had.len() == 0 {
            None
        } else {
            Some(had)
        }
    } else if had.len() == 0 {
        Some(encoded)
    } else {
        Some(had + "&"@ + encoded)
    }
}

impl RequestBuilder {
    /// What a builder holds when it is made for `request`: a request whose
    /// URL carries credentials loses them to an `Authorization` header.
    pub open spec fn made(request: Result<Request, Error>, out: Result<Request, Error>) -> bool {
        match request {
            Err(_) => out == request,
            Ok(req) => match credentials_of(req.url@) {
                None => out == request,
                Some(found) => if crate::auth::credentials_fit(found.0, found.1) {
                    &&& out is Ok
                    &&& out->Ok_0.method == req.method
                    &&& out->Ok_0.url@ == req.url@.without_userinfo()
                    &&& out->Ok_0.body == req.body
                    &&& out->Ok_0.extensions == req.extensions
                    &&& out->Ok_0.headers@ == replaced(
                        req.headers@,
                        Field {
                            name: authorization_name(),
                            value: crate::auth::basic_credentials(found.0, found.1),
                            sensitive: true,
                        },
                    )
                } else {
                    out is Err && out->Err_0.kind == Kind::Builder
                },
            },
        }
    }

    /// What a builder holds that a client has started for a method and the
    /// text of a URL: an error where the text is no URL or a URL without a
    /// host; else a request with that method and URL, without headers but
    /// for the credentials that the URL carried, and without a body.
    pub open spec fn started(r: RequestBuilder, client: Client, method: Method, url: Seq<char>) -> bool {
        &&& r.client@ == client@
        &&& match crate::url::parsed_url(url) {
            None => r.request is Err && r.request->Err_0.kind == Kind::Builder,
            Some(u) => if u.host is None {
                r.request is Err && r.request->Err_0.kind == Kind::Builder
            } else {
                exists|req: Request| #[trigger]
                    Self::made(Ok(req), r.request) && req.method == method && req.url@ == u
                        && req.headers@.len() == 0 && req.body is None && req.extensions
                        == Extensions::new_spec()
            },
        }
    }

    pub fn new(client: Client, request: Result<Request, Error>) -> (r: RequestBuilder)
        ensures
            r.client == client,
            Self::made(request, r.request),
    {
        match request {
            Ok(req) => {
                let mut req = req;
                let auth = extract_authority(&mut req.url);
                let builder = RequestBuilder { client, request: Ok(req) };
                if let Some((username, password)) = auth {
                    let password = match &password {
                        Some(p) => Some(p.as_str()),
                        None => None,
                    };
                    builder.basic_auth(username.as_str(), password)
                } else {
                    builder
                }
            },
            Err(e) => RequestBuilder { client, request: Err(e) },
        }
    }

    /// Assemble a builder starting from an existing `Client` and a `Request`.
    pub fn from_parts(client: Client, request: Request) -> (r: RequestBuilder)
        ensures
            r.client == client,
            r.request == Ok::<Request, Error>(request),
    {
        RequestBuilder { client, request: Ok(request) }
    }

    /// Add a `Header` to this Request.
    ///
    /// If the header is already present, the value will be replaced.
    pub fn header(self, key: &str, value: &str) -> (r: RequestBuilder)
        ensures
            r.client == self.client,
            header_set(
                self.request,
                r.request,
                name_of(key.spec_bytes()),
                value_of(value.spec_bytes()),
                false,
                true,
                false,
            ),
    {
        self.header_operation(key, value, false, true, false)
    }

    /// Add a `Header` to append to the request.
    ///
    /// The new header is always appended to the request, even if the header already exists.
    pub fn header_append(self, key: &str, value: &str) -> (r: RequestBuilder)
        ensures
            r.client == self.client,
            header_set(
                self.request,
                r.request,
                name_of(key.spec_bytes()),
                value_of(value.spec_bytes()),
                false,
                false,
                false,
            ),
    {
        self.header_operation(key, value, false, false, false)
    }

    /// Add a `Header` to this Request.
    ///
    /// `sensitive` - if true, the header value is set to sensitive
    /// `overwrite` - if true, the header value is overwritten if it already exists
    /// `or_insert` - if true, the header value is inserted if it does not already exist
    pub fn header_operation(
        self,
        key: &str,
        value: &str,
        sensitive: bool,
        overwrite: bool,
        or_insert: bool,
    ) -> (r: RequestBuilder)
        ensures
            r.client == self.client,
            header_set(
                self.request,
                r.request,
                name_of(key.spec_bytes()),
                value_of(value.spec_bytes()),
                sensitive,
                overwrite,
                or_insert,
            ),
    {
        let name = match HeaderName::from_str(key) {
            Ok(n) => Some(n),
            Err(_) => None,
        };
        let value = match HeaderValue::from_str(value) {
            Ok(v) => Some(v),
            Err(_) => None,
        };
        self.set_header(name, value, sensitive, overwrite, or_insert)
    }

    /// The header operation on a name and a value that were read already;
    /// `None` stands for one that could not be read.
    pub fn set_header(
        self,
        name: Option<HeaderName>,
        value: Option<HeaderValue>,
        sensitive: bool,
        overwrite: bool,
        or_insert: bool,
    ) -> (r: RequestBuilder)
        ensures
            r.client == self.client,
            header_set(
                self.request,
                r.request,
                match name {
                    Some(n) => Some(n@),
                    None => None,
                },
                match value {
                    Some(v) => Some(v@),
                    None => None,
                },
                sensitive || (value is Some && value->Some_0.sensitive()),
                overwrite,
                or_insert,
            ),
    {
        let RequestBuilder { client, request } = self;
        let request = match request {
            Ok(req) => {
                let mut req = req;
                match name {
                    Some(key) => match value {
                        Some(value) => {
                            let mut value = value;
                            // We want to potentially make an unsensitive header
                            // to be sensitive, not the reverse. So, don't turn off
                            // a previously sensitive header.
                            if sensitive {
                                value.set_sensitive(true);
                            }
                            // If or_insert is true, we want to skip the insertion if the header already
                            // exists
                            if or_insert {
                                req.headers.insert_if_absent(key, value);
                            } else if overwrite {
                                req.headers.insert(key, value);
                            } else {
                                req.headers.append(key, value);
                            }
                            Ok(req)
                        },
                        None => Err(Error::builder("invalid header value")),
                    },
                    None => Err(Error::builder("invalid header name")),
                }
            },
            Err(e) => Err(e),
        };
        RequestBuilder { client, request }
    }

    /// Add a set of Headers to the existing ones on this Request.
    ///
    /// The headers will be merged in to any already set.
    pub fn headers(self, headers: HeaderMap) -> (r: RequestBuilder)
        ensures
            r.client == self.client,
            match self.request {
                Ok(req) => r.request is Ok && only_headers(
                    req,
                    r.request->Ok_0,
                    crate::header::map::replaced_all(req.headers@, headers@),
                ),
                Err(_) => r.request == self.request,
            },
    {
        let mut b = self;
        if let Ok(req) = &mut b.request {
            crate::header::order::replace_headers(&mut req.headers, headers);
        }
        b
    }

    /// Set the original headers for this request.
    pub fn original_headers(self, original_headers: OriginalHeaders) -> (r: RequestBuilder)
        ensures
            r.client == self.client,
            r.request == (match self.request {
                Ok(req) => Ok::<Request, Error>(
                    Request {
                        extensions: Extensions {
                            original_headers: Some(original_headers),
                            ..req.extensions
                        },
                        ..req
                    },
                ),
                Err(e) => Err(e),
            }),
    {
        let mut b = self;
        if let Ok(req) = &mut b.request {
            *req.original_headers_mut() = Some(original_headers);
        }
        b
    }

    /// Set skip client default headers for this request.
    pub fn default_headers(self, skip: bool) -> (r: RequestBuilder)
        ensures
            r.client == self.client,
            r.request == (match self.request {
                Ok(req) => Ok::<Request, Error>(
                    Request {
                        extensions: Extensions {
                            skip_default_headers: Some(skip),
                            ..req.extensions
                        },
                        ..req
                    },
                ),
                Err(e) => Err(e),
            }),
    {
        let mut b = self;
        if let Ok(req) = &mut b.request {
            *req.default_headers_mut() = Some(skip);
        }
        b
    }

    /// Enable HTTP authentication.
    pub fn auth(self, value: &str) -> (r: RequestBuilder)
        ensures
            r.client == self.client,
            header_set(
                self.request,
                r.request,
                Some(authorization_name()),
                value_of(value.spec_bytes()),
                true,
                true,
                false,
            ),
    {
        let value = match HeaderValue::from_str(value) {
            Ok(v) => Some(v),
            Err(_) => None,
        };
        self.set_header(Some(HeaderName::known("authorization")), value, true, true, false)
    }

    /// Enable HTTP basic authentication.
    pub fn basic_auth(self, username: &str, password: Option<&str>) -> (r: RequestBuilder)
        ensures
            r.client == self.client,
            header_set(
                self.request,
                r.request,
                Some(authorization_name()),
                if crate::auth::credentials_fit(
                    username@,
                    match password {
                        Some(p) => Some(p@),
                        None => None,
                    },
                ) {
                    Some(
                        crate::auth::basic_credentials(
                            username@,
                            match password {
                                Some(p) => Some(p@),
                                None => None,
                            },
                        ),
                    )
                } else {
                    None
                },
                true,
                true,
                false,
            ),
    {
        let header_value = match crate::auth::basic_auth(username, password) {
            Some(bytes) => Some(HeaderValue::from_vec(bytes)),
            None => None,
        };
        self.set_header(Some(HeaderName::known("authorization")), header_value, true, true, false)
    }

    /// Enable HTTP bearer authentication.
    pub fn bearer_auth(self, token: &str) -> (r: RequestBuilder)
        ensures
            r.client == self.client,
            header_set(
                self.request,
                r.request,
                Some(authorization_name()),
                if crate::header::valid_value(crate::auth::bearer_credentials(token@)) {
                    Some(crate::auth::bearer_credentials(token@))
                } else {
                    None
                },
                true,
                true,
                false,
            ),
    {
        let bytes = crate::auth::bearer_auth(token);
        let header_value = match HeaderValue::from_bytes(bytes.as_slice()) {
            Ok(v) => Some(v),
            Err(_) => None,
        };
        self.set_header(Some(HeaderName::known("authorization")), header_value, true, true, false)
    }

    /// Set the request body.
    pub fn body(self, body: Body) -> (r: RequestBuilder)
        ensures
            r.client == self.client,
            r.request == (match self.request {
                Ok(req) => Ok::<Request, Error>(Request { body: Some(body), ..req }),
                Err(e) => Err(e),
            }),
    {
        let mut b = self;
        if let Ok(req) = &mut b.request {
            *req.body_mut() = Some(body);
        }
        b
    }

    /// Enables a request timeout.
    ///
    /// The timeout is applied from when the request starts connecting until the
    /// response body has finished. It affects only this request and overrides
    /// the timeout configured using `ClientBuilder::timeout()`.
    pub fn timeout(self, timeout: Duration) -> (r: RequestBuilder)
        ensures
            r.client == self.client,
            r.request == (match self.request {
                Ok(req) => Ok::<Request, Error>(
                    Request {
                        extensions: Extensions { timeout: Some(timeout), ..req.extensions },
                        ..req
                    },
                ),
                Err(e) => Err(e),
            }),
    {
        let mut b = self;
        if let Ok(req) = &mut b.request {
            *req.timeout_mut() = Some(timeout);
        }
        b
    }

    /// Enables a read timeout.
    ///
    /// The read timeout is applied from when the response body starts being read
    /// until the response body has finished. It affects only this request and
    /// overrides the read timeout configured using `ClientBuilder::read_timeout()`.
    pub fn read_timeout(self, timeout: Duration) -> (r: RequestBuilder)
        ensures
            r.client == self.client,
            r.request == (match self.request {
                Ok(req) => Ok::<Request, Error>(
                    Request {
                        extensions: Extensions { read_timeout: Some(timeout), ..req.extensions },
                        ..req
                    },
                ),
                Err(e) => Err(e),
            }),
    {
        let mut b = self;
        if let Ok(req) = &mut b.request {
            *req.read_timeout_mut() = Some(timeout);
        }
        b
    }

    /// The bytes `multipart/form-data; boundary=`.
    pub open spec fn multipart_prefix() -> Seq<u8> {
        "multipart/form-data; boundary=".spec_bytes()
    }

    /// Sends a multipart/form-data body.
    ///
    /// The request says what it carries, unless it says so already, and how
    /// long the form is where that is known; the form becomes its body.
    pub fn multipart(self, multipart: crate::body::Form) -> (r: RequestBuilder)
        ensures
            r.client == self.client,
            match self.request {
                Err(_) => r.request == self.request,
                Ok(req) => {
                    let content_type = Self::multipart_prefix() + vstd::utf8::encode_utf8(
                        multipart.boundary@,
                    );
                    if crate::header::valid_value(content_type) {
                        let typed = with_header(
                            req.headers@,
                            Field { name: content_type_name(), value: content_type, sensitive: false },
                            false,
                            true,
                        );
                        &&& r.request is Ok
                        &&& r.request->Ok_0.method == req.method
                        &&& r.request->Ok_0.url == req.url
                        &&& r.request->Ok_0.extensions == req.extensions
                        &&& crate::body::opt_body_view(r.request->Ok_0.body) == Some(
                            BodyView::Stream(multipart.stream),
                        )
                        &&& r.request->Ok_0.headers@ == (match multipart.length {
                            Some(n) => replaced(
                                typed,
                                Field {
                                    name: crate::proto::headers::content_length_name(),
                                    value: crate::header::decimal(n as nat),
                                    sensitive: false,
                                },
                            ),
                            None => typed,
                        })
                    } else {
                        r.request is Err && r.request->Err_0.kind == Kind::Builder
                    }
                },
            },
    {
        let mut content_type = to_vec("multipart/form-data; boundary=".as_bytes());
        extend(&mut content_type, multipart.boundary().as_bytes());
        let value = match HeaderValue::from_bytes(content_type.as_slice()) {
            Ok(v) => Some(v),
            Err(_) => None,
        };
        let mut builder = self.set_header(
            Some(HeaderName::known("content-type")),
            value,
            false,
            false,
            true,
        );
        builder = match multipart.compute_length() {
            Some(length) => builder.set_header(
                Some(HeaderName::known("content-length")),
                Some(HeaderValue::from_u64(length)),
                false,
                true,
                false,
            ),
            None => builder,
        };
        if let Ok(req) = &mut builder.request {
            *req.body_mut() = Some(multipart.stream())
        }
        builder
    }

    /// Modify the query string of the URL.
    ///
    /// Modifies the URL of this request, adding the parameters provided.
    /// This method appends and does not overwrite. This means that it can
    /// be called multiple times and that existing query parameters are not
    /// overwritten if the same key is used. The key will simply show up
    /// twice in the query string.
    pub fn query(self, query: &Vec<(String, String)>) -> (r: RequestBuilder)
        ensures
            r.client == self.client,
            match self.request {
                Err(_) => r.request == self.request,
                Ok(req) => match crate::encode::urlencoded(crate::encode::pairs_view(query@)) {
                    None => r.request is Err && r.request->Err_0.kind == Kind::Builder,
                    Some(text) => r.request is Ok && r.request == Ok::<Request, Error>(
                        Request { url: r.request->Ok_0.url, ..req },
                    ) && r.request->Ok_0.url@ == (UrlView {
                        query: extended_query(req.url@.query, text),
                        ..req.url@
                    }),
                },
            },
    {
        if self.request.is_err() {
            return self;
        }
        let encoded = crate::encode::urlencode(query);
        self.query_encoded(encoded)
    }

    /// Puts an encoded query behind the one that the URL has; `None` stands
    /// for parameters that could not be encoded, and fails the builder.
    pub fn query_encoded(self, encoded: Option<String>) -> (r: RequestBuilder)
        ensures
            r.client == self.client,
            match self.request {
                Err(_) => r.request == self.request,
                Ok(req) => match encoded {
                    None => r.request is Err && r.request->Err_0.kind == Kind::Builder,
                    Some(text) => r.request is Ok && r.request == Ok::<Request, Error>(
                        Request { url: r.request->Ok_0.url, ..req },
                    ) && r.request->Ok_0.url@ == (UrlView {
                        query: extended_query(req.url@.query, text@),
                        ..req.url@
                    }),
                },
            },
    {
        let RequestBuilder { client, request } = self;
        let request = match request {
            Ok(req) => match encoded {
                Some(text) => {
                    let mut req = req;
                    let mut had = match req.url.query.take() {
                        Some(q) => q,
                        None => String::new(),
                    };
                    let has_old = had.as_str().unicode_len() > 0;
                    let has_new = text.as_str().unicode_len() > 0;
                    if has_old && has_new {
                        had.append("&");
                    }
                    had.append(text.as_str());
                    proof {
                        reveal_strlit("&");
                    }
                    req.url.query = if has_old || has_new {
                        Some(had)
                    } else {
                        None
                    };
                    proof {
                        let q = extended_query(crate::url::opt_view(self.request->Ok_0.url.query), text@);
                        assert(crate::url::opt_view(req.url.query) =~= q);
                    }
                    Ok(req)
                },
                None => Err(Error::builder("query could not be encoded")),
            },
            Err(e) => Err(e),
        };
        RequestBuilder { client, request }
    }

    /// Set HTTP version
    pub fn version(self, version: Version) -> (r: RequestBuilder)
        ensures
            r.client == self.client,
            r.request == (match self.request {
                Ok(req) => Ok::<Request, Error>(
                    Request {
                        extensions: Extensions { version: Some(version), ..req.extensions },
                        ..req
                    },
                ),
                Err(e) => Err(e),
            }),
    {
        let mut b = self;
        if let Ok(req) = &mut b.request {
            *req.version_mut() = Some(version);
        }
        b
    }

    /// Set the redirect policy for this request.
    pub fn redirect(self, policy: Policy) -> (r: RequestBuilder)
        ensures
            r.client == self.client,
            r.request == (match self.request {
                Ok(req) => Ok::<Request, Error>(
                    Request {
                        extensions: Extensions { redirect: Some(policy), ..req.extensions },
                        ..req
                    },
                ),
                Err(e) => Err(e),
            }),
    {
        let mut b = self;
        if let Ok(req) = &mut b.request {
            *req.redirect_mut() = Some(policy);
        }
        b
    }

    /// The codings that a request announces when it has said nothing of
    /// them: all.
    pub open spec fn announced(extensions: Extensions) -> AcceptEncoding {
        match extensions.accept_encoding {
            Some(a) => a,
            None => AcceptEncoding { gzip: true, brotli: true, zstd: true, deflate: true },
        }
    }

    /// Sets if this request will announce that it accepts gzip encoding.
    pub fn gzip(self, gzip: bool) -> (r: RequestBuilder)
        ensures
            r.client == self.client,
            r.request == (match self.request {
                Ok(req) => Ok::<Request, Error>(
                    Request {
                        extensions: Extensions {
                            accept_encoding: Some(
                                AcceptEncoding { gzip, ..Self::announced(req.extensions) },
                            ),
                            ..req.extensions
                        },
                        ..req
                    },
                ),
                Err(e) => Err(e),
            }),
    {
        let mut b = self;
        if let Ok(req) = &mut b.request {
            let mut accept_encoding = match req.extensions.accept_encoding {
                Some(a) => a,
                None => AcceptEncoding::new(),
            };
            accept_encoding.gzip(gzip);
            req.extensions.accept_encoding = Some(accept_encoding);
        }
        b
    }

    /// Sets if this request will announce that it accepts brotli encoding.
    pub fn brotli(self, brotli: bool) -> (r: RequestBuilder)
        ensures
            r.client == self.client,
            r.request == (match self.request {
                Ok(req) => Ok::<Request, Error>(
                    Request {
                        extensions: Extensions {
                            accept_encoding: Some(
                                AcceptEncoding { brotli, ..Self::announced(req.extensions) },
                            ),
                            ..req.extensions
                        },
                        ..req
                    },
                ),
                Err(e) => Err(e),
            }),
    {
        let mut b = self;
        if let Ok(req) = &mut b.request {
            let mut accept_encoding = match req.extensions.accept_encoding {
                Some(a) => a,
                None => AcceptEncoding::new(),
            };
            accept_encoding.brotli(brotli);
            req.extensions.accept_encoding = Some(accept_encoding);
        }
        b
    }

    /// Sets if this request will announce that it accepts deflate encoding.
    pub fn deflate(self, deflate: bool) -> (r: RequestBuilder)
        ensures
            r.client == self.client,
            r.request == (match self.request {
                Ok(req) => Ok::<Request, Error>(
                    Request {
                        extensions: Extensions {
                            accept_encoding: Some(
                                AcceptEncoding { deflate, ..Self::announced(req.extensions) },
                            ),
                            ..req.extensions
                        },
                        ..req
                    },
                ),
                Err(e) => Err(e),
            }),
    {
        let mut b = self;
        if let Ok(req) = &mut b.request {
            let mut accept_encoding = match req.extensions.accept_encoding {
                Some(a) => a,
                None => AcceptEncoding::new(),
            };
            accept_encoding.deflate(deflate);
            req.extensions.accept_encoding = Some(accept_encoding);
        }
        b
    }

    /// Sets if this request will announce that it accepts zstd encoding.
    pub fn zstd(self, zstd: bool) -> (r: RequestBuilder)
        ensures
            r.client == self.client,
            r.request == (match self.request {
                Ok(req) => Ok::<Request, Error>(
                    Request {
                        extensions: Extensions {
                            accept_encoding: Some(
                                AcceptEncoding { zstd, ..Self::announced(req.extensions) },
                            ),
                            ..req.extensions
                        },
                        ..req
                    },
                ),
                Err(e) => Err(e),
            }),
    {
        let mut b = self;
        if let Ok(req) = &mut b.request {
            let mut accept_encoding = match req.extensions.accept_encoding {
                Some(a) => a,
                None => AcceptEncoding::new(),
            };
            accept_encoding.zstd(zstd);
            req.extensions.accept_encoding = Some(accept_encoding);
        }
        b
    }

    /// Set the proxy for this request.
    pub fn proxy(self, proxy: Proxy) -> (r: RequestBuilder)
        ensures
            r.client == self.client,
            r.request == (match self.request {
                Ok(req) => Ok::<Request, Error>(
                    Request {
                        extensions: Extensions {
                            proxy_matcher: Some(proxy.matcher),
                            ..req.extensions
                        },
                        ..req
                    },
                ),
                Err(e) => Err(e),
            }),
    {
        let mut b = self;
        if let Ok(req) = &mut b.request {
            *req.proxy_matcher_mut() = Some(proxy.into_matcher());
        }
        b
    }

    /// Set the local address for this request.
    pub fn local_address(self, local_address: Option<IpAddr>) -> (r: RequestBuilder)
        ensures
            r.client == self.client,
            match self.request {
                Err(_) => r.request == self.request,
                Ok(req) => r.request is Ok && r.request == Ok::<Request, Error>(
                    Request {
                        extensions: Extensions {
                            tcp_connect_options: r.request->Ok_0.extensions.tcp_connect_options,
                            ..req.extensions
                        },
                        ..req
                    },
                ) && r.request->Ok_0.extensions.tcp_connect_options is Some
                    && TcpConnectOptions::or_unbound(
                    req.extensions.tcp_connect_options,
                ).local_address_set(
                    local_address,
                    r.request->Ok_0.extensions.tcp_connect_options->Some_0,
                ),
            },
    {
        let mut b = self;
        if let Ok(req) = &mut b.request {
            let mut tcp_connect_options = match req.extensions.tcp_connect_options.take() {
                Some(o) => o,
                None => TcpConnectOptions::new(),
            };
            tcp_connect_options.set_local_address(local_address);
            req.extensions.tcp_connect_options = Some(tcp_connect_options);
        }
        b
    }

    /// Set the local addresses for this request.
    pub fn local_addresses(self, ipv4: Option<Ipv4Addr>, ipv6: Option<Ipv6Addr>) -> (r:
        RequestBuilder)
        ensures
            r.client == self.client,
            r.request == (match self.request {
                Ok(req) => Ok::<Request, Error>(
                    Request {
                        extensions: Extensions {
                            tcp_connect_options: Some(
                                TcpConnectOptions {
                                    local_ipv4: ipv4,
                                    local_ipv6: ipv6,
                                    ..TcpConnectOptions::or_unbound(
                                        req.extensions.tcp_connect_options,
                                    )
                                },
                            ),
                            ..req.extensions
                        },
                        ..req
                    },
                ),
                Err(e) => Err(e),
            }),
    {
        let mut b = self;
        if let Ok(req) = &mut b.request {
            let mut tcp_connect_options = match req.extensions.tcp_connect_options.take() {
                Some(o) => o,
                None => TcpConnectOptions::new(),
            };
            tcp_connect_options.set_local_addresses(ipv4, ipv6);
            req.extensions.tcp_connect_options = Some(tcp_connect_options);
        }
        b
    }

    /// Set the interface for this request.
    pub fn interface(self, interface: String) -> (r: RequestBuilder)
        ensures
            r.client == self.client,
            r.request == (match self.request {
                Ok(req) => Ok::<Request, Error>(
                    Request {
                        extensions: Extensions {
                            tcp_connect_options: Some(
                                TcpConnectOptions {
                                    interface: Some(interface),
                                    ..TcpConnectOptions::or_unbound(
                                        req.extensions.tcp_connect_options,
                                    )
                                },
                            ),
                            ..req.extensions
                        },
                        ..req
                    },
                ),
                Err(e) => Err(e),
            }),
    {
        let mut b = self;
        if let Ok(req) = &mut b.request {
            let mut tcp_connect_options = match req.extensions.tcp_connect_options.take() {
                Some(o) => o,
                None => TcpConnectOptions::new(),
            };
            tcp_connect_options.set_interface(interface);
            req.extensions.tcp_connect_options = Some(tcp_connect_options);
        }
        b
    }

    /// Configures the request builder to emulation the specified HTTP context.
    ///
    /// The protocol parameters of the emulation become those of the request.
    /// Its headers take the place of what the request has under their names,
    /// and its header order becomes that of the request.
    pub fn emulation(self, emulation: EmulationProvider) -> (r: RequestBuilder)
        ensures
            r.client == self.client,
            match self.request {
                Err(_) => r.request == self.request,
                Ok(req) => {
                    &&& r.request is Ok
                    &&& r.request->Ok_0.method == req.method
                    &&& r.request->Ok_0.url == req.url
                    &&& r.request->Ok_0.body == req.body
                    &&& r.request->Ok_0.headers@ == (match emulation.default_headers {
                        Some(h) => crate::header::map::replaced_all(req.headers@, h@),
                        None => req.headers@,
                    })
                    &&& r.request->Ok_0.extensions == (Extensions {
                        transport_config: Some(
                            TransportConfig {
                                http1_config: emulation.http1_config,
                                http2_config: emulation.http2_config,
                                tls_config: emulation.tls_config,
                            },
                        ),
                        original_headers: if emulation.original_headers is Some {
                            emulation.original_headers
                        } else {
                            req.extensions.original_headers
                        },
                        ..req.extensions
                    })
                },
            },
    {
        let mut b = self;
        let EmulationProvider {
            default_headers,
            original_headers,
            http1_config,
            http2_config,
            tls_config,
        } = emulation;
        if let Ok(req) = &mut b.request {
            let mut transport_config = match req.extensions.transport_config {
                Some(c) => c,
                None => TransportConfig::new(),
            };
            transport_config.set_http1_config(http1_config);
            transport_config.set_http2_config(http2_config);
            transport_config.set_tls_config(tls_config);
            req.extensions.transport_config = Some(transport_config);
        } else {
            return b;
        }
        if let Some(default_headers) = default_headers {
            b = b.headers(default_headers);
        }
        if let Some(original_headers) = original_headers {
            b = b.original_headers(original_headers);
        }
        b
    }

    /// Send a form body: the pairs in URL encoding.
    ///
    /// Sets the body to the url encoded serialization of the passed value,
    /// and also sets the `Content-Type: application/x-www-form-urlencoded`
    /// header.
    pub fn form(self, form: &Vec<(String, String)>) -> (r: RequestBuilder)
        ensures
            r.client == self.client,
            match self.request {
                Err(_) => r.request == self.request,
                Ok(req) => match crate::encode::urlencoded(crate::encode::pairs_view(form@)) {
                    None => r.request is Err && r.request->Err_0.kind == Kind::Builder,
                    Some(text) => r.request is Ok && Self::with_payload(
                        req,
                        r.request->Ok_0,
                        "application/x-www-form-urlencoded".spec_bytes(),
                        vstd::utf8::encode_utf8(text),
                    ),
                },
            },
    {
        if self.request.is_err() {
            return self;
        }
        let encoded = match crate::encode::urlencode(form) {
            Some(text) => Some(to_vec(text.as_str().as_bytes())),
            None => None,
        };
        self.payload("application/x-www-form-urlencoded", encoded)
    }

    /// Send a JSON body.
    ///
    /// # Errors
    ///
    /// Serialization can fail if the serializer decides to fail; the builder
    /// then holds a `builder` error.
    pub fn json(self, json: &serde_json::Value) -> (r: RequestBuilder)
        ensures
            r.client == self.client,
            self.request is Err ==> r.request == self.request,
            self.request is Ok && r.request is Ok ==> exists|body: Seq<u8>| #[trigger]
                Self::with_payload(
                    self.request->Ok_0,
                    r.request->Ok_0,
                    "application/json".spec_bytes(),
                    body,
                ),
            r.request is Err && self.request is Ok ==> r.request->Err_0.kind == Kind::Builder,
    {
        if self.request.is_err() {
            return self;
        }
        let encoded = crate::encode::json_to_vec(json);
        let ghost body = match &encoded {
            Some(b) => b@,
            None => Seq::empty(),
        };
        let r = self.payload("application/json", encoded);
        proof {
            if r.request is Ok {
                assert(Self::with_payload(
                    self.request->Ok_0,
                    r.request->Ok_0,
                    "application/json".spec_bytes(),
                    body,
                ));
            }
        }
        r
    }

    /// Whether `after` is `before` with `body` as its body and, unless it
    /// said what it carries, with `content_type` as its content type.
    pub open spec fn with_payload(
        before: Request,
        after: Request,
        content_type: Seq<u8>,
        body: Seq<u8>,
    ) -> bool {
        &&& after.method == before.method
        &&& after.url == before.url
        &&& after.extensions == before.extensions
        &&& crate::body::opt_body_view(after.body) == Some(BodyView::Bytes(body))
        &&& after.headers@ == with_header(
            before.headers@,
            Field { name: content_type_name(), value: content_type, sensitive: false },
            false,
            true,
        )
    }

    /// Gives the request a serialized body and its content type; `None`
    /// stands for a value that could not be serialized, and fails the
    /// builder.
    pub fn payload(self, content_type: &'static str, encoded: Option<Vec<u8>>) -> (r: RequestBuilder)
        ensures
            r.client == self.client,
            match self.request {
                Err(_) => r.request == self.request,
                Ok(req) => match encoded {
                    Some(body) => r.request is Ok && Self::with_payload(
                        req,
                        r.request->Ok_0,
                        content_type.spec_bytes(),
                        body@,
                    ),
                    None => r.request is Err && r.request->Err_0.kind == Kind::Builder,
                },
            },
    {
        let RequestBuilder { client, request } = self;
        let request = match request {
            Ok(req) => match encoded {
                Some(body) => {
                    let mut req = req;
                    req.headers.insert_if_absent(
                        HeaderName::known("content-type"),
                        HeaderValue::known(content_type),
                    );
                    req.body = Some(Body::from_bytes(body));
                    Ok(req)
                },
                None => Err(Error::builder("body could not be serialized")),
            },
            Err(e) => Err(e),
        };
        RequestBuilder { client, request }
    }

    /// Build a `Request`, which can be inspected, modified and executed with
    /// `Client::execute()`.
    pub fn build(self) -> (r: Result<Request, Error>)
        ensures
            r == self.request,
    {
        self.request
    }

    /// Build a `Request`, which can be inspected, modified and executed with
    /// `Client::execute()`.
    ///
    /// This is similar to [`RequestBuilder::build()`], but also returns the
    /// embedded `Client`.
    pub fn build_split(self) -> (r: (Client, Result<Request, Error>))
        ensures
            r.0 == self.client,
            r.1 == self.request,
    {
        (self.client, self.request)
    }

    /// Constructs the Request and sends it to the target URL.
    ///
    /// A builder that has failed yields its error; any other hands its
    /// request to the client that it was made by.
    pub fn send(self) -> (p: Pending)
        ensures
            match self.request {
                Err(e) => p == (Pending::Error { error: e }),
                Ok(req) => Client::executed(self.client, req, p),
            },
    {
        match self.request {
            Ok(req) => self.client.execute(req),
            Err(err) => Pending::Error { error: err },
        }
    }

    /// Attempt to clone the RequestBuilder.
    ///
    /// `None` is returned if the RequestBuilder can not be cloned,
    /// i.e. if the request body is a stream.
    pub fn try_clone(&self) -> (r: Option<RequestBuilder>)
        ensures
            r is Some == (self.request is Ok && (self.request->Ok_0.body is Some
                ==> self.request->Ok_0.body->Some_0.cloneable())),
            r is Some ==> r->Some_0.client@ == self.client@ && r->Some_0.request is Ok
                && r->Some_0.request->Ok_0.same(self.request->Ok_0),
    {
        match &self.request {
            Ok(req) => match req.try_clone() {
                Some(req) => Some(RequestBuilder { client: self.client.clone(), request: Ok(req) }),
                None => None,
            },
            Err(_) => None,
        }
    }
}

} // verus!
