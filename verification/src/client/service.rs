//! The transport client: what is done to a request before it is dispatched
//! on a connection.

use vstd::prelude::*;
use vstd::string::StringSliceAdditionalSpecFns;
use crate::body::Body;
use crate::config::{
    Http1Config, Http2Config, KeyLogPolicy, TcpConnectOptions, TlsConfig, TlsVersion,
};
use crate::dns::Override;
use crate::error::{Error, Kind};
use crate::ext::Extensions;
use crate::header::map::{contains_name, Field, HeaderMap};
use crate::header::order::{merge_defaults, merged, sort_headers, sorted};
use crate::header::original::OriginalHeaders;
use crate::header::HeaderName;
use crate::method::{Method, Version};
use crate::pool::conn::Ver;
use crate::proxy::{select_proxy, selected, Matcher, Target, TargetView};
use crate::time::Duration;
use crate::url::{Url, UrlView};

verus! {

/// A request as it goes to the transport: the method, the target, the
/// version to send it in, the headers, the body and the settings.
#[derive(Debug)]
pub struct HttpRequest {
    pub method: Method,
    pub uri: String,
    pub version: Version,
    pub headers: HeaderMap,
    pub body: Body,
    pub extensions: Extensions,
}

/// What the transport client holds of the client's configuration.
#[derive(Debug)]
pub struct ClientConfig {
    pub default_headers: HeaderMap,
    pub original_headers: Option<OriginalHeaders>,
    pub skip_default_headers: Option<bool>,
    pub https_only: bool,
    pub proxies: Vec<Matcher>,
    pub proxies_maybe_http_auth: bool,
    pub proxies_maybe_http_custom_headers: bool,
}

/// How connections are made.
#[derive(Debug)]
pub struct ConnectorConfig {
    pub connect_timeout: Option<Duration>,
    pub tcp_keepalive: Option<Duration>,
    pub tcp_keepalive_interval: Option<Duration>,
    pub tcp_keepalive_retries: Option<u32>,
    pub tcp_reuse_address: bool,
    pub tcp_connect_options: Option<TcpConnectOptions>,
    pub tcp_nodelay: bool,
    pub tcp_user_timeout: Option<Duration>,
    pub verbose: bool,
    pub tls_max_version: Option<TlsVersion>,
    pub tls_min_version: Option<TlsVersion>,
    pub tls_info: bool,
    pub tls_sni: bool,
    pub tls_verify_hostname: bool,
    pub tls_cert_verification: bool,
    /// The certificate store, by the number under which its owner keeps it.
    pub tls_cert_store: Option<u64>,
    /// The client certificate, by the number under which its owner keeps it.
    pub tls_identity: Option<u64>,
    pub tls_keylog_policy: Option<KeyLogPolicy>,
    pub tls_config: TlsConfig,
    /// The layers around the connector, by the numbers under which their
    /// owner keeps them, in the order in which they were registered.
    pub layers: Vec<u64>,
    /// The resolver, by the number under which its owner keeps it; the
    /// system resolver where there is none.
    pub resolver: Option<u64>,
    /// The hosts that resolve to fixed addresses.
    pub dns_overrides: Vec<Override>,
}

/// The base of the stack: the transport client with all it needs to know.
#[derive(Debug)]
pub struct ClientService {
    pub config: ClientConfig,
    pub connector: ConnectorConfig,
    pub pool: crate::pool::Config,
    pub http1_config: Http1Config,
    pub http2_config: Http2Config,
    pub http2_only: bool,
}

/// A request that is ready to go out, and where it goes.
#[derive(Debug)]
pub struct Dispatch {
    /// The key under which the pool keeps the connections that can carry it.
    pub key: String,
    /// Whether the connection may be shared.
    pub ver: Ver,
    /// The proxy that the connection goes through, if any.
    pub proxy: Option<Target>,
    pub request: HttpRequest,
}

/// The name `proxy-authorization`.
pub open spec fn proxy_authorization_name() -> Seq<u8> {
    "proxy-authorization".spec_bytes()
}

/// The key under which connections for `url` are pooled: scheme, host and
/// port, and the proxy where the connection goes through one. Two requests
/// share connections exactly if they have the same key.
pub open spec fn pool_key(url: UrlView, proxy: Option<TargetView>) -> Seq<char> {
    let origin = url.scheme + "://"@ + (match url.host {
        Some(h) => h,
        None => Seq::empty(),
    }) + (match url.port_or_known_default() {
        Some(p) => ":"@ + crate::url::port_text(p as nat),
        None => Seq::empty(),
    });
    match proxy {
        Some(t) => origin + " via "@ + t.url,
        None => origin,
    }
}

fn make_pool_key(url: &Url, proxy: Option<&Target>) -> (key: String)
    ensures
        key@ == pool_key(
            url@,
            match proxy {
                Some(t) => Some(t@),
                None => None,
            },
        ),
{
    let mut key = url.scheme().clone();
    key.append("://");
    if let Some(h) = url.host_str() {
        key.append(h.as_str());
    }
    if let Some(p) = url.port_or_known_default() {
        key.append(":");
        key.append(crate::url::port_string(p).as_str());
    }
    let ghost origin = key@;
    proof {
        assert(origin =~= url@.scheme + "://"@ + (match url@.host {
            Some(h) => h,
            None => Seq::empty(),
        }) + (match url@.port_or_known_default() {
            Some(p) => ":"@ + crate::url::port_text(p as nat),
            None => Seq::empty(),
        }));
    }
    if let Some(t) = proxy {
        key.append(" via ");
        key.append(t.url.as_str());
        assert(key@ =~= origin + " via "@ + t.url@);
    }
    key
}

impl ClientService {
    /// Whether the default headers are left out of a request with these
    /// settings: the request decides where it says so, else the client.
    pub open spec fn skips_defaults(&self, extensions: Extensions) -> bool {
        match extensions.skip_default_headers {
            Some(skip) => skip,
            None => match self.config.skip_default_headers {
                Some(skip) => skip,
                None => false,
            },
        }
    }

    /// The version in which a request with these settings must be sent: the
    /// one that the request enforces, else HTTP/2 for a client that speaks
    /// nothing else, else whatever the request came with.
    pub open spec fn required_version(&self, request: HttpRequest) -> Version {
        match request.extensions.version {
            Some(v) => v,
            None => if self.http2_only {
                Version::Http2
            } else {
                request.version
            },
        }
    }

    /// The headers with which the request goes out, before the proxy adds
    /// its own: those of the request, the defaults that the request does not
    /// bear unless they are skipped.
    pub open spec fn outgoing(&self, request: HttpRequest) -> Seq<Field> {
        if self.skips_defaults(request.extensions) {
            request.headers@
        } else {
            merged(request.headers@, self.config.default_headers@)
        }
    }

    /// The headers once the proxy was heard: a plain request through a proxy
    /// that wants credentials bears them, unless it bears some already, and
    /// bears the proxy's own headers where it has none of their names.
    pub open spec fn with_proxy(fields: Seq<Field>, url: UrlView, proxy: Option<TargetView>) -> Seq<
        Field,
    > {
        match proxy {
            Some(t) => if url.scheme == "http"@ {
                let authed = match t.auth {
                    Some(a) => if contains_name(fields, proxy_authorization_name()) {
                        fields
                    } else {
                        fields.push(
                            Field { name: proxy_authorization_name(), value: a, sensitive: true },
                        )
                    },
                    None => fields,
                };
                merged(authed, t.headers)
            } else {
                fields
            },
            None => fields,
        }
    }

    /// The names by which the headers are ordered: those of the request
    /// where it has any, else those of the client.
    pub open spec fn ordering(&self, extensions: Extensions) -> Option<Seq<Seq<u8>>> {
        match extensions.original_headers {
            Some(o) => Some(o@),
            None => match self.config.original_headers {
                Some(o) => Some(o@),
                None => None,
            },
        }
    }

    /// Makes a request ready for dispatch.
    ///
    /// A client that speaks HTTPS only refuses any other scheme. The request
    /// takes over the default headers that it does not bear, unless it or
    /// the client skips them. The first proxy rule that matches picks the
    /// proxy. The pool key follows from the scheme, the authority and the
    /// proxy. The headers are put in wire order where an order is given.
    pub fn prepare(&self, url: &Url, request: HttpRequest) -> (r: Result<Dispatch, Error>)
        ensures
            r is Err == (self.config.https_only && url@.scheme != "https"@),
            r is Err ==> r->Err_0.kind == Kind::Builder && crate::error::opt_url_view(r->Err_0.url)
                == Some(url@),
            r is Ok ==> {
                let d = r->Ok_0;
                let proxy = selected(request.extensions.proxy_matcher, self.config.proxies@, url@);
                let fields = Self::with_proxy(self.outgoing(request), url@, proxy);
                &&& crate::proxy::opt_target_view(d.proxy) == proxy
                &&& d.key@ == pool_key(url@, proxy)
                &&& d.request.version == self.required_version(request)
                &&& d.ver == (if d.request.version == Version::Http2 {
                    Ver::Http2
                } else {
                    Ver::Auto
                })
                &&& d.request.headers@ == (match self.ordering(request.extensions) {
                    Some(names) => sorted(fields, names),
                    None => fields,
                })
                &&& d.request.method == request.method
                &&& d.request.uri == request.uri
                &&& d.request.body == request.body
                &&& d.request.extensions == request.extensions
            },
    {
        if self.config.https_only && !url.scheme_is("https") {
            return Err(Error::builder("URL scheme is not allowed").with_url(url.clone()));
        }
        let HttpRequest { method, uri, version, headers, body, extensions } = request;
        let mut headers = headers;
        let skip = match extensions.skip_default_headers {
            Some(skip) => skip,
            None => match self.config.skip_default_headers {
                Some(skip) => skip,
                None => false,
            },
        };
        if !skip {
            merge_defaults(&mut headers, &self.config.default_headers);
        }
        let proxy = select_proxy(extensions.proxy_matcher.as_ref(), &self.config.proxies, url);
        if let Some(t) = proxy {
            if url.scheme_is("http") {
                if let Some(a) = &t.auth {
                    let mut value = a.clone();
                    value.set_sensitive(true);
                    headers.insert_if_absent(HeaderName::known("proxy-authorization"), value);
                }
                merge_defaults(&mut headers, &t.headers);
            }
        }
        let key = make_pool_key(url, proxy);
        let version = match extensions.version {
            Some(v) => v,
            None => if self.http2_only {
                Version::Http2
            } else {
                version
            },
        };
        let ver = match version {
            Version::Http2 => Ver::Http2,
            _ => Ver::Auto,
        };
        match &extensions.original_headers {
            Some(o) => sort_headers(&mut headers, o),
            None => match &self.config.original_headers {
                Some(o) => sort_headers(&mut headers, o),
                None => {},
            },
        }
        let proxy = match proxy {
            Some(t) => Some(t.clone()),
            None => None,
        };
        let request = HttpRequest { method, uri, version, headers, body, extensions };
        Ok(Dispatch { key, ver, proxy, request })
    }
}

} // verus!
