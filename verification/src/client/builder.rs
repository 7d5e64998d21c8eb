//! The builder of a client, and the assembly of its stack.

use vstd::prelude::*;
use vstd::string::StringSliceAdditionalSpecFns;
use crate::client::service::{ClientConfig, ClientService, ConnectorConfig};
use crate::client::stack::{Layer, Stack};
use crate::client::{Client, ClientRef};
use crate::config::{
    AcceptEncoding, AlpnProtocol, EmulationProvider, Http1Config, Http2Config, KeyLogPolicy,
    TcpConnectOptions, TlsConfig, TlsVersion,
};
use crate::dns::{
    overrides_view, set_override, with_override, IpAddr, Ipv4Addr, Ipv6Addr, Override, SocketAddr,
};
use crate::error::{Error, Kind};
use crate::header::map::{replaced, Field, HeaderMap};
use crate::header::original::OriginalHeaders;
use crate::header::{valid_value, HeaderName, HeaderValue};
use crate::proxy::{Matcher, Proxy};
use crate::redirect::policy::{Policy, DEFAULT_MAX_REDIRECTS};
use crate::time::{Duration, NANOS_PER_SEC};

verus! {

/// The HTTP version preference for the client.
#[derive(Clone, Copy, Debug, PartialEq, Eq, Structural)]
pub enum HttpVersionPref {
    Http1,
    Http2,
    All,
}

/// Everything that a client can be told before it is built.
#[derive(Debug)]
pub struct Config {
    pub error: Option<Error>,
    pub headers: HeaderMap,
    pub original_headers: Option<OriginalHeaders>,
    pub accept_encoding: AcceptEncoding,
    pub connect_timeout: Option<Duration>,
    pub connection_verbose: bool,
    pub pool_idle_timeout: Option<Duration>,
    pub pool_max_idle_per_host: usize,
    pub pool_max_size: Option<u32>,
    pub tcp_nodelay: bool,
    pub tcp_reuse_address: bool,
    pub tcp_keepalive: Option<Duration>,
    pub tcp_keepalive_interval: Option<Duration>,
    pub tcp_keepalive_retries: Option<u32>,
    pub tcp_connect_options: Option<TcpConnectOptions>,
    pub tcp_user_timeout: Option<Duration>,
    pub proxies: Vec<Matcher>,
    pub auto_sys_proxy: bool,
    /// The proxy rule that the system configures, as its owner read it.
    pub system_proxy: Matcher,
    pub redirect_policy: Policy,
    pub referer: bool,
    pub timeout: Option<Duration>,
    pub read_timeout: Option<Duration>,
    /// The cookie store, by the number under which its owner keeps it.
    pub cookie_store: Option<u64>,
    pub dns_overrides: Vec<Override>,
    pub dns_resolver: Option<u64>,
    pub http_version_pref: HttpVersionPref,
    pub https_only: bool,
    pub http1_config: Http1Config,
    pub http2_config: Http2Config,
    pub http2_max_retry: usize,
    pub request_layers: Option<Vec<u64>>,
    pub connector_layers: Option<Vec<u64>>,
    pub tls_keylog_policy: Option<KeyLogPolicy>,
    pub tls_info: bool,
    pub tls_sni: bool,
    pub tls_verify_hostname: bool,
    pub tls_identity: Option<u64>,
    pub tls_cert_store: Option<u64>,
    pub tls_cert_verification: bool,
    pub min_tls_version: Option<TlsVersion>,
    pub max_tls_version: Option<TlsVersion>,
    pub tls_config: TlsConfig,
}

/// A `ClientBuilder` can be used to create a `Client` with custom configuration.
#[must_use]
#[derive(Debug)]
pub struct ClientBuilder {
    pub config: Config,
}

/// The layers that the caller registered, as layers of the stack.
pub open spec fn user_layers(ids: Seq<u64>) -> Seq<Layer> {
    Seq::new(ids.len(), |i: int| Layer::User(ids[i]))
}

/// The name `user-agent`.
pub open spec fn user_agent_name() -> Seq<u8> {
    "user-agent".spec_bytes()
}

impl Config {
    /// The stack of layers that this configuration asks for, the innermost
    /// first. The order is fixed: decoding of the body, the timers on the
    /// body, cookies, redirects, the retry of HTTP/2 requests, the layers of
    /// the caller in the order in which they were registered, and outermost
    /// the timer on the start of the response.
    pub open spec fn layers(&self) -> Seq<Layer> {
        (if self.accept_encoding.gzip || self.accept_encoding.brotli || self.accept_encoding.zstd
            || self.accept_encoding.deflate {
            seq![Layer::Decompression(self.accept_encoding)]
        } else {
            Seq::empty()
        }) + seq![Layer::ResponseBodyTimeout { total: self.timeout, read: self.read_timeout }] + (
        if self.cookie_store is Some {
            seq![Layer::CookieManager]
        } else {
            Seq::empty()
        }) + seq![
            Layer::FollowRedirect {
                policy: self.redirect_policy,
                referer: self.referer,
                https_only: self.https_only,
            },
            Layer::Http2Retry { max: self.http2_max_retry },
        ] + (match self.request_layers {
            Some(ids) => user_layers(ids@),
            None => Seq::empty(),
        }) + seq![
            Layer::Timeout { total: self.timeout, read: self.read_timeout },
            Layer::MapTimeoutError,
        ]
    }

    /// The proxy rules of the client: those that were registered, and behind
    /// them that of the system unless it was switched off.
    pub open spec fn all_proxies(&self) -> Seq<Matcher> {
        if self.auto_sys_proxy {
            self.proxies@.push(self.system_proxy)
        } else {
            self.proxies@
        }
    }

    /// The protocols that the TLS handshake offers: the one of a client
    /// fixed on a version, and else what the TLS parameters say.
    pub open spec fn alpn(&self) -> Option<AlpnProtocol> {
        match self.http_version_pref {
            HttpVersionPref::Http1 => Some(AlpnProtocol::Http1),
            HttpVersionPref::Http2 => Some(AlpnProtocol::Http2),
            HttpVersionPref::All => self.tls_config.alpn_protos,
        }
    }

    /// Whether `out` is the client that this configuration describes.
    pub open spec fn builds(&self, out: ClientRef) -> bool {
        let stack = out.stack();
        let service = stack.service;
        &&& out is Boxed == self.request_layers is Some
        &&& stack.layers@ == self.layers()
        &&& service.pool == (crate::pool::Config {
            idle_timeout: self.pool_idle_timeout,
            max_idle_per_host: self.pool_max_idle_per_host,
            max_pool_size: self.pool_max_size,
        })
        &&& service.http1_config == self.http1_config
        &&& service.http2_config == self.http2_config
        &&& service.http2_only == (self.http_version_pref == HttpVersionPref::Http2)
        &&& service.config.default_headers == self.headers
        &&& service.config.original_headers == self.original_headers
        &&& service.config.skip_default_headers is None
        &&& service.config.https_only == self.https_only
        &&& service.config.proxies@ == self.all_proxies()
        &&& service.config.proxies_maybe_http_auth == (exists|i: int|
            0 <= i < self.all_proxies().len() && (#[trigger] self.all_proxies()[i]).http is Some
                && self.all_proxies()[i].http->Some_0.auth is Some)
        &&& service.config.proxies_maybe_http_custom_headers == (exists|i: int|
            0 <= i < self.all_proxies().len() && (#[trigger] self.all_proxies()[i]).http is Some
                && self.all_proxies()[i].http->Some_0.headers@.len() > 0)
        &&& service.connector == (ConnectorConfig {
            connect_timeout: self.connect_timeout,
            tcp_keepalive: self.tcp_keepalive,
            tcp_keepalive_interval: self.tcp_keepalive_interval,
            tcp_keepalive_retries: self.tcp_keepalive_retries,
            tcp_reuse_address: self.tcp_reuse_address,
            tcp_connect_options: self.tcp_connect_options,
            tcp_nodelay: self.tcp_nodelay,
            tcp_user_timeout: self.tcp_user_timeout,
            verbose: self.connection_verbose,
            tls_max_version: self.max_tls_version,
            tls_min_version: self.min_tls_version,
            tls_info: self.tls_info,
            tls_sni: self.tls_sni,
            tls_verify_hostname: self.tls_verify_hostname,
            tls_cert_verification: self.tls_cert_verification,
            tls_cert_store: self.tls_cert_store,
            tls_identity: self.tls_identity,
            tls_keylog_policy: self.tls_keylog_policy,
            tls_config: TlsConfig { alpn_protos: self.alpn(), ..self.tls_config },
            layers: stack.service.connector.layers,
            resolver: self.dns_resolver,
            dns_overrides: self.dns_overrides,
        })
        &&& service.connector.layers@ == (match self.connector_layers {
            Some(ids) => ids@,
            None => Seq::empty(),
        })
    }

    /// Whether this is the configuration that a new builder starts with.
    pub open spec fn is_default(&self) -> bool {
        &&& self.error is None
        &&& self.headers@.len() == 0
        &&& self.original_headers is None
        &&& self.accept_encoding == (AcceptEncoding {
            gzip: true,
            brotli: true,
            zstd: true,
            deflate: true,
        })
        &&& self.connect_timeout is None
        &&& !self.connection_verbose
        &&& self.pool_idle_timeout == Some(Duration { nanos: (90 * NANOS_PER_SEC) as u64 })
        &&& self.pool_max_idle_per_host == usize::MAX
        &&& self.pool_max_size is None
        &&& self.tcp_nodelay
        &&& !self.tcp_reuse_address
        &&& self.tcp_keepalive is None
        &&& self.tcp_keepalive_interval is None
        &&& self.tcp_keepalive_retries is None
        &&& self.tcp_connect_options is None
        &&& self.tcp_user_timeout is None
        &&& self.proxies@.len() == 0
        &&& self.auto_sys_proxy
        &&& self.system_proxy.http is None
        &&& self.system_proxy.https is None
        &&& self.system_proxy.no_proxy@.len() == 0
        &&& self.redirect_policy == Policy::Limited(DEFAULT_MAX_REDIRECTS)
        &&& self.referer
        &&& self.timeout is None
        &&& self.read_timeout is None
        &&& self.cookie_store is None
        &&& self.dns_overrides@.len() == 0
        &&& self.dns_resolver is None
        &&& self.http_version_pref == HttpVersionPref::All
        &&& !self.https_only
        &&& self.http1_config == (Http1Config { token: 0 })
        &&& self.http2_config == (Http2Config { token: 0 })
        &&& self.http2_max_retry == 2
        &&& self.request_layers is None
        &&& self.connector_layers is None
        &&& self.tls_keylog_policy is None
        &&& !self.tls_info
        &&& self.tls_sni
        &&& self.tls_verify_hostname
        &&& self.tls_identity is None
        &&& self.tls_cert_store is None
        &&& self.tls_cert_verification
        &&& self.min_tls_version is None
        &&& self.max_tls_version is None
        &&& self.tls_config == (TlsConfig { token: 0, alpn_protos: None })
    }
}

fn any_http_auth(proxies: &Vec<Matcher>) -> (b: bool)
    ensures
        b == (exists|i: int|
            0 <= i < proxies@.len() && (#[trigger] proxies@[i]).http is Some
                && proxies@[i].http->Some_0.auth is Some),
{
    let mut i: usize = 0;
    while i < proxies.len()
        invariant
            i <= proxies@.len(),
            forall|j: int|
                0 <= j < i ==> !((#[trigger] proxies@[j]).http is Some
                    && proxies@[j].http->Some_0.auth is Some),
        decreases proxies@.len() - i,
    {
        if proxies[i].maybe_has_http_auth() {
            return true;
        }
        i += 1;
    }
    false
}

fn any_http_custom_headers(proxies: &Vec<Matcher>) -> (b: bool)
    ensures
        b == (exists|i: int|
            0 <= i < proxies@.len() && (#[trigger] proxies@[i]).http is Some
                && proxies@[i].http->Some_0.headers@.len() > 0),
{
    let mut i: usize = 0;
    while i < proxies.len()
        invariant
            i <= proxies@.len(),
            forall|j: int|
                0 <= j < i ==> !((#[trigger] proxies@[j]).http is Some
                    && proxies@[j].http->Some_0.headers@.len() > 0),
        decreases proxies@.len() - i,
    {
        if proxies[i].maybe_has_http_custom_headers() {
            return true;
        }
        i += 1;
    }
    false
}

/// Puts the layers of a client in their order, the innermost first.
fn assemble(config: &Config) -> (layers: Vec<Layer>)
    ensures
        layers@ == config.layers(),
{
    let mut layers: Vec<Layer> = Vec::new();
    if config.accept_encoding.is_any() {
        layers.push(Layer::Decompression(config.accept_encoding));
    }
    layers.push(Layer::ResponseBodyTimeout { total: config.timeout, read: config.read_timeout });
    if config.cookie_store.is_some() {
        layers.push(Layer::CookieManager);
    }
    layers.push(
        Layer::FollowRedirect {
            policy: config.redirect_policy,
            referer: config.referer,
            https_only: config.https_only,
        },
    );
    layers.push(Layer::Http2Retry { max: config.http2_max_retry });
    let ghost inner = layers@;
    if let Some(ids) = &config.request_layers {
        let mut i: usize = 0;
        assert(layers@ =~= inner + user_layers(ids@).take(0));
        while i < ids.len()
            invariant
                i <= ids@.len(),
                layers@ == inner + user_layers(ids@).take(i as int),
            decreases ids@.len() - i,
        {
            layers.push(Layer::User(ids[i]));
            proof {
                assert(inner + user_layers(ids@).take(i + 1) =~= (inner + user_layers(ids@).take(
                    i as int,
                )).push(Layer::User(ids@[i as int])));
            }
            i += 1;
        }
        proof {
            assert(user_layers(ids@).take(ids@.len() as int) =~= user_layers(ids@));
        }
    }
    layers.push(Layer::Timeout { total: config.timeout, read: config.read_timeout });
    layers.push(Layer::MapTimeoutError);
    proof {
        assert(layers@ =~= config.layers());
    }
    layers
}

impl ClientBuilder {
    /// Constructs a new `ClientBuilder`.
    ///
    /// This is the same as `Client::builder()`.
    pub fn new() -> (b: ClientBuilder)
        ensures
            b.config.is_default(),
    {
        ClientBuilder {
            config: Config {
                error: None,
                headers: HeaderMap::new(),
                original_headers: None,
                accept_encoding: AcceptEncoding::new(),
                connect_timeout: None,
                connection_verbose: false,
                pool_idle_timeout: Some(Duration::from_secs(90)),
                pool_max_idle_per_host: usize::MAX,
                pool_max_size: None,
                tcp_keepalive: None,
                tcp_keepalive_interval: None,
                tcp_keepalive_retries: None,
                tcp_connect_options: None,
                tcp_nodelay: true,
                tcp_reuse_address: false,
                tcp_user_timeout: None,
                proxies: Vec::new(),
                auto_sys_proxy: true,
                system_proxy: Matcher { http: None, https: None, no_proxy: Vec::new() },
                redirect_policy: Policy::default(),
                referer: true,
                timeout: None,
                read_timeout: None,
                cookie_store: None,
                dns_overrides: Vec::new(),
                dns_resolver: None,
                http_version_pref: HttpVersionPref::All,
                https_only: false,
                http1_config: Http1Config { token: 0 },
                http2_config: Http2Config { token: 0 },
                http2_max_retry: 2,
                request_layers: None,
                connector_layers: None,
                tls_keylog_policy: None,
                tls_info: false,
                tls_sni: true,
                tls_verify_hostname: true,
                tls_identity: None,
                tls_cert_store: None,
                tls_cert_verification: true,
                min_tls_version: None,
                max_tls_version: None,
                tls_config: TlsConfig { token: 0, alpn_protos: None },
            },
        }
    }

    /// Returns a `Client` that uses this `ClientBuilder` configuration.
    ///
    /// # Errors
    ///
    /// This method fails with the error that a step of the configuration
    /// left behind, if one did.
    #[verifier::rlimit(50)]
    pub fn build(self) -> (r: Result<Client, Error>)
        ensures
            r is Err == self.config.error is Some,
            r is Err ==> r->Err_0 == self.config.error->Some_0,
            r is Ok ==> self.config.builds(r->Ok_0@),
    {
        let config = self.config;
        let layers = assemble(&config);
        let boxed = config.request_layers.is_some();
        if let Some(err) = config.error {
            return Err(err);
        }
        let mut proxies = config.proxies;
        if config.auto_sys_proxy {
            proxies.push(config.system_proxy);
        }
        let proxies_maybe_http_auth = any_http_auth(&proxies);
        let proxies_maybe_http_custom_headers = any_http_custom_headers(&proxies);
        let pool = crate::pool::Config {
            idle_timeout: config.pool_idle_timeout,
            max_idle_per_host: config.pool_max_idle_per_host,
            max_pool_size: config.pool_max_size,
        };
        let http2_only = matches!(config.http_version_pref, HttpVersionPref::Http2);
        let mut tls_config = config.tls_config;
        match config.http_version_pref {
            HttpVersionPref::Http1 => {
                tls_config.alpn_protos = Some(AlpnProtocol::Http1);
            },
            HttpVersionPref::Http2 => {
                tls_config.alpn_protos = Some(AlpnProtocol::Http2);
            },
            _ => {},
        }
        let connector = ConnectorConfig {
            connect_timeout: config.connect_timeout,
            tcp_keepalive: config.tcp_keepalive,
            tcp_keepalive_interval: config.tcp_keepalive_interval,
            tcp_keepalive_retries: config.tcp_keepalive_retries,
            tcp_reuse_address: config.tcp_reuse_address,
            tcp_connect_options: config.tcp_connect_options,
            tcp_nodelay: config.tcp_nodelay,
            tcp_user_timeout: config.tcp_user_timeout,
            verbose: config.connection_verbose,
            tls_max_version: config.max_tls_version,
            tls_min_version: config.min_tls_version,
            tls_info: config.tls_info,
            tls_sni: config.tls_sni,
            tls_verify_hostname: config.tls_verify_hostname,
            tls_cert_verification: config.tls_cert_verification,
            tls_cert_store: config.tls_cert_store,
            tls_identity: config.tls_identity,
            tls_keylog_policy: config.tls_keylog_policy,
            tls_config,
            layers: match config.connector_layers {
                Some(ids) => ids,
                None => Vec::new(),
            },
            resolver: config.dns_resolver,
            dns_overrides: config.dns_overrides,
        };
        let service = ClientService {
            config: ClientConfig {
                default_headers: config.headers,
                original_headers: config.original_headers,
                skip_default_headers: None,
                https_only: config.https_only,
                proxies,
                proxies_maybe_http_auth,
                proxies_maybe_http_custom_headers,
            },
            connector,
            pool,
            http1_config: config.http1_config,
            http2_config: config.http2_config,
            http2_only,
        };
        let stack = Stack { service, layers };
        let inner = if boxed {
            ClientRef::Boxed(stack)
        } else {
            ClientRef::Generic(stack)
        };
        Ok(Client::from_ref(inner))
    }

    // Higher-level options

    /// Sets the `User-Agent` header to be used by this client. A value that
    /// is no header value leaves an error behind, which `build` reports.
    pub fn user_agent(self, value: &str) -> (b: ClientBuilder)
        ensures
            valid_value(value.spec_bytes()) ==> b.config.error == self.config.error
                && b.config.headers@ == replaced(
                self.config.headers@,
                Field { name: user_agent_name(), value: value.spec_bytes(), sensitive: false },
            ),
            !valid_value(value.spec_bytes()) ==> b.config.error is Some && b.config.error->Some_0.kind
                == Kind::Builder && b.config.headers == self.config.headers,
            b.rest_same(self),
    {
        let mut b = self;
        match HeaderValue::from_str(value) {
            Ok(value) => {
                b.config.headers.insert(HeaderName::known("user-agent"), value);
            },
            Err(_) => {
                b.config.error = Some(Error::builder("invalid header value"));
            },
        }
        b
    }

    /// Whether two builders agree on all but the error and the default
    /// headers.
    pub open spec fn rest_same(self, other: ClientBuilder) -> bool {
        self.config == (Config { error: self.config.error, headers: self.config.headers, ..other.config })
    }

    /// Sets the default headers for every request: each name that `headers`
    /// bears takes the values that `headers` gives it.
    pub fn default_headers(self, headers: HeaderMap) -> (b: ClientBuilder)
        ensures
            b.config.headers@ == crate::header::order::replaced_all(
                self.config.headers@,
                headers@,
            ),
            b.config.error == self.config.error,
            b.rest_same(self),
    {
        let mut b = self;
        crate::header::order::replace_headers(&mut b.config.headers, headers);
        b
    }

    /// Sets the original headers for every request.
    pub fn original_headers(self, original_headers: OriginalHeaders) -> (b: ClientBuilder)
        ensures
            b.config == (Config { original_headers: Some(original_headers), ..self.config }),
    {
        let mut b = self;
        b.config.original_headers = Some(original_headers);
        b
    }

    /// Enable a persistent cookie store for the client: the store `jar`, by
    /// the number under which its owner keeps it, or none.
    ///
    /// Cookies received in responses will be preserved and included in
    /// additional requests.
    ///
    /// By default, no cookie store is used.
    pub fn cookie_store(self, enable: bool, jar: u64) -> (b: ClientBuilder)
        ensures
            b.config == (Config {
                cookie_store: if enable {
                    Some(jar)
                } else {
                    None
                },
                ..self.config
            }),
    {
        if enable {
            self.cookie_provider(jar)
        } else {
            let mut b = self;
            b.config.cookie_store = None;
            b
        }
    }

    /// Sets the cookie store of the client, by the number under which its
    /// owner keeps it.
    pub fn cookie_provider(self, cookie_store: u64) -> (b: ClientBuilder)
        ensures
            b.config == (Config { cookie_store: Some(cookie_store), ..self.config }),
    {
        let mut b = self;
        b.config.cookie_store = Some(cookie_store);
        b
    }

    /// Enable auto gzip decompression.
    pub fn gzip(self, enable: bool) -> (b: ClientBuilder)
        ensures
            b.config == (Config {
                accept_encoding: AcceptEncoding { gzip: enable, ..self.config.accept_encoding },
                ..self.config
            }),
    {
        let mut b = self;
        b.config.accept_encoding.gzip(enable);
        b
    }

    /// Enable auto brotli decompression.
    pub fn brotli(self, enable: bool) -> (b: ClientBuilder)
        ensures
            b.config == (Config {
                accept_encoding: AcceptEncoding { brotli: enable, ..self.config.accept_encoding },
                ..self.config
            }),
    {
        let mut b = self;
        b.config.accept_encoding.brotli(enable);
        b
    }

    /// Enable auto zstd decompression.
    pub fn zstd(self, enable: bool) -> (b: ClientBuilder)
        ensures
            b.config == (Config {
                accept_encoding: AcceptEncoding { zstd: enable, ..self.config.accept_encoding },
                ..self.config
            }),
    {
        let mut b = self;
        b.config.accept_encoding.zstd(enable);
        b
    }

    /// Enable auto deflate decompression.
    pub fn deflate(self, enable: bool) -> (b: ClientBuilder)
        ensures
            b.config == (Config {
                accept_encoding: AcceptEncoding { deflate: enable, ..self.config.accept_encoding },
                ..self.config
            }),
    {
        let mut b = self;
        b.config.accept_encoding.deflate(enable);
        b
    }

    /// Disable auto response body zstd decompression.
    pub fn no_zstd(self) -> (b: ClientBuilder)
        ensures
            b.config == (Config {
                accept_encoding: AcceptEncoding { zstd: false, ..self.config.accept_encoding },
                ..self.config
            }),
    {
        self.zstd(false)
    }

    /// Disable auto response body gzip decompression.
    pub fn no_gzip(self) -> (b: ClientBuilder)
        ensures
            b.config == (Config {
                accept_encoding: AcceptEncoding { gzip: false, ..self.config.accept_encoding },
                ..self.config
            }),
    {
        self.gzip(false)
    }

    /// Disable auto response body brotli decompression.
    pub fn no_brotli(self) -> (b: ClientBuilder)
        ensures
            b.config == (Config {
                accept_encoding: AcceptEncoding { brotli: false, ..self.config.accept_encoding },
                ..self.config
            }),
    {
        self.brotli(false)
    }

    /// Disable auto response body deflate decompression.
    pub fn no_deflate(self) -> (b: ClientBuilder)
        ensures
            b.config == (Config {
                accept_encoding: AcceptEncoding { deflate: false, ..self.config.accept_encoding },
                ..self.config
            }),
    {
        self.deflate(false)
    }

    // Redirect options

    /// Set a `RedirectPolicy` for this client.
    ///
    /// Default will follow redirects up to a maximum of 10.
    pub fn redirect(self, policy: Policy) -> (b: ClientBuilder)
        ensures
            b.config == (Config { redirect_policy: policy, ..self.config }),
    {
        let mut b = self;
        b.config.redirect_policy = policy;
        b
    }

    /// Enable or disable automatic setting of the `Referer` header.
    ///
    /// Default is `true`.
    pub fn referer(self, enable: bool) -> (b: ClientBuilder)
        ensures
            b.config == (Config { referer: enable, ..self.config }),
    {
        let mut b = self;
        b.config.referer = enable;
        b
    }

    // Proxy options

    /// Add a `Proxy` to the list of proxies the `Client` will use.
    ///
    /// # Note
    ///
    /// Adding a proxy will disable the automatic usage of the "system" proxy.
    pub fn proxy(self, proxy: Proxy) -> (b: ClientBuilder)
        ensures
            b.config.proxies@ == self.config.proxies@.push(proxy.matcher),
            !b.config.auto_sys_proxy,
            b.config == (Config {
                proxies: b.config.proxies,
                auto_sys_proxy: false,
                ..self.config
            }),
    {
        let mut b = self;
        b.config.proxies.push(proxy.into_matcher());
        b.config.auto_sys_proxy = false;
        b
    }

    /// Clear all `Proxies`, so `Client` will use no proxy anymore.
    ///
    /// This also disables the automatic usage of the "system" proxy.
    pub fn no_proxy(self) -> (b: ClientBuilder)
        ensures
            b.config.proxies@.len() == 0,
            b.config == (Config {
                proxies: b.config.proxies,
                auto_sys_proxy: false,
                ..self.config
            }),
    {
        let mut b = self;
        b.config.proxies.clear();
        b.config.auto_sys_proxy = false;
        b
    }

    /// Tells the client the proxy rule that the system configures. It is
    /// used behind all others unless a proxy is set or proxies are switched
    /// off.
    pub fn system_proxy(self, matcher: Matcher) -> (b: ClientBuilder)
        ensures
            b.config == (Config { system_proxy: matcher, ..self.config }),
    {
        let mut b = self;
        b.config.system_proxy = matcher;
        b
    }

    // Timeout options

    /// Enables a request timeout.
    ///
    /// The timeout is applied from when the request starts connecting until the
    /// response body has finished.
    ///
    /// Default is no timeout.
    pub fn timeout(self, timeout: Duration) -> (b: ClientBuilder)
        ensures
            b.config == (Config { timeout: Some(timeout), ..self.config }),
    {
        let mut b = self;
        b.config.timeout = Some(timeout);
        b
    }

    /// Set a timeout for only the read phase of a `Client`.
    ///
    /// Default is `None`.
    pub fn read_timeout(self, timeout: Duration) -> (b: ClientBuilder)
        ensures
            b.config == (Config { read_timeout: Some(timeout), ..self.config }),
    {
        let mut b = self;
        b.config.read_timeout = Some(timeout);
        b
    }

    /// Set a timeout for only the connect phase of a `Client`.
    ///
    /// Default is `None`.
    pub fn connect_timeout(self, timeout: Duration) -> (b: ClientBuilder)
        ensures
            b.config == (Config { connect_timeout: Some(timeout), ..self.config }),
    {
        let mut b = self;
        b.config.connect_timeout = Some(timeout);
        b
    }

    /// Set whether connections should emit verbose logs.
    pub fn connection_verbose(self, verbose: bool) -> (b: ClientBuilder)
        ensures
            b.config == (Config { connection_verbose: verbose, ..self.config }),
    {
        let mut b = self;
        b.config.connection_verbose = verbose;
        b
    }

    // HTTP options

    /// Set an optional timeout for idle sockets being kept-alive.
    ///
    /// Pass `None` to disable timeout.
    ///
    /// Default is 90 seconds.
    pub fn pool_idle_timeout(self, val: Option<Duration>) -> (b: ClientBuilder)
        ensures
            b.config == (Config { pool_idle_timeout: val, ..self.config }),
    {
        let mut b = self;
        b.config.pool_idle_timeout = val;
        b
    }

    /// Sets the maximum idle connection per host allowed in the pool.
    pub fn pool_max_idle_per_host(self, max: usize) -> (b: ClientBuilder)
        ensures
            b.config == (Config { pool_max_idle_per_host: max, ..self.config }),
    {
        let mut b = self;
        b.config.pool_max_idle_per_host = max;
        b
    }

    /// Sets the maximum number of connections in the pool; zero lifts the
    /// bound.
    pub fn pool_max_size(self, max: u32) -> (b: ClientBuilder)
        ensures
            b.config == (Config {
                pool_max_size: if max == 0 {
                    None
                } else {
                    Some(max)
                },
                ..self.config
            }),
    {
        let mut b = self;
        b.config.pool_max_size = if max == 0 {
            None
        } else {
            Some(max)
        };
        b
    }

    /// Disable keep-alive for the client.
    pub fn no_keepalive(self) -> (b: ClientBuilder)
        ensures
            b.config == (Config {
                pool_max_idle_per_host: 0,
                tcp_keepalive: None,
                ..self.config
            }),
    {
        let mut b = self;
        b.config.pool_max_idle_per_host = 0;
        b.config.tcp_keepalive = None;
        b
    }

    /// Only use HTTP/1.
    pub fn http1_only(self) -> (b: ClientBuilder)
        ensures
            b.config == (Config { http_version_pref: HttpVersionPref::Http1, ..self.config }),
    {
        let mut b = self;
        b.config.http_version_pref = HttpVersionPref::Http1;
        b
    }

    /// Only use HTTP/2.
    pub fn http2_only(self) -> (b: ClientBuilder)
        ensures
            b.config == (Config { http_version_pref: HttpVersionPref::Http2, ..self.config }),
    {
        let mut b = self;
        b.config.http_version_pref = HttpVersionPref::Http2;
        b
    }

    /// Sets the maximum number of safe retries for HTTP/2 connections.
    pub fn http2_max_retry(self, max: usize) -> (b: ClientBuilder)
        ensures
            b.config == (Config { http2_max_retry: max, ..self.config }),
    {
        let mut b = self;
        b.config.http2_max_retry = max;
        b
    }

    // TCP options

    /// Set whether sockets have `TCP_NODELAY` enabled.
    ///
    /// Default is `true`.
    pub fn tcp_nodelay(self, enabled: bool) -> (b: ClientBuilder)
        ensures
            b.config == (Config { tcp_nodelay: enabled, ..self.config }),
    {
        let mut b = self;
        b.config.tcp_nodelay = enabled;
        b
    }

    /// Set that all sockets have `SO_KEEPALIVE` set with the supplied duration.
    ///
    /// If `None`, the option will not be set.
    pub fn tcp_keepalive(self, val: Option<Duration>) -> (b: ClientBuilder)
        ensures
            b.config == (Config { tcp_keepalive: val, ..self.config }),
    {
        let mut b = self;
        b.config.tcp_keepalive = val;
        b
    }

    /// Set that all sockets have `SO_KEEPALIVE` set with the supplied interval.
    ///
    /// If `None`, the option will not be set.
    pub fn tcp_keepalive_interval(self, val: Option<Duration>) -> (b: ClientBuilder)
        ensures
            b.config == (Config { tcp_keepalive_interval: val, ..self.config }),
    {
        let mut b = self;
        b.config.tcp_keepalive_interval = val;
        b
    }

    /// Set that all sockets have `SO_KEEPALIVE` set with the supplied retry count.
    ///
    /// If `None`, the option will not be set.
    pub fn tcp_keepalive_retries(self, retries: Option<u32>) -> (b: ClientBuilder)
        ensures
            b.config == (Config { tcp_keepalive_retries: retries, ..self.config }),
    {
        let mut b = self;
        b.config.tcp_keepalive_retries = retries;
        b
    }

    /// Set that all sockets have `TCP_USER_TIMEOUT` set with the supplied duration.
    pub fn tcp_user_timeout(self, val: Option<Duration>) -> (b: ClientBuilder)
        ensures
            b.config == (Config { tcp_user_timeout: val, ..self.config }),
    {
        let mut b = self;
        b.config.tcp_user_timeout = val;
        b
    }

    /// Set whether sockets have `SO_REUSEADDR` enabled.
    pub fn tcp_reuse_address(self, enabled: bool) -> (b: ClientBuilder)
        ensures
            b.config == (Config { tcp_reuse_address: enabled, ..self.config }),
    {
        let mut b = self;
        b.config.tcp_reuse_address = enabled;
        b
    }

    /// Bind to a local IP Address.
    pub fn local_address(self, addr: Option<IpAddr>) -> (b: ClientBuilder)
        ensures
            b.config.tcp_connect_options is Some,
            TcpConnectOptions::or_unbound(self.config.tcp_connect_options).local_address_set(
                addr,
                b.config.tcp_connect_options->Some_0,
            ),
            b.config == (Config {
                tcp_connect_options: b.config.tcp_connect_options,
                ..self.config
            }),
    {
        let mut b = self;
        let mut options = match b.config.tcp_connect_options.take() {
            Some(o) => o,
            None => TcpConnectOptions::new(),
        };
        options.set_local_address(addr);
        b.config.tcp_connect_options = Some(options);
        b
    }

    /// Set that all sockets are bound to the configured IPv4 or IPv6 address
    /// (depending on host's preferences) before connection.
    pub fn local_addresses(self, ipv4: Option<Ipv4Addr>, ipv6: Option<Ipv6Addr>) -> (b:
        ClientBuilder)
        ensures
            b.config == (Config {
                tcp_connect_options: Some(
                    TcpConnectOptions {
                        local_ipv4: ipv4,
                        local_ipv6: ipv6,
                        ..TcpConnectOptions::or_unbound(self.config.tcp_connect_options)
                    },
                ),
                ..self.config
            }),
    {
        let mut b = self;
        let mut options = match b.config.tcp_connect_options.take() {
            Some(o) => o,
            None => TcpConnectOptions::new(),
        };
        options.set_local_addresses(ipv4, ipv6);
        b.config.tcp_connect_options = Some(options);
        b
    }

    /// Bind to an interface by `SO_BINDTODEVICE`.
    pub fn interface(self, interface: String) -> (b: ClientBuilder)
        ensures
            b.config == (Config {
                tcp_connect_options: Some(
                    TcpConnectOptions {
                        interface: Some(interface),
                        ..TcpConnectOptions::or_unbound(self.config.tcp_connect_options)
                    },
                ),
                ..self.config
            }),
    {
        let mut b = self;
        let mut options = match b.config.tcp_connect_options.take() {
            Some(o) => o,
            None => TcpConnectOptions::new(),
        };
        options.set_interface(interface);
        b.config.tcp_connect_options = Some(options);
        b
    }

    // TLS/HTTP2 emulation options

    /// Configures the client builder to emulate the specified HTTP context:
    /// each thing that the emulation provides takes the place of what the
    /// builder had for it.
    #[verifier::rlimit(50)]
    pub fn emulation(self, emulation: EmulationProvider) -> (b: ClientBuilder)
        ensures
            b.config == (Config {
                headers: match emulation.default_headers {
                    Some(h) => h,
                    None => self.config.headers,
                },
                original_headers: if emulation.original_headers is Some {
                    emulation.original_headers
                } else {
                    self.config.original_headers
                },
                http1_config: match emulation.http1_config {
                    Some(c) => c,
                    None => self.config.http1_config,
                },
                http2_config: match emulation.http2_config {
                    Some(c) => c,
                    None => self.config.http2_config,
                },
                tls_config: match emulation.tls_config {
                    Some(c) => c,
                    None => self.config.tls_config,
                },
                ..self.config
            }),
    {
        let mut b = self;
        let EmulationProvider {
            default_headers,
            original_headers,
            http1_config,
            http2_config,
            tls_config,
        } = emulation;
        if let Some(headers) = default_headers {
            b.config.headers = headers;
        }
        if original_headers.is_some() {
            b.config.original_headers = original_headers;
        }
        if let Some(http1_config) = http1_config {
            b.config.http1_config = http1_config;
        }
        if let Some(http2_config) = http2_config {
            b.config.http2_config = http2_config;
        }
        if let Some(tls_config) = tls_config {
            b.config.tls_config = tls_config;
        }
        b
    }

    /// Sets the identity to be used for client certificate authentication.
    pub fn identity(self, identity: u64) -> (b: ClientBuilder)
        ensures
            b.config == (Config { tls_identity: Some(identity), ..self.config }),
    {
        let mut b = self;
        b.config.tls_identity = Some(identity);
        b
    }

    /// Controls the use of certificate validation.
    ///
    /// Defaults to `true`.
    pub fn cert_verification(self, cert_verification: bool) -> (b: ClientBuilder)
        ensures
            b.config == (Config { tls_cert_verification: cert_verification, ..self.config }),
    {
        let mut b = self;
        b.config.tls_cert_verification = cert_verification;
        b
    }

    /// Sets the verify certificate store for the client.
    pub fn cert_store(self, store: u64) -> (b: ClientBuilder)
        ensures
            b.config == (Config { tls_cert_store: Some(store), ..self.config }),
    {
        let mut b = self;
        b.config.tls_cert_store = Some(store);
        b
    }

    /// Configures the use of Server Name Indication (SNI) when connecting.
    ///
    /// Defaults to `true`.
    pub fn tls_sni(self, tls_sni: bool) -> (b: ClientBuilder)
        ensures
            b.config == (Config { tls_sni, ..self.config }),
    {
        let mut b = self;
        b.config.tls_sni = tls_sni;
        b
    }

    /// Configures TLS key logging policy for the client.
    pub fn keylog(self, policy: KeyLogPolicy) -> (b: ClientBuilder)
        ensures
            b.config == (Config { tls_keylog_policy: Some(policy), ..self.config }),
    {
        let mut b = self;
        b.config.tls_keylog_policy = Some(policy);
        b
    }

    /// Configures the use of hostname verification when connecting.
    ///
    /// Defaults to `true`.
    pub fn verify_hostname(self, verify_hostname: bool) -> (b: ClientBuilder)
        ensures
            b.config == (Config { tls_verify_hostname: verify_hostname, ..self.config }),
    {
        let mut b = self;
        b.config.tls_verify_hostname = verify_hostname;
        b
    }

    /// Set the minimum required TLS version for connections.
    pub fn min_tls_version(self, version: TlsVersion) -> (b: ClientBuilder)
        ensures
            b.config == (Config { min_tls_version: Some(version), ..self.config }),
    {
        let mut b = self;
        b.config.min_tls_version = Some(version);
        b
    }

    /// Set the maximum allowed TLS version for connections.
    pub fn max_tls_version(self, version: TlsVersion) -> (b: ClientBuilder)
        ensures
            b.config == (Config { max_tls_version: Some(version), ..self.config }),
    {
        let mut b = self;
        b.config.max_tls_version = Some(version);
        b
    }

    /// Add TLS information as `TlsInfo` extension to responses.
    pub fn tls_info(self, tls_info: bool) -> (b: ClientBuilder)
        ensures
            b.config == (Config { tls_info, ..self.config }),
    {
        let mut b = self;
        b.config.tls_info = tls_info;
        b
    }

    /// Restrict the Client to be used with HTTPS only requests.
    ///
    /// Defaults to false.
    pub fn https_only(self, enabled: bool) -> (b: ClientBuilder)
        ensures
            b.config == (Config { https_only: enabled, ..self.config }),
    {
        let mut b = self;
        b.config.https_only = enabled;
        b
    }

    // DNS options

    /// Override DNS resolution for specific domains to a particular IP address.
    ///
    /// Since the DNS protocol has no notion of ports, the port of the
    /// address is not used: the client dials the port of the URL.
    pub fn resolve(self, domain: &str, addr: SocketAddr) -> (b: ClientBuilder)
        ensures
            overrides_view(b.config.dns_overrides@) == with_override(
                overrides_view(self.config.dns_overrides@),
                domain@,
                seq![addr],
            ),
            b.config == (Config { dns_overrides: b.config.dns_overrides, ..self.config }),
    {
        let mut addrs: Vec<SocketAddr> = Vec::new();
        addrs.push(addr);
        assert(addrs@ =~= seq![addr]);
        self.resolve_to_addrs(domain, addrs)
    }

    /// Override DNS resolution for specific domains to particular IP addresses.
    pub fn resolve_to_addrs(self, domain: &str, addrs: Vec<SocketAddr>) -> (b: ClientBuilder)
        ensures
            overrides_view(b.config.dns_overrides@) == with_override(
                overrides_view(self.config.dns_overrides@),
                domain@,
                addrs@,
            ),
            b.config == (Config { dns_overrides: b.config.dns_overrides, ..self.config }),
    {
        let mut b = self;
        set_override(&mut b.config.dns_overrides, domain, addrs);
        b
    }

    /// Override the DNS resolver implementation, by the number under which
    /// its owner keeps it.
    pub fn dns_resolver(self, resolver: u64) -> (b: ClientBuilder)
        ensures
            b.config == (Config { dns_resolver: Some(resolver), ..self.config }),
    {
        let mut b = self;
        b.config.dns_resolver = Some(resolver);
        b
    }

    /// Adds a new layer to the request stack, by the number under which its
    /// owner keeps it. Layers wrap the stack in the order in which they are
    /// added.
    pub fn layer(self, layer: u64) -> (b: ClientBuilder)
        ensures
            b.config.request_layers is Some,
            b.config.request_layers->Some_0@ == (match self.config.request_layers {
                Some(l) => l@,
                None => Seq::empty(),
            }).push(layer),
            b.config == (Config { request_layers: b.config.request_layers, ..self.config }),
    {
        let mut b = self;
        let mut layers = match b.config.request_layers.take() {
            Some(l) => l,
            None => Vec::new(),
        };
        layers.push(layer);
        b.config.request_layers = Some(layers);
        b
    }

    /// Adds a new layer to the connector, by the number under which its
    /// owner keeps it.
    pub fn connector_layer(self, layer: u64) -> (b: ClientBuilder)
        ensures
            b.config.connector_layers is Some,
            b.config.connector_layers->Some_0@ == (match self.config.connector_layers {
                Some(l) => l@,
                None => Seq::empty(),
            }).push(layer),
            b.config == (Config { connector_layers: b.config.connector_layers, ..self.config }),
    {
        let mut b = self;
        let mut layers = match b.config.connector_layers.take() {
            Some(l) => l,
            None => Vec::new(),
        };
        layers.push(layer);
        b.config.connector_layers = Some(layers);
        b
    }
}

impl Default for ClientBuilder {
    fn default() -> (b: ClientBuilder)
        ensures
            b.config.is_default(),
    {
        Self::new()
    }
}

} // verus!
