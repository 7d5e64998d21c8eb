use wreq_core::client::builder::{ClientBuilder, HttpVersionPref};
use wreq_core::client::service::{ClientService, HttpRequest};
use wreq_core::client::stack::Layer;
use wreq_core::client::{Client, ClientRef};
use wreq_core::body::Body;
use wreq_core::config::{
    AcceptEncoding, AlpnProtocol, EmulationProvider, Http1Config, Http2Config, KeyLogPolicy,
    TlsConfig, TlsVersion,
};
use wreq_core::dns::{
    apply_port, DnsResolverWithOverrides, InvalidNameError, IpAddr, Ipv4Addr, Ipv6Addr, Name,
    Override, Resolution, SocketAddr,
};
use wreq_core::error::{map_timeout_to_request_error, Error, Kind};
use wreq_core::ext::Extensions;
use wreq_core::header::map::HeaderMap;
use wreq_core::header::original::OriginalHeaders;
use wreq_core::header::{HeaderName, HeaderValue};
use wreq_core::method::{Method, Version};
use wreq_core::pool::conn::Ver;
use wreq_core::proxy::{select_proxy, Matcher, Proxy, Target};
use wreq_core::redirect::policy::Policy;
use wreq_core::time::Duration;
use wreq_core::url::Url;

fn stack_of(c: &Client) -> (&ClientService, &Vec<Layer>) {
    match c.inner() {
        ClientRef::Boxed(s) => (&s.service, &s.layers),
        ClientRef::Generic(s) => (&s.service, &s.layers),
    }
}

fn name(s: &str) -> HeaderName {
    HeaderName::from_str(s).unwrap()
}

fn value(s: &str) -> HeaderValue {
    HeaderValue::from_str(s).unwrap()
}

fn map(fields: &[(&str, &str)]) -> HeaderMap {
    let mut m = HeaderMap::new();
    for (n, v) in fields {
        m.append(name(n), value(v));
    }
    m
}

fn fields(m: &HeaderMap) -> Vec<(String, String)> {
    (0..m.len())
        .map(|i| {
            (
                String::from_utf8(m.name_at(i).as_bytes().to_vec()).unwrap(),
                String::from_utf8(m.value_at(i).as_bytes().to_vec()).unwrap(),
            )
        })
        .collect()
}

fn pairs(fields: &[(&str, &str)]) -> Vec<(String, String)> {
    fields.iter().map(|(n, v)| (n.to_string(), v.to_string())).collect()
}

fn http_request(uri: &str, headers: HeaderMap) -> HttpRequest {
    HttpRequest {
        method: Method::Get,
        uri: uri.to_string(),
        version: Version::Http11,
        headers,
        body: Body::empty(),
        extensions: Extensions::new(),
    }
}

#[test]
fn default_client() {
    let c = Client::new();
    let (service, layers) = stack_of(&c);
    assert!(matches!(c.inner(), ClientRef::Generic(_)));
    assert_eq!(
        *layers,
        vec![
            Layer::Decompression(AcceptEncoding::new()),
            Layer::ResponseBodyTimeout { total: None, read: None },
            Layer::FollowRedirect { policy: Policy::Limited(10), referer: true, https_only: false },
            Layer::Http2Retry { max: 2 },
            Layer::Timeout { total: None, read: None },
            Layer::MapTimeoutError,
        ]
    );
    assert_eq!(service.pool.idle_timeout, Some(Duration::from_secs(90)));
    assert_eq!(service.pool.max_idle_per_host, usize::MAX);
    assert_eq!(service.pool.max_pool_size, None);
    assert!(service.pool.is_enabled());
    assert!(!service.http2_only);
    assert!(service.config.default_headers.is_empty());
    assert!(!service.config.https_only);
    // the rule of the system stands behind all others
    assert_eq!(service.config.proxies.len(), 1);
    assert!(!service.config.proxies_maybe_http_auth);
    assert!(service.connector.tcp_nodelay);
    assert!(service.connector.tls_sni);
    assert!(service.connector.tls_verify_hostname);
    assert!(service.connector.tls_cert_verification);
    assert_eq!(service.connector.tls_config.alpn_protos, None);
    assert!(service.connector.layers.is_empty());
    let d = ClientBuilder::default().config;
    assert_eq!(d.http_version_pref, HttpVersionPref::All);
    assert_eq!(Client::builder().config.http2_max_retry, 2);
}

#[test]
fn stack_order_is_fixed() {
    let c = ClientBuilder::new()
        .layer(11)
        .cookie_provider(3)
        .timeout(Duration::from_secs(5))
        .read_timeout(Duration::from_secs(1))
        .layer(12)
        .redirect(Policy::none())
        .referer(false)
        .https_only(true)
        .http2_max_retry(4)
        .no_gzip()
        .no_brotli()
        .no_zstd()
        .no_deflate()
        .build()
        .unwrap();
    let (_, layers) = stack_of(&c);
    let total = Some(Duration::from_secs(5));
    let read = Some(Duration::from_secs(1));
    assert_eq!(
        *layers,
        vec![
            Layer::ResponseBodyTimeout { total, read },
            Layer::CookieManager,
            Layer::FollowRedirect { policy: Policy::Never, referer: false, https_only: true },
            Layer::Http2Retry { max: 4 },
            Layer::User(11),
            Layer::User(12),
            Layer::Timeout { total, read },
            Layer::MapTimeoutError,
        ]
    );
    assert!(matches!(c.inner(), ClientRef::Boxed(_)));
    let c = ClientBuilder::new().gzip(false).brotli(false).zstd(true).deflate(false).build().unwrap();
    let (_, layers) = stack_of(&c);
    assert_eq!(
        layers[0],
        Layer::Decompression(AcceptEncoding { gzip: false, brotli: false, zstd: true, deflate: false })
    );
}

#[test]
fn builder_error_fails_the_build() {
    let err = ClientBuilder::new().user_agent("bad\nagent").timeout(Duration::zero()).build().unwrap_err();
    assert_eq!(err.kind, Kind::Builder);
    let c = ClientBuilder::new().user_agent("one").user_agent("two/2.0").build().unwrap();
    assert_eq!(fields(&stack_of(&c).0.config.default_headers), pairs(&[("user-agent", "two/2.0")]));
}

#[test]
fn builder_settings_reach_the_client() {
    let mut order = OriginalHeaders::new();
    order.insert(b"Host").unwrap();
    let c = ClientBuilder::new()
        .default_headers(map(&[("a", "1"), ("a", "2")]))
        .default_headers(map(&[("a", "3"), ("b", "4")]))
        .original_headers(order)
        .connect_timeout(Duration::from_secs(2))
        .connection_verbose(true)
        .pool_idle_timeout(None)
        .pool_max_idle_per_host(8)
        .pool_max_size(0)
        .tcp_nodelay(false)
        .tcp_keepalive(Some(Duration::from_secs(30)))
        .tcp_keepalive_interval(Some(Duration::from_secs(5)))
        .tcp_keepalive_retries(Some(3))
        .tcp_user_timeout(Some(Duration::from_secs(9)))
        .tcp_reuse_address(true)
        .interface("eth1".to_string())
        .identity(5)
        .cert_store(6)
        .cert_verification(false)
        .tls_sni(false)
        .keylog(KeyLogPolicy::File(2))
        .verify_hostname(false)
        .min_tls_version(TlsVersion::Tls12)
        .max_tls_version(TlsVersion::Tls13)
        .tls_info(true)
        .dns_resolver(4)
        .connector_layer(21)
        .connector_layer(22)
        .http2_only()
        .build()
        .unwrap();
    let (service, _) = stack_of(&c);
    assert_eq!(fields(&service.config.default_headers), pairs(&[("a", "3"), ("b", "4")]));
    assert_eq!(service.config.original_headers.as_ref().unwrap().len(), 1);
    assert_eq!(service.pool.idle_timeout, None);
    assert_eq!(service.pool.max_idle_per_host, 8);
    assert_eq!(service.pool.max_pool_size, None);
    assert!(service.http2_only);
    let k = &service.connector;
    assert_eq!(k.connect_timeout, Some(Duration::from_secs(2)));
    assert!(k.verbose);
    assert!(!k.tcp_nodelay);
    assert_eq!(k.tcp_keepalive, Some(Duration::from_secs(30)));
    assert_eq!(k.tcp_keepalive_interval, Some(Duration::from_secs(5)));
    assert_eq!(k.tcp_keepalive_retries, Some(3));
    assert_eq!(k.tcp_user_timeout, Some(Duration::from_secs(9)));
    assert!(k.tcp_reuse_address);
    assert_eq!(k.tcp_connect_options.as_ref().unwrap().interface.as_deref(), Some("eth1"));
    assert_eq!(k.tls_identity, Some(5));
    assert_eq!(k.tls_cert_store, Some(6));
    assert!(!k.tls_cert_verification);
    assert!(!k.tls_sni);
    assert_eq!(k.tls_keylog_policy, Some(KeyLogPolicy::File(2)));
    assert!(!k.tls_verify_hostname);
    assert_eq!(k.tls_min_version, Some(TlsVersion::Tls12));
    assert_eq!(k.tls_max_version, Some(TlsVersion::Tls13));
    assert!(k.tls_info);
    assert_eq!(k.resolver, Some(4));
    assert_eq!(k.layers, vec![21, 22]);
    // a client that speaks HTTP/2 only offers nothing else
    assert_eq!(k.tls_config.alpn_protos, Some(AlpnProtocol::Http2));
    let c = ClientBuilder::new().http1_only().pool_max_size(5).build().unwrap();
    assert_eq!(stack_of(&c).0.connector.tls_config.alpn_protos, Some(AlpnProtocol::Http1));
    assert_eq!(stack_of(&c).0.pool.max_pool_size, Some(5));
    let c = ClientBuilder::new().no_keepalive().build().unwrap();
    assert!(!stack_of(&c).0.pool.is_enabled());
}

#[test]
fn emulation_replaces_what_it_provides() {
    let c = ClientBuilder::new()
        .user_agent("mine")
        .emulation(EmulationProvider {
            default_headers: Some(map(&[("accept", "*/*")])),
            original_headers: None,
            http1_config: None,
            http2_config: Some(Http2Config { token: 9 }),
            tls_config: Some(TlsConfig { token: 8, alpn_protos: None }),
        })
        .build()
        .unwrap();
    let (service, _) = stack_of(&c);
    assert_eq!(fields(&service.config.default_headers), pairs(&[("accept", "*/*")]));
    assert_eq!(service.http1_config, Http1Config { token: 0 });
    assert_eq!(service.http2_config, Http2Config { token: 9 });
    assert_eq!(service.connector.tls_config.token, 8);
}

#[test]
fn proxies_of_the_client() {
    let system = Proxy::http("http://system:1").into_matcher();
    let c = ClientBuilder::new().system_proxy(system).build().unwrap();
    assert_eq!(stack_of(&c).0.config.proxies.len(), 1);
    assert_eq!(stack_of(&c).0.config.proxies[0].http.as_ref().unwrap().url, "http://system:1");
    // a proxy of the caller's switches the system's off
    let c = ClientBuilder::new()
        .system_proxy(Proxy::http("http://system:1").into_matcher())
        .proxy(Proxy::all("http://mine:2"))
        .build()
        .unwrap();
    assert_eq!(stack_of(&c).0.config.proxies.len(), 1);
    assert_eq!(stack_of(&c).0.config.proxies[0].http.as_ref().unwrap().url, "http://mine:2");
    let c = ClientBuilder::new().proxy(Proxy::all("http://mine:2")).no_proxy().build().unwrap();
    assert!(stack_of(&c).0.config.proxies.is_empty());
}

fn target(url: &str) -> Target {
    Target { url: url.to_string(), auth: None, headers: HeaderMap::new() }
}

#[test]
fn first_matching_proxy_wins() {
    let http_only = Proxy::http("http://proxy-one").into_matcher();
    let all = Proxy::all("http://proxy-two").no_proxy("internal.example").into_matcher();
    let request = Proxy::https("http://proxy-zero").into_matcher();
    let proxies = vec![http_only, all];
    let plain = Url::parse("http://example.com/").unwrap();
    let secure = Url::parse("https://example.com/").unwrap();
    let internal = Url::parse("https://internal.example/").unwrap();
    let other = Url::parse("ftp://example.com/").unwrap();
    assert_eq!(select_proxy(None, &proxies, &plain).unwrap().url, "http://proxy-one");
    assert_eq!(select_proxy(None, &proxies, &secure).unwrap().url, "http://proxy-two");
    assert!(select_proxy(None, &proxies, &internal).is_none());
    assert!(select_proxy(None, &proxies, &other).is_none());
    // the rule of the request comes first, where it matches
    assert_eq!(select_proxy(Some(&request), &proxies, &secure).unwrap().url, "http://proxy-zero");
    assert_eq!(select_proxy(Some(&request), &proxies, &plain).unwrap().url, "http://proxy-one");
    let m = Matcher { http: Some(target("http://p")), https: None, no_proxy: vec![] };
    assert!(m.intercept(&plain).is_some());
    assert!(m.intercept(&secure).is_none());
    assert!(!m.maybe_has_http_auth());
    assert!(!m.maybe_has_http_custom_headers());
}

#[test]
fn prepare_merges_defaults_and_sorts() {
    let mut order = OriginalHeaders::new();
    order.insert(b"User-Agent").unwrap();
    order.insert(b"Accept").unwrap();
    let c = ClientBuilder::new()
        .default_headers(map(&[("accept", "*/*"), ("h", "default")]))
        .user_agent("agent/1")
        .original_headers(order)
        .no_proxy()
        .build()
        .unwrap();
    let (service, _) = stack_of(&c);
    let url = Url::parse("https://example.com/x").unwrap();
    let d = service
        .prepare(&url, http_request("https://example.com/x", map(&[("h", "mine"), ("x", "1")])))
        .unwrap();
    assert_eq!(
        fields(&d.request.headers),
        pairs(&[("user-agent", "agent/1"), ("accept", "*/*"), ("h", "mine"), ("x", "1")])
    );
    assert_eq!(d.key, "https://example.com:443");
    assert_eq!(d.ver, Ver::Auto);
    assert!(d.proxy.is_none());
    assert_eq!(d.request.version, Version::Http11);

    // a request that skips the defaults goes out as it is, in its own order
    let mut req = http_request("https://example.com/x", map(&[("x", "1"), ("h", "mine")]));
    req.extensions.skip_default_headers = Some(true);
    let mut own = OriginalHeaders::new();
    own.insert(b"h").unwrap();
    req.extensions.original_headers = Some(own);
    req.extensions.version = Some(Version::Http2);
    let d = service.prepare(&url, req).unwrap();
    assert_eq!(fields(&d.request.headers), pairs(&[("h", "mine"), ("x", "1")]));
    assert_eq!(d.request.version, Version::Http2);
    assert_eq!(d.ver, Ver::Http2);
}

#[test]
fn prepare_rejects_plain_http_when_https_only() {
    let c = ClientBuilder::new().https_only(true).build().unwrap();
    let (service, _) = stack_of(&c);
    let url = Url::parse("http://example.com/").unwrap();
    let err = service.prepare(&url, http_request("http://example.com/", HeaderMap::new())).unwrap_err();
    assert_eq!(err.kind, Kind::Builder);
    assert_eq!(err.url().unwrap().as_string(), "http://example.com/");
    let url = Url::parse("https://example.com/").unwrap();
    assert!(service.prepare(&url, http_request("https://example.com/", HeaderMap::new())).is_ok());
}

#[test]
fn prepare_goes_through_the_proxy() {
    let mut proxy = Proxy::all("http://proxy.local:3128");
    proxy.matcher.http.as_mut().unwrap().auth = Some(value("Basic abc"));
    proxy.matcher.http.as_mut().unwrap().headers = map(&[("via", "me"), ("x", "proxy")]);
    let c = ClientBuilder::new().proxy(proxy).http2_only().build().unwrap();
    let (service, _) = stack_of(&c);
    assert!(service.config.proxies_maybe_http_auth);
    assert!(service.config.proxies_maybe_http_custom_headers);
    let url = Url::parse("http://example.com:8080/").unwrap();
    let d = service.prepare(&url, http_request("http://example.com:8080/", map(&[("x", "mine")]))).unwrap();
    assert_eq!(
        fields(&d.request.headers),
        pairs(&[("x", "mine"), ("proxy-authorization", "Basic abc"), ("via", "me")])
    );
    assert!(d.request.headers.value_at(1).is_sensitive());
    assert_eq!(d.key, "http://example.com:8080 via http://proxy.local:3128");
    assert_eq!(d.proxy.as_ref().unwrap().url, "http://proxy.local:3128");
    assert_eq!(d.ver, Ver::Http2);
    // a secure request leaves the proxy's headers to the connector
    let url = Url::parse("https://example.com/").unwrap();
    let d = service.prepare(&url, http_request("https://example.com/", HeaderMap::new())).unwrap();
    assert!(d.request.headers.is_empty());
    assert_eq!(d.key, "https://example.com:443 via http://proxy.local:3128");
}

fn addr(a: u8, b: u8, c: u8, d: u8, port: u16) -> SocketAddr {
    SocketAddr::new(IpAddr::V4(a, b, c, d), port)
}

#[test]
fn dns_override_with_the_port_of_the_url() {
    let c = ClientBuilder::new()
        .resolve("api.example", addr(203, 0, 113, 5, 9999))
        .resolve_to_addrs("other.example", vec![addr(10, 0, 0, 1, 1), addr(10, 0, 0, 2, 2)])
        .resolve("api.example", addr(203, 0, 113, 5, 9999))
        .build()
        .unwrap();
    let overrides = &stack_of(&c).0.connector.dns_overrides;
    assert_eq!(overrides.len(), 2);
    let resolver = DnsResolverWithOverrides::new(vec![
        Override { domain: "api.example".to_string(), addrs: vec![addr(203, 0, 113, 5, 9999)] },
    ]);
    let url = Url::parse("https://api.example:443/").unwrap();
    let name = Name::from_str(url.host_str().unwrap()).unwrap();
    assert_eq!(name.as_str(), "api.example");
    let mut addrs = match resolver.resolve(&name) {
        Resolution::Fixed(addrs) => addrs,
        Resolution::Delegate => panic!("the name has a fixed answer"),
    };
    assert_eq!(addrs, vec![addr(203, 0, 113, 5, 9999)]);
    // the port of the URL wins over that of the override
    apply_port(&mut addrs, url.port_or_known_default().unwrap());
    assert_eq!(addrs, vec![addr(203, 0, 113, 5, 443)]);
    assert_eq!(addrs[0].ip(), IpAddr::V4(203, 0, 113, 5));
    assert_eq!(addrs[0].port(), 443);
    assert_eq!(resolver.resolve(&Name::from_str("elsewhere.example").unwrap()), Resolution::Delegate);
    // every text is a name; whether it resolves is for the resolver to say
    assert_eq!(Name::from_str("").unwrap().as_str(), "");
    assert_eq!(InvalidNameError.message(), "invalid DNS name");
    let mut a = addr(1, 2, 3, 4, 5);
    a.set_port(6);
    assert_eq!(a, addr(1, 2, 3, 4, 6));
}

#[test]
fn errors_and_their_kinds() {
    let e = Error::builder("bad");
    assert!(e.is_builder() && !e.is_timeout() && e.url().is_none());
    assert_eq!(e.message, "bad");
    assert!(Error::request("x").is_request());
    assert!(Error::body("x").is_body());
    assert!(Error::decode("x").is_decode());
    assert!(Error::new(Kind::Status(404), "x").is_status());
    let u = Url::parse("https://e.com/").unwrap();
    let e = Error::redirect("loop", u.clone());
    assert!(e.is_redirect());
    assert_eq!(e.url().unwrap().as_string(), "https://e.com/");
    let e = Error::request("x").with_url(u);
    assert_eq!(e.url().unwrap().as_string(), "https://e.com/");
    let t = Error::timed_out(Kind::Decode);
    assert!(t.is_timeout());
    // a timer that runs out before the body is an error of the request
    let mapped = map_timeout_to_request_error(t);
    assert!(mapped.is_request() && mapped.is_timeout());
    let mapped = map_timeout_to_request_error(Error::timed_out(Kind::Body));
    assert!(mapped.is_body() && mapped.is_timeout());
    let mapped = map_timeout_to_request_error(Error::decode("x"));
    assert!(mapped.is_decode() && !mapped.is_timeout());
}

#[test]
fn local_addresses_of_the_client() {
    let v4 = IpAddr::V4(192, 0, 2, 1);
    let v6 = IpAddr::V6(0x2001, 0xdb8, 0, 0, 0, 0, 0, 1);
    let c = ClientBuilder::new().interface("eth0".to_string()).local_address(Some(v4)).build().unwrap();
    let options = stack_of(&c).0.connector.tcp_connect_options.as_ref().unwrap();
    assert_eq!(options.interface.as_deref(), Some("eth0"));
    assert_eq!(options.local_ipv4, Some(Ipv4Addr(192, 0, 2, 1)));
    assert_eq!(options.local_ipv6, None);
    // the local address is chosen to match the family of the remote one
    assert_eq!(options.local_for(IpAddr::V4(203, 0, 113, 5)), Some(v4));
    assert_eq!(options.local_for(v6), None);
    // one address of the other family takes the place of the first
    let c = ClientBuilder::new().local_address(Some(v4)).local_address(Some(v6)).build().unwrap();
    let options = stack_of(&c).0.connector.tcp_connect_options.as_ref().unwrap();
    assert_eq!(options.local_ipv4, None);
    assert_eq!(options.local_for(v6), Some(v6));
    let c = ClientBuilder::new()
        .local_addresses(Some(Ipv4Addr(10, 0, 0, 1)), Some(Ipv6Addr(0xfe80, 0, 0, 0, 0, 0, 0, 2)))
        .build()
        .unwrap();
    let options = stack_of(&c).0.connector.tcp_connect_options.as_ref().unwrap();
    assert_eq!(options.local_for(v4), Some(IpAddr::V4(10, 0, 0, 1)));
    assert_eq!(options.local_for(v6), Some(IpAddr::V6(0xfe80, 0, 0, 0, 0, 0, 0, 2)));
    let c = ClientBuilder::new().local_address(Some(v4)).local_address(None).build().unwrap();
    let options = stack_of(&c).0.connector.tcp_connect_options.as_ref().unwrap();
    assert_eq!((options.local_ipv4, options.local_ipv6), (None, None));
}
