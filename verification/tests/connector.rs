use wreq_core::client::builder::{ClientBuilder, HttpVersionPref};
use wreq_core::client::service::ConnectorConfig;
use wreq_core::client::{Client, ClientRef};
use wreq_core::config::{AlpnProtocol, TlsVersion};
use wreq_core::connector::{alpn_of, plan, record, Passage, TlsPlan};
use wreq_core::error::Kind;
use wreq_core::header::map::HeaderMap;
use wreq_core::proxy::Target;
use wreq_core::url::Url;

fn connector(c: &Client) -> &ConnectorConfig {
    match c.inner() {
        ClientRef::Boxed(s) => &s.service.connector,
        ClientRef::Generic(s) => &s.service.connector,
    }
}

fn url(s: &str) -> Url {
    Url::parse(s).unwrap()
}

fn proxy(url: &str) -> Target {
    Target { url: url.to_string(), auth: None, headers: HeaderMap::new() }
}

#[test]
fn direct_connections() {
    let client = Client::new();
    let config = connector(&client);
    let p = plan(&url("https://api.example:8443/x"), None, config).unwrap();
    assert_eq!(p.host, "api.example");
    assert_eq!(p.port, 8443);
    assert_eq!(p.passage, None);
    assert_eq!(
        p.tls,
        Some(TlsPlan {
            offers_h2: true,
            offers_http1: true,
            sni: true,
            verify_hostname: true,
            cert_verification: true,
            min_version: None,
            max_version: None,
        })
    );
    let p = plan(&url("http://example.com/"), None, config).unwrap();
    assert_eq!((p.host.as_str(), p.port), ("example.com", 80));
    assert!(p.tls.is_none());
    let c = record(&p, false);
    assert!(!c.is_proxied() && !c.is_negotiated_h2());
    let e = plan(&url("foo://example.com/"), None, config).unwrap_err();
    assert_eq!(e.kind, Kind::Request);
    assert!(plan(&url("mailto:a@b.c"), None, config).is_err());
}

#[test]
fn handshake_follows_the_version_preference() {
    let h2 = ClientBuilder::new()
        .http2_only()
        .tls_sni(false)
        .verify_hostname(false)
        .cert_verification(false)
        .min_tls_version(TlsVersion::Tls12)
        .max_tls_version(TlsVersion::Tls13)
        .build()
        .unwrap();
    let p = plan(&url("https://example.com/"), None, connector(&h2)).unwrap();
    assert_eq!(
        p.tls,
        Some(TlsPlan {
            offers_h2: true,
            offers_http1: false,
            sni: false,
            verify_hostname: false,
            cert_verification: false,
            min_version: Some(TlsVersion::Tls12),
            max_version: Some(TlsVersion::Tls13),
        })
    );
    assert!(record(&p, true).is_negotiated_h2());
    let h1 = ClientBuilder::new().http1_only().build().unwrap();
    let tls = plan(&url("https://example.com/"), None, connector(&h1)).unwrap().tls.unwrap();
    assert!(!tls.offers_h2 && tls.offers_http1);
    assert_eq!(alpn_of(HttpVersionPref::Http1), Some(AlpnProtocol::Http1));
    assert_eq!(alpn_of(HttpVersionPref::Http2), Some(AlpnProtocol::Http2));
    assert_eq!(alpn_of(HttpVersionPref::All), None);
}

#[test]
fn connections_through_a_proxy() {
    let client = Client::new();
    let config = connector(&client);
    // a secure target is tunnelled, and the handshake is with the target
    let p = plan(&url("https://example.com/"), Some(&proxy("http://proxy.local:3128")), config).unwrap();
    assert_eq!((p.host.as_str(), p.port), ("proxy.local", 3128));
    assert_eq!(p.passage, Some(Passage::Connect));
    assert!(p.tls.is_some());
    assert!(!record(&p, false).is_proxied());
    // a plain target is forwarded
    let p = plan(&url("http://example.com/"), Some(&proxy("https://proxy.local")), config).unwrap();
    assert_eq!((p.host.as_str(), p.port), ("proxy.local", 443));
    assert_eq!(p.passage, Some(Passage::Forward));
    assert!(p.tls.is_none());
    assert!(record(&p, false).is_proxied());
    for scheme in ["socks4", "socks4a", "socks5", "socks5h"] {
        let p = plan(
            &url("https://example.com/"),
            Some(&proxy(&format!("{scheme}://proxy.local:1080"))),
            config,
        )
        .unwrap();
        assert_eq!(p.passage, Some(Passage::Socks));
        assert_eq!(p.port, 1080);
    }
    for bad in ["not a url", "ftp://proxy.local:21", "socks5://proxy.local", "mailto:x@y.z"] {
        let e = plan(&url("https://example.com/"), Some(&proxy(bad)), config).unwrap_err();
        assert_eq!(e.kind, Kind::Request, "{bad}");
    }
}
