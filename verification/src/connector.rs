//! The connector's plan: where to dial for a request, whether to tunnel
//! through a proxy, and what the TLS handshake offers.

use vstd::prelude::*;
use crate::client::builder::HttpVersionPref;
use crate::client::service::ConnectorConfig;
use crate::config::{AlpnProtocol, TlsVersion};
use crate::connect::Connected;
use crate::error::{Error, Kind};
use crate::proxy::{Target, TargetView};
use crate::url::{parsed_url, Url, UrlView};

verus! {

/// How a request passes a proxy.
#[derive(Clone, Copy, Debug, PartialEq, Eq, Structural)]
pub enum Passage {
    /// The proxy forwards the request, which names its target in full.
    Forward,
    /// The proxy opens a tunnel to the target on a CONNECT request; the
    /// credentials and headers for the proxy go with that request.
    Connect,
    /// The proxy is a SOCKS proxy.
    Socks,
}

/// What the TLS handshake with the target offers and checks.
#[derive(Clone, Copy, Debug, PartialEq, Eq, Structural)]
pub struct TlsPlan {
    /// Whether HTTP/2 is offered.
    pub offers_h2: bool,
    /// Whether HTTP/1.1 is offered.
    pub offers_http1: bool,
    pub sni: bool,
    pub verify_hostname: bool,
    pub cert_verification: bool,
    pub min_version: Option<TlsVersion>,
    pub max_version: Option<TlsVersion>,
}

/// What the connector does for one request.
#[derive(Debug)]
pub struct Plan {
    /// The host to resolve and dial: the proxy where there is one, else the
    /// target.
    pub host: String,
    /// The port to dial. It replaces whatever port the resolver gives.
    pub port: u16,
    pub passage: Option<Passage>,
    /// The handshake with the target, where the target is secure.
    pub tls: Option<TlsPlan>,
}

/// The protocols that a handshake offers under a version preference: one
/// alone for a client fixed on it, and else both.
pub open spec fn offer(alpn: Option<AlpnProtocol>) -> (bool, bool) {
    match alpn {
        Some(AlpnProtocol::Http1) => (false, true),
        Some(AlpnProtocol::Http2) => (true, false),
        None => (true, true),
    }
}

/// The protocol that a client of this preference fixes the handshake on.
pub fn alpn_of(pref: HttpVersionPref) -> (r: Option<AlpnProtocol>)
    ensures
        r == (match pref {
            HttpVersionPref::Http1 => Some(AlpnProtocol::Http1),
            HttpVersionPref::Http2 => Some(AlpnProtocol::Http2),
            HttpVersionPref::All => None,
        }),
{
    match pref {
        HttpVersionPref::Http1 => Some(AlpnProtocol::Http1),
        HttpVersionPref::Http2 => Some(AlpnProtocol::Http2),
        HttpVersionPref::All => None,
    }
}

/// How a request to a target of scheme `target` passes a proxy of scheme
/// `proxy`: a SOCKS proxy is spoken to in its own protocol; an HTTP proxy
/// tunnels secure targets and forwards plain ones. Any other scheme names
/// no proxy.
pub open spec fn passage(proxy: Seq<char>, target: Seq<char>) -> Option<Passage> {
    if proxy == "socks4"@ || proxy == "socks4a"@ || proxy == "socks5"@ || proxy == "socks5h"@ {
        Some(Passage::Socks)
    } else if proxy == "http"@ || proxy == "https"@ {
        if target == "https"@ {
            Some(Passage::Connect)
        } else {
            Some(Passage::Forward)
        }
    } else {
        None
    }
}

fn passage_for(proxy: &Url, target: &Url) -> (r: Option<Passage>)
    ensures
        r == passage(proxy@.scheme, target@.scheme),
{
    if proxy.scheme_is("socks4") || proxy.scheme_is("socks4a") || proxy.scheme_is("socks5")
        || proxy.scheme_is("socks5h") {
        Some(Passage::Socks)
    } else if proxy.scheme_is("http") || proxy.scheme_is("https") {
        if target.scheme_is("https") {
            Some(Passage::Connect)
        } else {
            Some(Passage::Forward)
        }
    } else {
        None
    }
}

/// The handshake that the configuration asks for.
pub open spec fn tls_plan(config: ConnectorConfig) -> TlsPlan {
    TlsPlan {
        offers_h2: offer(config.tls_config.alpn_protos).0,
        offers_http1: offer(config.tls_config.alpn_protos).1,
        sni: config.tls_sni,
        verify_hostname: config.tls_verify_hostname,
        cert_verification: config.tls_cert_verification,
        min_version: config.tls_min_version,
        max_version: config.tls_max_version,
    }
}

/// Whether `plan` is the plan for dialling `end`, the proxy or the target,
/// on the way to `target`.
pub open spec fn plans(
    plan: Plan,
    end: UrlView,
    pass: Option<Passage>,
    target: UrlView,
    config: ConnectorConfig,
) -> bool {
    &&& end.host is Some
    &&& end.port_or_known_default() is Some
    &&& plan.host@ == end.host->Some_0
    &&& plan.port == end.port_or_known_default()->Some_0
    &&& plan.passage == pass
    &&& plan.tls == (if target.scheme == "https"@ {
        Some(tls_plan(config))
    } else {
        None
    })
}

/// Plans the connection for a request to `url` through `proxy`, if any.
///
/// The port of the URL governs. A target without a host or a port, and a
/// proxy whose URL is none, has no host, no port or a scheme that names no
/// proxy, fail the request.
pub fn plan(url: &Url, proxy: Option<&Target>, config: &ConnectorConfig) -> (r: Result<Plan, Error>)
    ensures
        match proxy {
            None => if url@.host is Some && url@.port_or_known_default() is Some {
                r is Ok && plans(r->Ok_0, url@, None, url@, *config)
            } else {
                r is Err && r->Err_0.kind == Kind::Request
            },
            Some(t) => match parsed_url(t.url@) {
                Some(p) => if p.host is Some && p.port_or_known_default() is Some && passage(
                    p.scheme,
                    url@.scheme,
                ) is Some {
                    r is Ok && plans(r->Ok_0, p, passage(p.scheme, url@.scheme), url@, *config)
                } else {
                    r is Err && r->Err_0.kind == Kind::Request
                },
                None => r is Err && r->Err_0.kind == Kind::Request,
            },
        },
{
    let tls = if url.scheme_is("https") {
        let (offers_h2, offers_http1) = match config.tls_config.alpn_protos {
            Some(AlpnProtocol::Http1) => (false, true),
            Some(AlpnProtocol::Http2) => (true, false),
            None => (true, true),
        };
        Some(
            TlsPlan {
                offers_h2,
                offers_http1,
                sni: config.tls_sni,
                verify_hostname: config.tls_verify_hostname,
                cert_verification: config.tls_cert_verification,
                min_version: config.tls_min_version,
                max_version: config.tls_max_version,
            },
        )
    } else {
        None
    };
    match proxy {
        None => match (url.host_str(), url.port_or_known_default()) {
            (Some(host), Some(port)) => Ok(Plan { host: host.clone(), port, passage: None, tls }),
            _ => Err(Error::request("the URL names no host to connect to")),
        },
        Some(target) => {
            let end = match Url::parse(target.url.as_str()) {
                Some(end) => end,
                None => {
                    return Err(Error::request("the URL of the proxy is no URL"));
                },
            };
            let pass = passage_for(&end, url);
            match (end.host_str(), end.port_or_known_default(), pass) {
                (Some(host), Some(port), Some(pass)) => Ok(
                    Plan { host: host.clone(), port, passage: Some(pass), tls },
                ),
                _ => Err(Error::request("the URL of the proxy names no proxy")),
            }
        },
    }
}

/// The record of a connection that was made by `plan`: it goes through a
/// proxy where the proxy forwards, and speaks HTTP/2 where the handshake
/// settled on it.
pub fn record(plan: &Plan, negotiated_h2: bool) -> (c: Connected)
    ensures
        c.is_proxied == (plan.passage == Some(Passage::Forward)),
        c.alpn == (if negotiated_h2 {
            crate::connect::Alpn::H2
        } else {
            crate::connect::Alpn::Unset
        }),
        c.extra is None,
{
    let forwarded = match plan.passage {
        Some(Passage::Forward) => true,
        _ => false,
    };
    let c = Connected::new().proxy(forwarded);
    if negotiated_h2 {
        c.negotiated_h2()
    } else {
        c
    }
}

} // verus!
