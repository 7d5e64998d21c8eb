//! Settings that a client holds and a request may override.

use vstd::prelude::*;
use crate::dns::{IpAddr, Ipv4Addr, Ipv6Addr};
use crate::header::map::HeaderMap;
use crate::header::original::OriginalHeaders;

verus! {

/// The protocols that a TLS handshake may offer.
#[derive(Clone, Copy, Debug, PartialEq, Eq, Structural)]
pub enum AlpnProtocol {
    Http1,
    Http2,
}

/// The TLS versions that can bound a handshake.
#[derive(Clone, Copy, Debug, PartialEq, Eq, Structural)]
pub enum TlsVersion {
    Tls10,
    Tls11,
    Tls12,
    Tls13,
}

/// Where the secrets of TLS sessions are logged, if anywhere.
#[derive(Clone, Copy, Debug, PartialEq, Eq, Structural)]
pub enum KeyLogPolicy {
    /// To the file that the environment names.
    Environment,
    /// To the file that the caller keeps under this number.
    File(u64),
}

/// The parameters of HTTP/1 framing, by the number under which their owner
/// keeps them.
#[derive(Clone, Copy, Debug, PartialEq, Eq, Structural)]
pub struct Http1Config {
    pub token: u64,
}

/// The parameters of HTTP/2 framing, by the number under which their owner
/// keeps them.
#[derive(Clone, Copy, Debug, PartialEq, Eq, Structural)]
pub struct Http2Config {
    pub token: u64,
}

/// The parameters of the TLS backend, by the number under which their owner
/// keeps them, and the protocols to offer where the client fixes them.
#[derive(Clone, Copy, Debug, PartialEq, Eq, Structural)]
pub struct TlsConfig {
    pub token: u64,
    pub alpn_protos: Option<AlpnProtocol>,
}

/// The content codings that a request announces.
#[derive(Clone, Copy, Debug, PartialEq, Eq, Structural)]
pub struct AcceptEncoding {
    pub gzip: bool,
    pub brotli: bool,
    pub zstd: bool,
    pub deflate: bool,
}

impl AcceptEncoding {
    /// Every coding announced.
    pub fn new() -> (a: AcceptEncoding)
        ensures
            a == (AcceptEncoding { gzip: true, brotli: true, zstd: true, deflate: true }),
    {
        AcceptEncoding { gzip: true, brotli: true, zstd: true, deflate: true }
    }

    pub fn gzip(&mut self, enabled: bool)
        ensures
            *final(self) == (AcceptEncoding { gzip: enabled, ..*old(self) }),
    {
        self.gzip = enabled;
    }

    pub fn brotli(&mut self, enabled: bool)
        ensures
            *final(self) == (AcceptEncoding { brotli: enabled, ..*old(self) }),
    {
        self.brotli = enabled;
    }

    pub fn zstd(&mut self, enabled: bool)
        ensures
            *final(self) == (AcceptEncoding { zstd: enabled, ..*old(self) }),
    {
        self.zstd = enabled;
    }

    pub fn deflate(&mut self, enabled: bool)
        ensures
            *final(self) == (AcceptEncoding { deflate: enabled, ..*old(self) }),
    {
        self.deflate = enabled;
    }

    /// Whether any coding is announced.
    pub fn is_any(&self) -> (b: bool)
        ensures
            b == (self.gzip || self.brotli || self.zstd || self.deflate),
    {
        self.gzip || self.brotli || self.zstd || self.deflate
    }
}

/// How the socket of a connection is bound before it is dialled.
#[derive(Debug)]
pub struct TcpConnectOptions {
    /// The network interface to bind to.
    pub interface: Option<String>,
    /// The local address for connections to IPv4 addresses.
    pub local_ipv4: Option<Ipv4Addr>,
    /// The local address for connections to IPv6 addresses.
    pub local_ipv6: Option<Ipv6Addr>,
}

impl TcpConnectOptions {
    /// The options that an optional set of options stands for: its own, or
    /// those that bind nothing.
    pub open spec fn or_unbound(options: Option<TcpConnectOptions>) -> TcpConnectOptions {
        match options {
            Some(o) => o,
            None => TcpConnectOptions { interface: None, local_ipv4: None, local_ipv6: None },
        }
    }

    pub fn new() -> (o: TcpConnectOptions)
        ensures
            o == Self::or_unbound(None),
    {
        TcpConnectOptions { interface: None, local_ipv4: None, local_ipv6: None }
    }

    pub fn set_interface(&mut self, interface: String)
        ensures
            *final(self) == (TcpConnectOptions { interface: Some(interface), ..*old(self) }),
    {
        self.interface = Some(interface);
    }

    /// Whether `after` is `self` with `local_addr` as the one local
    /// address: it binds connections of its own family, and connections of
    /// the other family are left unbound. `None` unbinds both.
    pub open spec fn local_address_set(
        self,
        local_addr: Option<IpAddr>,
        after: TcpConnectOptions,
    ) -> bool {
        after == (TcpConnectOptions {
            local_ipv4: match local_addr {
                Some(IpAddr::V4(a, b, c, d)) => Some(Ipv4Addr(a, b, c, d)),
                _ => None,
            },
            local_ipv6: match local_addr {
                Some(IpAddr::V6(a, b, c, d, e, f, g, h)) => Some(Ipv6Addr(a, b, c, d, e, f, g, h)),
                _ => None,
            },
            ..self
        })
    }

    /// Sets the one local address; see `local_address_set`.
    pub fn set_local_address(&mut self, local_addr: Option<IpAddr>)
        ensures
            old(self).local_address_set(local_addr, *final(self)),
    {
        match local_addr {
            Some(IpAddr::V4(a, b, c, d)) => {
                self.local_ipv4 = Some(Ipv4Addr(a, b, c, d));
                self.local_ipv6 = None;
            },
            Some(IpAddr::V6(a, b, c, d, e, f, g, h)) => {
                self.local_ipv4 = None;
                self.local_ipv6 = Some(Ipv6Addr(a, b, c, d, e, f, g, h));
            },
            None => {
                self.local_ipv4 = None;
                self.local_ipv6 = None;
            },
        }
    }

    /// Sets the local address for each family of addresses.
    pub fn set_local_addresses(&mut self, ipv4: Option<Ipv4Addr>, ipv6: Option<Ipv6Addr>)
        ensures
            *final(self) == (TcpConnectOptions { local_ipv4: ipv4, local_ipv6: ipv6, ..*old(self) }),
    {
        self.local_ipv4 = ipv4;
        self.local_ipv6 = ipv6;
    }

    /// The local address to bind a connection to `remote` to: that of the
    /// family of `remote`, if one is set.
    pub fn local_for(&self, remote: IpAddr) -> (r: Option<IpAddr>)
        ensures
            r == (match remote {
                IpAddr::V4(_, _, _, _) => match self.local_ipv4 {
                    Some(Ipv4Addr(a, b, c, d)) => Some(IpAddr::V4(a, b, c, d)),
                    None => None,
                },
                IpAddr::V6(_, _, _, _, _, _, _, _) => match self.local_ipv6 {
                    Some(Ipv6Addr(a, b, c, d, e, f, g, h)) => Some(
                        IpAddr::V6(a, b, c, d, e, f, g, h),
                    ),
                    None => None,
                },
            }),
    {
        match remote {
            IpAddr::V4(_, _, _, _) => match self.local_ipv4 {
                Some(Ipv4Addr(a, b, c, d)) => Some(IpAddr::V4(a, b, c, d)),
                None => None,
            },
            IpAddr::V6(_, _, _, _, _, _, _, _) => match self.local_ipv6 {
                Some(Ipv6Addr(a, b, c, d, e, f, g, h)) => Some(IpAddr::V6(a, b, c, d, e, f, g, h)),
                None => None,
            },
        }
    }
}

impl Clone for TcpConnectOptions {
    fn clone(&self) -> (r: TcpConnectOptions)
        ensures
            crate::url::opt_view(r.interface) == crate::url::opt_view(self.interface),
            r.local_ipv4 == self.local_ipv4,
            r.local_ipv6 == self.local_ipv6,
    {
        TcpConnectOptions {
            interface: match &self.interface {
                Some(s) => Some(s.clone()),
                None => None,
            },
            local_ipv4: self.local_ipv4,
            local_ipv6: self.local_ipv6,
        }
    }
}

/// The protocol parameters that a request sets for itself.
#[derive(Clone, Copy, Debug, PartialEq, Eq, Structural)]
pub struct TransportConfig {
    pub http1_config: Option<Http1Config>,
    pub http2_config: Option<Http2Config>,
    pub tls_config: Option<TlsConfig>,
}

impl TransportConfig {
    pub fn new() -> (c: TransportConfig)
        ensures
            c == (TransportConfig { http1_config: None, http2_config: None, tls_config: None }),
    {
        TransportConfig { http1_config: None, http2_config: None, tls_config: None }
    }

    pub fn set_http1_config(&mut self, config: Option<Http1Config>)
        ensures
            *final(self) == (TransportConfig { http1_config: config, ..*old(self) }),
    {
        self.http1_config = config;
    }

    pub fn set_http2_config(&mut self, config: Option<Http2Config>)
        ensures
            *final(self) == (TransportConfig { http2_config: config, ..*old(self) }),
    {
        self.http2_config = config;
    }

    pub fn set_tls_config(&mut self, config: Option<TlsConfig>)
        ensures
            *final(self) == (TransportConfig { tls_config: config, ..*old(self) }),
    {
        self.tls_config = config;
    }
}

/// A bundled configuration that makes the client look like a given one:
/// headers, their order, and the parameters of both protocols and of TLS.
#[derive(Debug)]
pub struct EmulationProvider {
    pub default_headers: Option<HeaderMap>,
    pub original_headers: Option<OriginalHeaders>,
    pub http1_config: Option<Http1Config>,
    pub http2_config: Option<Http2Config>,
    pub tls_config: Option<TlsConfig>,
}

} // verus!
