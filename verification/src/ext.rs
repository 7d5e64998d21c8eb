//! What a request overrides for itself.

use vstd::prelude::*;
use crate::config::{AcceptEncoding, TcpConnectOptions, TransportConfig};
use crate::header::original::OriginalHeaders;
use crate::method::Version;
use crate::proxy::Matcher;
use crate::redirect::policy::Policy;
use crate::time::Duration;

verus! {

/// The settings that a request carries for itself. Each one that is set
/// replaces what the client would do by default.
#[derive(Debug)]
pub struct Extensions {
    /// The HTTP version that the request must be sent in.
    pub version: Option<Version>,
    /// The order and spelling of the headers on the wire.
    pub original_headers: Option<OriginalHeaders>,
    pub redirect: Option<Policy>,
    /// The time that the whole exchange may take.
    pub timeout: Option<Duration>,
    /// The time that may pass between two reads of the response body.
    pub read_timeout: Option<Duration>,
    pub tcp_connect_options: Option<TcpConnectOptions>,
    pub proxy_matcher: Option<Matcher>,
    pub accept_encoding: Option<AcceptEncoding>,
    /// Whether the default headers of the client are left out.
    pub skip_default_headers: Option<bool>,
    pub transport_config: Option<TransportConfig>,
}

fn clone_matcher(m: &Matcher) -> (r: Matcher)
    ensures
        crate::proxy::opt_target_view(r.http) == crate::proxy::opt_target_view(m.http),
        crate::proxy::opt_target_view(r.https) == crate::proxy::opt_target_view(m.https),
        crate::proxy::hosts_view(r.no_proxy@) == crate::proxy::hosts_view(m.no_proxy@),
{
    let mut no_proxy: Vec<String> = Vec::new();
    let mut i: usize = 0;
    while i < m.no_proxy.len()
        invariant
            i <= m.no_proxy@.len(),
            no_proxy@.len() == i,
            forall|j: int| 0 <= j < i ==> (#[trigger] no_proxy@[j])@ == m.no_proxy@[j]@,
        decreases m.no_proxy@.len() - i,
    {
        no_proxy.push(m.no_proxy[i].clone());
        i += 1;
    }
    assert(crate::proxy::hosts_view(no_proxy@) =~= crate::proxy::hosts_view(m.no_proxy@));
    Matcher {
        http: match &m.http {
            Some(t) => Some(t.clone()),
            None => None,
        },
        https: match &m.https {
            Some(t) => Some(t.clone()),
            None => None,
        },
        no_proxy,
    }
}

impl Extensions {
    /// The settings of a request that overrides nothing.
    pub open spec fn new_spec() -> Extensions {
        Extensions {
            version: None,
            original_headers: None,
            redirect: None,
            timeout: None,
            read_timeout: None,
            tcp_connect_options: None,
            proxy_matcher: None,
            accept_encoding: None,
            skip_default_headers: None,
            transport_config: None,
        }
    }

    pub fn new() -> (e: Extensions)
        ensures
            e == Extensions::new_spec(),
    {
        Extensions {
            version: None,
            original_headers: None,
            redirect: None,
            timeout: None,
            read_timeout: None,
            tcp_connect_options: None,
            proxy_matcher: None,
            accept_encoding: None,
            skip_default_headers: None,
            transport_config: None,
        }
    }

    /// Whether two sets of settings say the same.
    pub open spec fn same(self, other: Extensions) -> bool {
        &&& self.version == other.version
        &&& self.original_headers is Some == other.original_headers is Some
        &&& self.original_headers is Some ==> self.original_headers->Some_0@
            == other.original_headers->Some_0@ && self.original_headers->Some_0.spellings()
            == other.original_headers->Some_0.spellings()
        &&& self.redirect == other.redirect
        &&& self.timeout == other.timeout
        &&& self.read_timeout == other.read_timeout
        &&& self.tcp_connect_options is Some == other.tcp_connect_options is Some
        &&& self.tcp_connect_options is Some ==> {
            let a = self.tcp_connect_options->Some_0;
            let b = other.tcp_connect_options->Some_0;
            &&& crate::url::opt_view(a.interface) == crate::url::opt_view(b.interface)
            &&& a.local_ipv4 == b.local_ipv4
            &&& a.local_ipv6 == b.local_ipv6
        }
        &&& self.proxy_matcher is Some == other.proxy_matcher is Some
        &&& self.proxy_matcher is Some ==> {
            let a = self.proxy_matcher->Some_0;
            let b = other.proxy_matcher->Some_0;
            &&& crate::proxy::opt_target_view(a.http) == crate::proxy::opt_target_view(b.http)
            &&& crate::proxy::opt_target_view(a.https) == crate::proxy::opt_target_view(b.https)
            &&& crate::proxy::hosts_view(a.no_proxy@) == crate::proxy::hosts_view(b.no_proxy@)
        }
        &&& self.accept_encoding == other.accept_encoding
        &&& self.skip_default_headers == other.skip_default_headers
        &&& self.transport_config == other.transport_config
    }
}

impl Clone for Extensions {
    fn clone(&self) -> (r: Extensions)
        ensures
            r.same(*self),
    {
        Extensions {
            version: self.version,
            original_headers: match &self.original_headers {
                Some(o) => Some(o.clone()),
                None => None,
            },
            redirect: self.redirect,
            timeout: self.timeout,
            read_timeout: self.read_timeout,
            tcp_connect_options: match &self.tcp_connect_options {
                Some(o) => Some(o.clone()),
                None => None,
            },
            proxy_matcher: match &self.proxy_matcher {
                Some(m) => Some(clone_matcher(m)),
                None => None,
            },
            accept_encoding: self.accept_encoding,
            skip_default_headers: self.skip_default_headers,
            transport_config: self.transport_config,
        }
    }
}

} // verus!
