//! Proxies: which requests go through one, and what the proxy is given.

use vstd::prelude::*;
use vstd::string::StringExecFns;
use crate::header::map::{Field, HeaderMap};
use crate::header::HeaderValue;
use crate::url::Url;

verus! {

/// A proxy server and what it is to be sent.
#[derive(Debug)]
pub struct Target {
    /// The URL of the proxy, as text.
    pub url: String,
    /// The value of `Proxy-Authorization`, where the proxy wants one.
    pub auth: Option<HeaderValue>,
    /// Headers for the proxy alone.
    pub headers: HeaderMap,
}

/// A proxy server as the mathematics sees it.
pub struct TargetView {
    pub url: Seq<char>,
    pub auth: Option<Seq<u8>>,
    pub headers: Seq<Field>,
}

impl View for Target {
    type V = TargetView;

    open spec fn view(&self) -> TargetView {
        TargetView {
            url: self.url@,
            auth: match self.auth {
                Some(a) => Some(a@),
                None => None,
            },
            headers: self.headers@,
        }
    }
}

impl Clone for Target {
    fn clone(&self) -> (r: Target)
        ensures
            r@ == self@,
    {
        Target {
            url: self.url.clone(),
            auth: match &self.auth {
                Some(a) => Some(a.clone()),
                None => None,
            },
            headers: self.headers.clone(),
        }
    }
}

/// The view of an optional target.
pub open spec fn opt_target_view(t: Option<Target>) -> Option<TargetView> {
    match t {
        Some(t) => Some(t@),
        None => None,
    }
}

/// The rule of one proxy: the server for plain requests, the server for
/// secure ones, and the hosts that are reached without either.
#[derive(Debug)]
pub struct Matcher {
    pub http: Option<Target>,
    pub https: Option<Target>,
    pub no_proxy: Vec<String>,
}

/// A proxy under configuration.
#[derive(Debug)]
pub struct Proxy {
    pub matcher: Matcher,
}

/// The hosts of a list, as the mathematics sees them.
pub open spec fn hosts_view(hosts: Seq<String>) -> Seq<Seq<char>> {
    Seq::new(hosts.len(), |i: int| hosts[i]@)
}

fn lists_host(hosts: &Vec<String>, host: &String) -> (b: bool)
    ensures
        b == hosts_view(hosts@).contains(host@),
{
    let mut i: usize = 0;
    while i < hosts.len()
        invariant
            i <= hosts@.len(),
            forall|j: int| 0 <= j < i ==> hosts_view(hosts@)[j] != host@,
        decreases hosts@.len() - i,
    {
        if hosts[i] == *host {
            assert(hosts_view(hosts@)[i as int] == host@);
            return true;
        }
        i += 1;
    }
    false
}

impl Matcher {
    /// The server that a request to `url` goes through under this rule: none
    /// for a URL without a host or with a host that the rule exempts; else
    /// the server for the scheme of the URL, if the rule names one.
    pub open spec fn intercepted(&self, url: crate::url::UrlView) -> Option<TargetView> {
        match url.host {
            None => None,
            Some(host) => if hosts_view(self.no_proxy@).contains(host) {
                None
            } else if url.scheme == "http"@ {
                opt_target_view(self.http)
            } else if url.scheme == "https"@ {
                opt_target_view(self.https)
            } else {
                None
            },
        }
    }

    pub fn intercept(&self, url: &Url) -> (r: Option<&Target>)
        ensures
            match r {
                Some(t) => self.intercepted(url@) == Some(t@),
                None => self.intercepted(url@) is None,
            },
    {
        match url.host_str() {
            None => None,
            Some(host) => {
                if lists_host(&self.no_proxy, host) {
                    None
                } else if url.scheme_is("http") {
                    self.http.as_ref()
                } else if url.scheme_is("https") {
                    self.https.as_ref()
                } else {
                    None
                }
            },
        }
    }

    /// Whether the rule may send a proxy its credentials in a header.
    pub fn maybe_has_http_auth(&self) -> (b: bool)
        ensures
            b == (self.http is Some && self.http->Some_0.auth is Some),
    {
        match &self.http {
            Some(t) => t.auth.is_some(),
            None => false,
        }
    }

    /// Whether the rule may send a proxy headers of its own.
    pub fn maybe_has_http_custom_headers(&self) -> (b: bool)
        ensures
            b == (self.http is Some && self.http->Some_0.headers@.len() > 0),
    {
        match &self.http {
            Some(t) => !t.headers.is_empty(),
            None => false,
        }
    }
}

impl Proxy {
    /// A proxy for all requests.
    pub fn all(url: &str) -> (p: Proxy)
        ensures
            opt_target_view(p.matcher.http) == Some(
                TargetView { url: url@, auth: None, headers: Seq::empty() },
            ),
            opt_target_view(p.matcher.https) == Some(
                TargetView { url: url@, auth: None, headers: Seq::empty() },
            ),
            p.matcher.no_proxy@.len() == 0,
    {
        Proxy {
            matcher: Matcher {
                http: Some(Target { url: String::from_str(url), auth: None, headers: HeaderMap::new() }),
                https: Some(
                    Target { url: String::from_str(url), auth: None, headers: HeaderMap::new() },
                ),
                no_proxy: Vec::new(),
            },
        }
    }

    /// A proxy for plain requests only.
    pub fn http(url: &str) -> (p: Proxy)
        ensures
            opt_target_view(p.matcher.http) == Some(
                TargetView { url: url@, auth: None, headers: Seq::empty() },
            ),
            p.matcher.https is None,
            p.matcher.no_proxy@.len() == 0,
    {
        Proxy {
            matcher: Matcher {
                http: Some(Target { url: String::from_str(url), auth: None, headers: HeaderMap::new() }),
                https: None,
                no_proxy: Vec::new(),
            },
        }
    }

    /// A proxy for secure requests only.
    pub fn https(url: &str) -> (p: Proxy)
        ensures
            p.matcher.http is None,
            opt_target_view(p.matcher.https) == Some(
                TargetView { url: url@, auth: None, headers: Seq::empty() },
            ),
            p.matcher.no_proxy@.len() == 0,
    {
        Proxy {
            matcher: Matcher {
                http: None,
                https: Some(
                    Target { url: String::from_str(url), auth: None, headers: HeaderMap::new() },
                ),
                no_proxy: Vec::new(),
            },
        }
    }

    /// Exempts `host` from the proxy.
    pub fn no_proxy(self, host: &str) -> (p: Proxy)
        ensures
            p.matcher.http == self.matcher.http,
            p.matcher.https == self.matcher.https,
            hosts_view(p.matcher.no_proxy@) == hosts_view(self.matcher.no_proxy@).push(host@),
    {
        let mut p = self;
        p.matcher.no_proxy.push(String::from_str(host));
        assert(hosts_view(p.matcher.no_proxy@) =~= hosts_view(self.matcher.no_proxy@).push(host@));
        p
    }

    /// The rule that the proxy stands for.
    pub fn into_matcher(self) -> (m: Matcher)
        ensures
            m == self.matcher,
    {
        self.matcher
    }
}

/// The first server that one of the rules names for `url`: the rule of the
/// request first, then those of the client in their order.
pub open spec fn selected(
    request: Option<Matcher>,
    proxies: Seq<Matcher>,
    url: crate::url::UrlView,
) -> Option<TargetView> {
    match request {
        Some(m) => if m.intercepted(url) is Some {
            m.intercepted(url)
        } else {
            first_match(proxies, url)
        },
        None => first_match(proxies, url),
    }
}

/// The server that the first matching rule of `proxies` names for `url`.
pub open spec fn first_match(proxies: Seq<Matcher>, url: crate::url::UrlView) -> Option<TargetView>
    decreases proxies.len(),
{
    if proxies.len() == 0 {
        None
    } else if proxies[0].intercepted(url) is Some {
        proxies[0].intercepted(url)
    } else {
        first_match(proxies.drop_first(), url)
    }
}

/// Picks the proxy for a request to `url`: first match wins.
pub fn select_proxy<'a>(
    request: Option<&'a Matcher>,
    proxies: &'a Vec<Matcher>,
    url: &Url,
) -> (r: Option<&'a Target>)
    ensures
        match r {
            Some(t) => selected(
                match request {
                    Some(m) => Some(*m),
                    None => None,
                },
                proxies@,
                url@,
            ) == Some(t@),
            None => selected(
                match request {
                    Some(m) => Some(*m),
                    None => None,
                },
                proxies@,
                url@,
            ) is None,
        },
{
    let ghost asked = match request {
        Some(m) => Some(*m),
        None => None,
    };
    if let Some(m) = request {
        if let Some(t) = m.intercept(url) {
            return Some(t);
        }
    }
    let mut i: usize = 0;
    assert(proxies@.skip(0) =~= proxies@);
    while i < proxies.len()
        invariant
            i <= proxies@.len(),
            asked == (match request {
                Some(m) => Some(*m),
                None => None,
            }),
            selected(asked, proxies@, url@) == first_match(proxies@.skip(i as int), url@),
        decreases proxies@.len() - i,
    {
        assert(proxies@.skip(i as int)[0] == proxies@[i as int]);
        assert(proxies@.skip(i as int).drop_first() =~= proxies@.skip(i + 1));
        if let Some(t) = proxies[i].intercept(url) {
            return Some(t);
        }
        i += 1;
    }
    None
}

} // verus!
