//! Absolute URLs, taken apart: what the client reads of a URL and what it
//! rewrites before a request leaves.

use vstd::prelude::*;
use vstd::string::StringExecFns;

verus! {

/// An absolute URL in its parts, each as the URL spells it.
#[derive(Debug)]
pub struct Url {
    pub scheme: String,
    /// Whether two slashes follow the scheme, and with them an authority:
    /// user name, password, host and port, any of which may be empty.
    pub slashes: bool,
    pub username: String,
    pub password: Option<String>,
    pub host: Option<String>,
    pub port: Option<u16>,
    pub path: String,
    pub query: Option<String>,
    pub fragment: Option<String>,
}

/// The parts of a URL as the mathematics sees them.
pub struct UrlView {
    pub scheme: Seq<char>,
    pub slashes: bool,
    pub username: Seq<char>,
    pub password: Option<Seq<char>>,
    pub host: Option<Seq<char>>,
    pub port: Option<u16>,
    pub path: Seq<char>,
    pub query: Option<Seq<char>>,
    pub fragment: Option<Seq<char>>,
}

/// The view of an optional string.
pub open spec fn opt_view(s: Option<String>) -> Option<Seq<char>> {
    match s {
        Some(s) => Some(s@),
        None => None,
    }
}

impl View for Url {
    type V = UrlView;

    open spec fn view(&self) -> UrlView {
        UrlView {
            scheme: self.scheme@,
            slashes: self.slashes,
            username: self.username@,
            password: opt_view(self.password),
            host: opt_view(self.host),
            port: self.port,
            path: self.path@,
            query: opt_view(self.query),
            fragment: opt_view(self.fragment),
        }
    }
}

/// What the URL parser makes of a text: the URL that it spells, or nothing
/// where it spells none.
pub uninterp spec fn parsed_url(input: Seq<char>) -> Option<UrlView>;

/// What the URL parser makes of a reference read against a base: nothing
/// where either is no URL.
pub uninterp spec fn joined_url(base: Seq<char>, reference: Seq<char>) -> Option<UrlView>;

/// What percent-decoding makes of a text: the text that the decoded bytes
/// spell in UTF-8, or nothing where they spell none.
pub uninterp spec fn percent_decoded(input: Seq<char>) -> Option<Seq<char>>;

/// `percent_encoding::percent_decode` and `PercentDecode::decode_utf8`: the
/// decoded text, `None` where the decoded bytes are not UTF-8.
#[verifier::external_body]
pub(crate) fn percent_decode_utf8(input: &str) -> (r: Option<String>)
    ensures
        opt_view(r) == percent_decoded(input@),
{
    percent_encoding::percent_decode(input.as_bytes()).decode_utf8().ok().map(String::from)
}

fn clone_opt(s: &Option<String>) -> (r: Option<String>)
    ensures
        opt_view(r) == opt_view(*s),
{
    match s {
        Some(s) => Some(s.clone()),
        None => None,
    }
}

impl Clone for Url {
    fn clone(&self) -> (r: Url)
        ensures
            r@ == self@,
    {
        Url {
            scheme: self.scheme.clone(),
            slashes: self.slashes,
            username: self.username.clone(),
            password: clone_opt(&self.password),
            host: clone_opt(&self.host),
            port: self.port,
            path: self.path.clone(),
            query: clone_opt(&self.query),
            fragment: clone_opt(&self.fragment),
        }
    }
}

/// The port on which a scheme is served where the URL names none.
pub open spec fn default_port(scheme: Seq<char>) -> Option<u16> {
    if scheme == "http"@ || scheme == "ws"@ {
        Some(80u16)
    } else if scheme == "https"@ || scheme == "wss"@ {
        Some(443u16)
    } else {
        None
    }
}

impl UrlView {
    /// The URL without a user name and a password.
    pub open spec fn without_userinfo(self) -> UrlView {
        UrlView { username: Seq::empty(), password: None, ..self }
    }

    /// The URL without a fragment.
    pub open spec fn without_fragment(self) -> UrlView {
        UrlView { fragment: None, ..self }
    }

    /// The port that a connection to the URL goes to.
    pub open spec fn port_or_known_default(self) -> Option<u16> {
        match self.port {
            Some(p) => Some(p),
            None => default_port(self.scheme),
        }
    }

    /// The user name and the password as the URL spells them, with the sign
    /// that parts them from the host; nothing where the URL has neither.
    pub open spec fn userinfo_text(self) -> Seq<char> {
        if self.username.len() > 0 || self.password is Some {
            self.username + (match self.password {
                Some(p) => ":"@ + p,
                None => Seq::empty(),
            }) + "@"@
        } else {
            Seq::empty()
        }
    }

    /// The authority as the URL spells it, the two slashes before it
    /// included; nothing where the URL has none. An authority without a
    /// host is the two slashes alone.
    pub open spec fn authority_text(self) -> Seq<char> {
        if self.slashes {
            match self.host {
                Some(host) => "//"@ + self.userinfo_text() + host + (match self.port {
                    Some(p) => ":"@ + port_text(p as nat),
                    None => Seq::empty(),
                }),
                None => "//"@,
            }
        } else {
            Seq::empty()
        }
    }

    /// What the URL spells behind the authority: path, query and fragment.
    pub open spec fn resource_text(self) -> Seq<char> {
        self.path + (match self.query {
            Some(q) => "?"@ + q,
            None => Seq::empty(),
        }) + (match self.fragment {
            Some(f) => "#"@ + f,
            None => Seq::empty(),
        })
    }

    /// The text of the URL.
    pub open spec fn text(self) -> Seq<char> {
        self.scheme + ":"@ + self.authority_text() + self.resource_text()
    }
}

/// One decimal digit as text.
pub open spec fn digit_text(d: nat) -> Seq<char> {
    if d == 0 {
        "0"@
    } else if d == 1 {
        "1"@
    } else if d == 2 {
        "2"@
    } else if d == 3 {
        "3"@
    } else if d == 4 {
        "4"@
    } else if d == 5 {
        "5"@
    } else if d == 6 {
        "6"@
    } else if d == 7 {
        "7"@
    } else if d == 8 {
        "8"@
    } else {
        "9"@
    }
}

/// The decimal digits of a port number, as text.
pub open spec fn port_text(port: nat) -> Seq<char>
    decreases port,
{
    if port < 10 {
        digit_text(port)
    } else {
        port_text(port / 10) + digit_text(port % 10)
    }
}

fn digit_str(d: u16) -> (r: &'static str)
    requires
        d < 10,
    ensures
        r@ == digit_text(d as nat),
{
    if d == 0 {
        "0"
    } else if d == 1 {
        "1"
    } else if d == 2 {
        "2"
    } else if d == 3 {
        "3"
    } else if d == 4 {
        "4"
    } else if d == 5 {
        "5"
    } else if d == 6 {
        "6"
    } else if d == 7 {
        "7"
    } else if d == 8 {
        "8"
    } else {
        "9"
    }
}

/// The port in decimal digits.
pub fn port_string(port: u16) -> (r: String)
    ensures
        r@ == port_text(port as nat),
{
    port_to_string(port)
}

fn port_to_string(port: u16) -> (r: String)
    ensures
        r@ == port_text(port as nat),
    decreases port,
{
    if port < 10 {
        String::from_str(digit_str(port))
    } else {
        let mut out = port_to_string(port / 10);
        out.append(digit_str(port % 10));
        out
    }
}

/// `url::Url::parse`: the URL that `input` spells, in its parts, or `None`
/// where the parser refuses the text.
#[verifier::external_body]
fn parse_url(input: &str) -> (r: Option<Url>)
    ensures
        match r {
            Some(u) => parsed_url(input@) == Some(u@),
            None => parsed_url(input@) is None,
        },
{
    let u = url::Url::parse(input).ok()?;
    let own = |s: &str| s.to_string();
    Some(Url {
        scheme: own(u.scheme()), slashes: u.has_authority(), username: own(u.username()),
        password: u.password().map(own),
        host: u.host_str().map(own), port: u.port(), path: own(u.path()),
        query: u.query().map(own), fragment: u.fragment().map(own),
    })
}

/// `url::Url::join` on the URL that `base` spells: the URL that `reference`
/// stands for when read against it, or `None` where the parser refuses
/// either text.
#[verifier::external_body]
fn join_url(base: &str, reference: &str) -> (r: Option<Url>)
    ensures
        match r {
            Some(u) => joined_url(base@, reference@) == Some(u@),
            None => joined_url(base@, reference@) is None,
        },
{
    let u = url::Url::parse(base).ok()?.join(reference).ok()?;
    let own = |s: &str| s.to_string();
    Some(Url {
        scheme: own(u.scheme()), slashes: u.has_authority(), username: own(u.username()),
        password: u.password().map(own),
        host: u.host_str().map(own), port: u.port(), path: own(u.path()),
        query: u.query().map(own), fragment: u.fragment().map(own),
    })
}

impl Url {
    /// Reads a URL: the parts of the URL that `input` spells, or nothing
    /// where it spells none.
    pub fn parse(input: &str) -> (r: Option<Url>)
        ensures
            match r {
                Some(u) => parsed_url(input@) == Some(u@),
                None => parsed_url(input@) is None,
            },
    {
        parse_url(input)
    }

    /// Reads a reference against the URL that `base` spells: nothing where
    /// either is no URL.
    pub fn join(base: &str, reference: &str) -> (r: Option<Url>)
        ensures
            match r {
                Some(u) => joined_url(base@, reference@) == Some(u@),
                None => joined_url(base@, reference@) is None,
            },
    {
        join_url(base, reference)
    }

    pub fn scheme(&self) -> (r: &String)
        ensures
            r@ == self@.scheme,
    {
        &self.scheme
    }

    /// Whether the scheme of the URL is `scheme`.
    pub fn scheme_is(&self, scheme: &str) -> (b: bool)
        ensures
            b == (self@.scheme == scheme@),
    {
        self.scheme == String::from_str(scheme)
    }

    /// Whether the URL has an authority, and with it a place for a user
    /// name, a password, a host and a port.
    pub fn has_authority(&self) -> (b: bool)
        ensures
            b == self@.slashes,
    {
        self.slashes
    }

    /// Whether the URL names a host.
    pub fn has_host(&self) -> (b: bool)
        ensures
            b == (self@.host is Some),
    {
        proof {
            assert(self@.host == opt_view(self.host));
        }
        self.host.is_some()
    }

    pub fn username(&self) -> (r: &String)
        ensures
            r@ == self@.username,
    {
        &self.username
    }

    pub fn password(&self) -> (r: Option<&String>)
        ensures
            r is Some == self@.password is Some,
            r is Some ==> r->Some_0@ == self@.password->Some_0,
    {
        self.password.as_ref()
    }

    pub fn host_str(&self) -> (r: Option<&String>)
        ensures
            r is Some == self@.host is Some,
            r is Some ==> r->Some_0@ == self@.host->Some_0,
    {
        self.host.as_ref()
    }

    pub fn port(&self) -> (r: Option<u16>)
        ensures
            r == self@.port,
    {
        self.port
    }

    pub fn port_or_known_default(&self) -> (r: Option<u16>)
        ensures
            r == self@.port_or_known_default(),
    {
        match self.port {
            Some(p) => Some(p),
            None => {
                if self.scheme_is("http") || self.scheme_is("ws") {
                    Some(80)
                } else if self.scheme_is("https") || self.scheme_is("wss") {
                    Some(443)
                } else {
                    None
                }
            },
        }
    }

    pub fn fragment(&self) -> (r: Option<&String>)
        ensures
            r is Some == self@.fragment is Some,
            r is Some ==> r->Some_0@ == self@.fragment->Some_0,
    {
        self.fragment.as_ref()
    }

    pub fn set_fragment(&mut self, fragment: Option<String>)
        ensures
            final(self)@ == (UrlView { fragment: opt_view(fragment), ..old(self)@ }),
    {
        self.fragment = fragment;
    }

    /// Takes the user name and the password out of the URL.
    pub fn clear_userinfo(&mut self)
        ensures
            final(self)@ == old(self)@.without_userinfo(),
    {
        self.username = String::new();
        self.password = None;
    }

    fn userinfo_string(&self) -> (r: String)
        ensures
            r@ == self@.userinfo_text(),
    {
        let mut out = String::new();
        if self.username.as_str().unicode_len() > 0 || self.password.is_some() {
            out.append(self.username.as_str());
            if let Some(p) = &self.password {
                out.append(":");
                out.append(p.as_str());
            }
            out.append("@");
        }
        assert(out@ =~= self@.userinfo_text());
        out
    }

    fn authority_string(&self) -> (r: String)
        ensures
            r@ == self@.authority_text(),
    {
        let mut out = String::new();
        if self.slashes {
            out.append("//");
            if let Some(host) = &self.host {
                out.append(self.userinfo_string().as_str());
                out.append(host.as_str());
                if let Some(p) = self.port {
                    out.append(":");
                    out.append(port_to_string(p).as_str());
                }
            }
        }
        assert(out@ =~= self@.authority_text());
        out
    }

    fn resource_string(&self) -> (r: String)
        ensures
            r@ == self@.resource_text(),
    {
        let mut out = self.path.clone();
        if let Some(q) = &self.query {
            out.append("?");
            out.append(q.as_str());
        }
        if let Some(f) = &self.fragment {
            out.append("#");
            out.append(f.as_str());
        }
        assert(out@ =~= self@.resource_text());
        out
    }

    /// The text of the URL.
    pub fn as_string(&self) -> (r: String)
        ensures
            r@ == self@.text(),
    {
        let mut out = self.scheme.clone();
        out.append(":");
        out.append(self.authority_string().as_str());
        out.append(self.resource_string().as_str());
        out
    }
}

} // verus!
