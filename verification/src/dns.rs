//! Name resolution: names, addresses, and the fixed answers that a client
//! may be given for some names.

use vstd::prelude::*;

verus! {

/// An IP address.
#[derive(Clone, Copy, Debug, PartialEq, Eq, Structural)]
pub enum IpAddr {
    V4(u8, u8, u8, u8),
    V6(u16, u16, u16, u16, u16, u16, u16, u16),
}

/// An IPv4 address.
#[derive(Clone, Copy, Debug, PartialEq, Eq, Structural)]
pub struct Ipv4Addr(pub u8, pub u8, pub u8, pub u8);

/// An IPv6 address.
#[derive(Clone, Copy, Debug, PartialEq, Eq, Structural)]
pub struct Ipv6Addr(pub u16, pub u16, pub u16, pub u16, pub u16, pub u16, pub u16, pub u16);

/// An address to dial: an IP address and a port.
#[derive(Clone, Copy, Debug, PartialEq, Eq, Structural)]
pub struct SocketAddr {
    pub ip: IpAddr,
    pub port: u16,
}

impl SocketAddr {
    pub fn new(ip: IpAddr, port: u16) -> (a: SocketAddr)
        ensures
            a == (SocketAddr { ip, port }),
    {
        SocketAddr { ip, port }
    }

    pub fn ip(&self) -> (ip: IpAddr)
        ensures
            ip == self.ip,
    {
        self.ip
    }

    pub fn port(&self) -> (port: u16)
        ensures
            port == self.port,
    {
        self.port
    }

    pub fn set_port(&mut self, port: u16)
        ensures
            *final(self) == (SocketAddr { ip: old(self).ip, port }),
    {
        self.port = port;
    }
}

/// A name that cannot be resolved because it is no host name.
#[derive(Clone, Copy, Debug, PartialEq, Eq, Structural)]
pub struct InvalidNameError;

impl InvalidNameError {
    /// The error in words.
    pub fn message(&self) -> (s: &'static str)
        ensures
            s@ == "invalid DNS name"@,
    {
        "invalid DNS name"
    }
}

/// A name that must be resolved to addresses.
#[derive(Debug)]
pub struct Name {
    host: String,
}

impl View for Name {
    type V = Seq<char>;

    closed spec fn view(&self) -> Seq<char> {
        self.host@
    }
}

impl Name {
    /// The name that `host` spells. Every text is taken as a name: whether
    /// it can be resolved is for the resolver to say.
    pub fn from_str(host: &str) -> (r: Result<Name, InvalidNameError>)
        ensures
            r is Ok,
            r->Ok_0@ == host@,
    {
        Ok(Name { host: host.to_owned() })
    }

    /// View the name as a string.
    pub fn as_str(&self) -> (s: &str)
        ensures
            s@ == self@,
    {
        self.host.as_str()
    }
}

/// The fixed answer for one name.
#[derive(Debug)]
pub struct Override {
    pub domain: String,
    pub addrs: Vec<SocketAddr>,
}

impl View for Override {
    type V = (Seq<char>, Seq<SocketAddr>);

    open spec fn view(&self) -> (Seq<char>, Seq<SocketAddr>) {
        (self.domain@, self.addrs@)
    }
}

/// The fixed answers as the mathematics sees them.
pub open spec fn overrides_view(overrides: Seq<Override>) -> Seq<(Seq<char>, Seq<SocketAddr>)> {
    Seq::new(overrides.len(), |i: int| overrides[i]@)
}

/// The place of the answer for `name`, or the number of answers.
pub open spec fn override_index(overrides: Seq<(Seq<char>, Seq<SocketAddr>)>, name: Seq<char>) -> int
    decreases overrides.len(),
{
    if overrides.len() == 0 {
        0
    } else if overrides[0].0 == name {
        0
    } else {
        1 + override_index(overrides.drop_first(), name)
    }
}

/// The answers with `addrs` as the answer for `domain`: in the place of the
/// answer that the name had, or behind all others.
pub open spec fn with_override(
    overrides: Seq<(Seq<char>, Seq<SocketAddr>)>,
    domain: Seq<char>,
    addrs: Seq<SocketAddr>,
) -> Seq<(Seq<char>, Seq<SocketAddr>)> {
    let at = override_index(overrides, domain);
    if 0 <= at < overrides.len() {
        overrides.update(at, (domain, addrs))
    } else {
        overrides.push((domain, addrs))
    }
}

/// The addresses with every port replaced by `port`.
pub open spec fn with_port(addrs: Seq<SocketAddr>, port: u16) -> Seq<SocketAddr> {
    Seq::new(addrs.len(), |i: int| SocketAddr { ip: addrs[i].ip, port })
}

fn find_override(overrides: &Vec<Override>, name: &str) -> (at: usize)
    ensures
        at == override_index(overrides_view(overrides@), name@),
        at <= overrides@.len(),
        at < overrides@.len() ==> overrides@[at as int].domain@ == name@,
{
    let ghost view = overrides_view(overrides@);
    let wanted = name.to_owned();
    let mut i: usize = 0;
    assert(view.skip(0) =~= view);
    while i < overrides.len()
        invariant
            i <= overrides@.len(),
            view == overrides_view(overrides@),
            wanted@ == name@,
            override_index(view, name@) == i + override_index(view.skip(i as int), name@),
        decreases overrides@.len() - i,
    {
        assert(view.skip(i as int)[0] == view[i as int]);
        assert(view.skip(i as int).drop_first() =~= view.skip(i + 1));
        if overrides[i].domain == wanted {
            return i;
        }
        i += 1;
    }
    i
}

/// Makes `addrs` the fixed answer for `domain`.
pub fn set_override(overrides: &mut Vec<Override>, domain: &str, addrs: Vec<SocketAddr>)
    ensures
        overrides_view(final(overrides)@) == with_override(
            overrides_view(old(overrides)@),
            domain@,
            addrs@,
        ),
{
    let at = find_override(overrides, domain);
    let entry = Override { domain: domain.to_owned(), addrs };
    if at < overrides.len() {
        let mut tail = overrides.split_off(at);
        let mut rest = tail.split_off(1);
        overrides.push(entry);
        overrides.append(&mut rest);
        assert(overrides_view(overrides@) =~= overrides_view(old(overrides)@).update(
            at as int,
            (domain@, addrs@),
        ));
    } else {
        overrides.push(entry);
        assert(overrides_view(overrides@) =~= overrides_view(old(overrides)@).push(
            (domain@, addrs@),
        ));
    }
}

/// What a resolver with fixed answers does about a name.
#[derive(Debug, PartialEq, Eq)]
pub enum Resolution {
    /// The name has a fixed answer: these addresses.
    Fixed(Vec<SocketAddr>),
    /// The name goes to the resolver behind.
    Delegate,
}

/// A resolver that answers some names itself and hands all others on.
///
/// The fixed answers are a list with one answer for a name, for the reason
/// given at `PoolInner`.
#[derive(Debug)]
pub struct DnsResolverWithOverrides {
    pub overrides: Vec<Override>,
}

impl DnsResolverWithOverrides {
    pub fn new(overrides: Vec<Override>) -> (r: DnsResolverWithOverrides)
        ensures
            r.overrides == overrides,
    {
        DnsResolverWithOverrides { overrides }
    }

    /// Answers `name`: with the fixed addresses where it has some, and else
    /// by sending the name on.
    pub fn resolve(&self, name: &Name) -> (r: Resolution)
        ensures
            ({
                let view = overrides_view(self.overrides@);
                let at = override_index(view, name@);
                match r {
                    Resolution::Fixed(addrs) => at < view.len() && addrs@ == view[at].1,
                    Resolution::Delegate => at >= view.len(),
                }
            }),
    {
        let at = find_override(&self.overrides, name.as_str());
        if at < self.overrides.len() {
            let dest = &self.overrides[at].addrs;
            let mut addrs: Vec<SocketAddr> = Vec::new();
            let mut i: usize = 0;
            while i < dest.len()
                invariant
                    i <= dest@.len(),
                    addrs@ == dest@.take(i as int),
                decreases dest@.len() - i,
            {
                addrs.push(dest[i]);
                assert(dest@.take(i + 1) =~= dest@.take(i as int).push(dest@[i as int]));
                i += 1;
            }
            assert(dest@.take(dest@.len() as int) =~= dest@);
            Resolution::Fixed(addrs)
        } else {
            Resolution::Delegate
        }
    }
}

/// The addresses to dial for a URL: those that the resolver gave, each with
/// the port of the URL in place of its own.
pub fn apply_port(addrs: &mut Vec<SocketAddr>, port: u16)
    ensures
        final(addrs)@ == with_port(old(addrs)@, port),
{
    let mut out: Vec<SocketAddr> = Vec::new();
    let mut i: usize = 0;
    while i < addrs.len()
        invariant
            i <= addrs@.len(),
            addrs@ == old(addrs)@,
            out@.len() == i,
            forall|j: int| 0 <= j < i ==> out@[j] == (SocketAddr { ip: addrs@[j].ip, port }),
        decreases addrs@.len() - i,
    {
        out.push(SocketAddr { ip: addrs[i].ip, port });
        i += 1;
    }
    assert(out@ =~= with_port(addrs@, port));
    *addrs = out;
}

} // verus!
