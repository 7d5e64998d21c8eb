//! What a connector reports of the transport that it made.

use std::sync::atomic::AtomicBool;
use std::sync::atomic::Ordering;
use std::sync::Arc;
use vstd::prelude::*;
use crate::sync::share;

verus! {

/// Describes a type returned by a connector.
pub trait Connection {
    /// Return metadata describing the connection.
    fn connected(&self) -> Connected;
}

/// The protocol that the transport negotiated.
#[derive(Clone, Copy, Debug, PartialEq, Eq, Structural)]
pub enum Alpn {
    H2,
    Unset,
}

/// A flag that every holder of a connection shares. Once any of them has
/// set it, the connection is not used again.
#[derive(Debug)]
pub struct PoisonPill {
    poisoned: Arc<AtomicBool>,
}

impl Clone for PoisonPill {
    /// A second handle on the same flag.
    fn clone(&self) -> (r: PoisonPill)
        ensures
            r == *self,
    {
        PoisonPill { poisoned: share(&self.poisoned) }
    }
}

impl PoisonPill {
    /// A flag that is not set.
    pub fn healthy() -> PoisonPill {
        PoisonPill { poisoned: Arc::new(AtomicBool::new(false)) }
    }

    /// Sets the flag, for every holder.
    pub fn poison(&self) {
        self.poisoned.store(true, Ordering::Relaxed)
    }

    /// Whether the flag is set, at the moment of the call: another holder
    /// may set it at any time.
    pub fn poisoned(&self) -> bool {
        self.poisoned.load(Ordering::Relaxed)
    }
}

/// One piece of extra information about a connection: its kind, and the
/// number under which its owner keeps it.
#[derive(Clone, Copy, Debug, PartialEq, Eq, Structural)]
pub struct ExtraValue {
    pub kind: u64,
    pub token: u64,
}

/// The extra information of a connection, in the order in which it was
/// attached.
#[derive(Debug)]
pub struct Extra {
    pub chain: Vec<ExtraValue>,
}

/// The extensions of a response: at most one value of a kind.
#[derive(Debug)]
pub struct ResponseExtensions {
    pub values: Vec<ExtraValue>,
}

/// The place of the value of kind `kind`, or the number of values.
pub open spec fn kind_index(values: Seq<ExtraValue>, kind: u64) -> int
    decreases values.len(),
{
    if values.len() == 0 {
        0
    } else if values[0].kind == kind {
        0
    } else {
        1 + kind_index(values.drop_first(), kind)
    }
}

/// The extensions with `value` as the value of its kind.
pub open spec fn with_extra(values: Seq<ExtraValue>, value: ExtraValue) -> Seq<ExtraValue> {
    let at = kind_index(values, value.kind);
    if 0 <= at < values.len() {
        values.update(at, value)
    } else {
        values.push(value)
    }
}

/// The extensions once every value of `chain` was set, in its order: of
/// two values of a kind the later one stays.
pub open spec fn with_extras(values: Seq<ExtraValue>, chain: Seq<ExtraValue>) -> Seq<ExtraValue>
    decreases chain.len(),
{
    if chain.len() == 0 {
        values
    } else {
        with_extra(with_extras(values, chain.drop_last()), chain.last())
    }
}

impl ResponseExtensions {
    pub fn new() -> (r: ResponseExtensions)
        ensures
            r.values@.len() == 0,
    {
        ResponseExtensions { values: Vec::new() }
    }

    /// Sets the value of a kind.
    pub fn insert(&mut self, value: ExtraValue)
        ensures
            final(self).values@ == with_extra(old(self).values@, value),
    {
        let mut i: usize = 0;
        assert(self.values@.skip(0) =~= self.values@);
        while i < self.values.len()
            invariant
                i <= self.values@.len(),
                self.values@ == old(self).values@,
                kind_index(self.values@, value.kind) == i + kind_index(
                    self.values@.skip(i as int),
                    value.kind,
                ),
            decreases self.values@.len() - i,
        {
            assert(self.values@.skip(i as int)[0] == self.values@[i as int]);
            assert(self.values@.skip(i as int).drop_first() =~= self.values@.skip(i + 1));
            if self.values[i].kind == value.kind {
                self.values.set(i, value);
                return ;
            }
            i += 1;
        }
        self.values.push(value);
    }
}

impl Extra {
    /// Copies the values of the chain into the extensions of a response.
    pub fn set(&self, res: &mut ResponseExtensions)
        ensures
            final(res).values@ == with_extras(old(res).values@, self.chain@),
    {
        let mut i: usize = 0;
        assert(self.chain@.take(0) =~= Seq::<ExtraValue>::empty());
        while i < self.chain.len()
            invariant
                i <= self.chain@.len(),
                res.values@ == with_extras(old(res).values@, self.chain@.take(i as int)),
            decreases self.chain@.len() - i,
        {
            assert(self.chain@.take(i + 1).drop_last() =~= self.chain@.take(i as int));
            assert(self.chain@.take(i + 1).last() == self.chain@[i as int]);
            res.insert(self.chain[i]);
            i += 1;
        }
        assert(self.chain@.take(self.chain@.len() as int) =~= self.chain@);
    }
}

impl Clone for Extra {
    fn clone(&self) -> (r: Extra)
        ensures
            r.chain@ == self.chain@,
    {
        let mut chain: Vec<ExtraValue> = Vec::new();
        let mut i: usize = 0;
        while i < self.chain.len()
            invariant
                i <= self.chain@.len(),
                chain@ == self.chain@.take(i as int),
            decreases self.chain@.len() - i,
        {
            chain.push(self.chain[i]);
            assert(self.chain@.take(i + 1) =~= self.chain@.take(i as int).push(
                self.chain@[i as int],
            ));
            i += 1;
        }
        assert(self.chain@.take(self.chain@.len() as int) =~= self.chain@);
        Extra { chain }
    }
}

/// Extra information about the connected transport.
///
/// This can be used to inform recipients about things like if ALPN
/// was used, or if connected to an HTTP proxy.
#[derive(Debug)]
pub struct Connected {
    pub alpn: Alpn,
    pub is_proxied: bool,
    pub extra: Option<Extra>,
    pub poisoned: PoisonPill,
}

impl Connected {
    /// The extra values of the connection, in their order.
    pub open spec fn extras(&self) -> Seq<ExtraValue> {
        match self.extra {
            Some(e) => e.chain@,
            None => Seq::empty(),
        }
    }

    /// Create new `Connected` type with empty metadata.
    pub fn new() -> (c: Connected)
        ensures
            c.alpn == Alpn::Unset,
            !c.is_proxied,
            c.extra is None,
    {
        Connected {
            alpn: Alpn::Unset,
            is_proxied: false,
            extra: None,
            poisoned: PoisonPill::healthy(),
        }
    }

    /// Set whether the connected transport is to an HTTP proxy.
    ///
    /// This setting will affect if HTTP/1 requests written on the transport
    /// will have the request-target in absolute-form or origin-form.
    ///
    /// Default is `false`.
    pub fn proxy(self, is_proxied: bool) -> (c: Connected)
        ensures
            c == (Connected { is_proxied, ..self }),
    {
        let mut c = self;
        c.is_proxied = is_proxied;
        c
    }

    /// Determines if the connected transport is to an HTTP proxy.
    pub fn is_proxied(&self) -> (b: bool)
        ensures
            b == self.is_proxied,
    {
        self.is_proxied
    }

    /// Set extra connection information to be set in the extensions of every `Response`.
    pub fn extra(self, extra: ExtraValue) -> (c: Connected)
        ensures
            c.extra is Some,
            c.extras() == self.extras().push(extra),
            c.alpn == self.alpn,
            c.is_proxied == self.is_proxied,
            c.poisoned == self.poisoned,
    {
        let mut c = self;
        let mut chain = match c.extra.take() {
            Some(prev) => prev.chain,
            None => Vec::new(),
        };
        chain.push(extra);
        c.extra = Some(Extra { chain });
        c
    }

    /// Copies the extra connection information into an `Extensions` map.
    pub fn get_extras(&self, extensions: &mut ResponseExtensions)
        ensures
            final(extensions).values@ == with_extras(old(extensions).values@, self.extras()),
    {
        if let Some(extra) = &self.extra {
            extra.set(extensions);
        }
    }

    /// Set that the connected transport negotiated HTTP/2 as its next protocol.
    pub fn negotiated_h2(self) -> (c: Connected)
        ensures
            c == (Connected { alpn: Alpn::H2, ..self }),
    {
        let mut c = self;
        c.alpn = Alpn::H2;
        c
    }

    /// Determines if the connected transport negotiated HTTP/2 as its next protocol.
    pub fn is_negotiated_h2(&self) -> (b: bool)
        ensures
            b == (self.alpn == Alpn::H2),
    {
        self.alpn == Alpn::H2
    }

    /// Poison this connection
    ///
    /// A poisoned connection will not be reused for subsequent requests by the pool
    pub fn poison(&self) {
        self.poisoned.poison();
    }

    /// Whether the connection was poisoned by the time of the call.
    pub fn is_poisoned(&self) -> bool {
        self.poisoned.poisoned()
    }

    // Don't public expose that `Connected` is `Clone`, unsure if we want to
    // keep that contract...
    pub fn clone(&self) -> (c: Connected)
        ensures
            c.alpn == self.alpn,
            c.is_proxied == self.is_proxied,
            c.extras() == self.extras(),
            c.extra is Some == self.extra is Some,
            c.poisoned == self.poisoned,
    {
        Connected {
            alpn: self.alpn,
            is_proxied: self.is_proxied,
            extra: match &self.extra {
                Some(e) => Some(e.clone()),
                None => None,
            },
            poisoned: self.poisoned.clone(),
        }
    }
}

impl Default for Connected {
    fn default() -> (c: Connected)
        ensures
            c.alpn == Alpn::Unset,
            !c.is_proxied,
            c.extra is None,
    {
        Self::new()
    }
}

} // verus!
