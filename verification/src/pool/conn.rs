//! What the pool holds: connection handles and how they may be reserved.

use vstd::prelude::*;

verus! {

/// A marker to identify what version a pooled connection is.
#[derive(Clone, Copy, Debug, PartialEq, Eq, Hash, Structural)]
pub enum Ver {
    Auto,
    Http2,
}

/// When checking out a pooled connection, it might be that the connection
/// only supports a single reservation, or it might be usable for many.
///
/// Specifically, HTTP/1 requires a unique reservation, but HTTP/2 can be
/// used for multiple requests.
pub enum Reservation<T> {
    /// This connection could be used multiple times, the first one will be
    /// reinserted into the `idle` pool, and the second will be given to
    /// the `Checkout`.
    Shared(T, T),
    /// This connection requires unique access. It will be returned after
    /// use is complete.
    Unique(T),
}

/// What the pool asks of a value it keeps.
pub trait Poolable: Sized {
    spec fn open(&self) -> bool;

    spec fn shareable(&self) -> bool;

    spec fn reserved(self) -> Reservation<Self>;

    /// Whether the connection can still carry a request.
    fn is_open(&self) -> (b: bool)
        ensures
            b == self.open(),
    ;

    /// Reserve this connection.
    ///
    /// Allows for HTTP/2 to return a shared reservation.
    fn reserve(self) -> (r: Reservation<Self>)
        ensures
            r == self.reserved(),
    ;

    /// Whether many callers may use the connection at once.
    fn can_share(&self) -> (b: bool)
        ensures
            b == self.shareable(),
    ;
}

/// A handle on one connection: the number by which its owner finds the
/// transport again, the protocol it speaks, and whether it was open when
/// last looked at.
#[derive(Clone, Copy, Debug, PartialEq, Eq, Structural)]
pub struct Conn {
    pub id: u64,
    pub ver: Ver,
    pub open: bool,
}

impl Conn {
    /// A handle on an open connection.
    pub fn new(id: u64, ver: Ver) -> (c: Conn)
        ensures
            c == (Conn { id, ver, open: true }),
    {
        Conn { id, ver, open: true }
    }

    /// The same handle, marked as closed.
    pub fn closed(self) -> (c: Conn)
        ensures
            c == (Conn { open: false, ..self }),
    {
        Conn { id: self.id, ver: self.ver, open: false }
    }

    /// The handle as it stands once its transport was looked at: open only
    /// if the transport is alive and the connection was not poisoned. Also
    /// says whether it found the connection poisoned.
    pub fn observed(self, alive: bool, connected: &crate::connect::Connected) -> (r: (Conn, bool))
        ensures
            r.0 == (Conn { open: alive && !r.1, ..self }),
    {
        let poisoned = connected.is_poisoned();
        (Conn { id: self.id, ver: self.ver, open: alive && !poisoned }, poisoned)
    }

    pub fn id(&self) -> (id: u64)
        ensures
            id == self.id,
    {
        self.id
    }

    pub fn ver(&self) -> (ver: Ver)
        ensures
            ver == self.ver,
    {
        self.ver
    }
}

impl Poolable for Conn {
    open spec fn open(&self) -> bool {
        self.open
    }

    open spec fn shareable(&self) -> bool {
        self.ver == Ver::Http2
    }

    open spec fn reserved(self) -> Reservation<Conn> {
        if self.ver == Ver::Http2 {
            Reservation::Shared(self, self)
        } else {
            Reservation::Unique(self)
        }
    }

    fn is_open(&self) -> (b: bool) {
        self.open
    }

    fn reserve(self) -> (r: Reservation<Conn>) {
        match self.ver {
            Ver::Http2 => Reservation::Shared(self, self),
            Ver::Auto => Reservation::Unique(self),
        }
    }

    fn can_share(&self) -> (b: bool) {
        match self.ver {
            Ver::Http2 => true,
            Ver::Auto => false,
        }
    }
}

} // verus!
