//! The connection pool: idle connections per host in least-recently-used
//! order, parked checkouts served first come first served, and a single
//! dial in flight for each host that speaks HTTP/2.
//!
//! The pool is a state that its owner holds under a lock. Every entry point
//! takes the pool and, where time matters, the current clock reading. What
//! is meant for the executor or for a parked checkout is recorded in the
//! state, for the owner to act on.

pub mod assoc;
pub mod conn;
pub mod idle;
pub mod inner;
pub mod laws;
pub mod sweeper;

use vstd::prelude::*;
use crate::pool::assoc::has_key;
use crate::pool::conn::{Conn, Poolable, Reservation, Ver};
use crate::pool::inner::{parked, IdleTask, PoolInner, PoolView, Rest};
use crate::time::{Duration, Instant};

verus! {

/// How a pool is to be set up.
#[derive(Clone, Copy, Debug)]
pub struct Config {
    pub idle_timeout: Option<Duration>,
    pub max_idle_per_host: usize,
    /// The number of hosts that may have idle connections; `None` and zero
    /// both stand for no bound.
    pub max_pool_size: Option<u32>,
}

impl Config {
    pub open spec fn enabled(&self) -> bool {
        self.max_idle_per_host > 0
    }

    pub fn is_enabled(&self) -> (b: bool)
        ensures
            b == self.enabled(),
    {
        self.max_idle_per_host > 0
    }

    /// The bound on the number of hosts that the idle map is made with.
    pub open spec fn limit(&self) -> nat {
        match self.max_pool_size {
            Some(n) => if n > 0 {
                n as nat
            } else {
                u32::MAX as nat
            },
            None => u32::MAX as nat,
        }
    }
}

/// Why a checkout ended without a connection.
#[derive(Clone, Copy, Debug, PartialEq, Eq, Structural)]
#[non_exhaustive]
pub enum Error {
    PoolDisabled,
    CheckoutNoLongerWanted,
    CheckedOutClosedValue,
}

impl Error {
    pub fn is_canceled(&self) -> (b: bool)
        ensures
            b == (*self == Error::CheckedOutClosedValue),
    {
        matches!(self, Error::CheckedOutClosedValue)
    }

    /// The error in words.
    pub fn message(&self) -> (s: &'static str)
        ensures
            s@ == (match self {
                Error::PoolDisabled => "pool is disabled"@,
                Error::CheckedOutClosedValue => "checked out connection was closed"@,
                Error::CheckoutNoLongerWanted => "request was canceled"@,
            }),
    {
        match self {
            Error::PoolDisabled => "pool is disabled",
            Error::CheckedOutClosedValue => "checked out connection was closed",
            Error::CheckoutNoLongerWanted => "request was canceled",
        }
    }
}

/// Whether a step has come to its result or must be taken again later.
#[derive(Debug)]
pub enum Poll<T> {
    Ready(T),
    Pending,
}

/// A pool of connections; without a state where pooling is switched off.
pub struct Pool {
    // If the pool is disabled, this is None.
    inner: Option<PoolInner>,
}

impl View for Pool {
    type V = Option<PoolView>;

    closed spec fn view(&self) -> Option<PoolView> {
        match self.inner {
            Some(inner) => Some(inner@),
            None => None,
        }
    }
}

/// A connection on loan from the pool, to be given back with `release`.
#[derive(Debug)]
pub struct Pooled {
    pub value: Conn,
    pub is_reused: bool,
    pub key: String,
    /// Whether the connection goes back to the pool when the loan ends.
    pub pool: bool,
}

/// The token of a dial in flight.
#[derive(Debug)]
pub struct Connecting {
    pub key: String,
    /// Whether the pool has the dial on record.
    pub pool: bool,
}

/// A request for an idle connection of one host, which may have to wait.
#[derive(Debug)]
pub struct Checkout {
    pub key: String,
    /// The ticket under which the checkout is parked, once it is.
    pub waiter: Option<u64>,
}

/// The state of a pool after the token of a dial was given up.
pub open spec fn after_connecting(pre: Option<PoolView>, token: Connecting) -> Option<PoolView> {
    match pre {
        Some(view) => if token.pool {
            Some(view.connected(token.key@))
        } else {
            pre
        },
        None => None,
    }
}

/// Whether `post` is a state in which a pool in state `pre` may be after
/// `value` came back from a loan.
pub open spec fn after_loan(
    pre: Option<PoolView>,
    post: Option<PoolView>,
    loan: Pooled,
    now: Instant,
) -> bool {
    match pre {
        Some(view) => if loan.value.open() && loan.pool {
            post is Some && view.put(post->Some_0, loan.key@, loan.value, now)
        } else {
            post == pre
        },
        None => post is None,
    }
}

/// Whether `post` is a state in which a pool in state `pre` may be after a
/// finished dial handed it `value`, and `loan` the loan then made.
///
/// A connection that can be shared is kept by the pool, which ends the dial
/// on its record; the caller gets a copy that never comes back. Any other
/// connection goes to the caller alone and comes back when the loan ends;
/// the dial ends with its token.
pub open spec fn after_pooled(
    pre: Option<PoolView>,
    post: Option<PoolView>,
    token: Connecting,
    value: Conn,
    now: Instant,
    loan: Pooled,
) -> bool {
    &&& loan.key@ == token.key@
    &&& !loan.is_reused
    &&& loan.value == value
    &&& match pre {
        Some(view) => match value.reserved() {
            Reservation::Shared(to_insert, _) => {
                &&& !loan.pool
                &&& exists|mid: PoolView|
                    view.put(mid, token.key@, to_insert, now) && post == Some(
                        #[trigger] mid.connected(token.key@),
                    )
            },
            Reservation::Unique(_) => loan.pool && post == after_connecting(pre, token),
        },
        None => !loan.pool && post is None,
    }
}

impl Pool {
    /// Whether the pool's state is one that its steps keep to: a pool that
    /// is switched on has a well-formed image.
    pub open spec fn wf(&self) -> bool {
        match self@ {
            Some(view) => view.wf(),
            None => true,
        }
    }

    /// A pool set up by `config`; `timer` says whether it has a timer to
    /// sleep on, without which no sweeper runs.
    pub fn new(config: Config, timer: bool) -> (pool: Pool)
        ensures
            pool.wf(),
            pool@ == (if config.enabled() {
                Some(
                    PoolView {
                        connecting: Seq::empty(),
                        idle: Seq::empty(),
                        limit: config.limit(),
                        max_idle_per_host: config.max_idle_per_host as nat,
                        waiters: Seq::empty(),
                        delivered: Seq::empty(),
                        next_waiter: 0,
                        sweeping: false,
                        spawned: Seq::empty(),
                        timer,
                        timeout: config.idle_timeout,
                    },
                )
            } else {
                None
            }),
    {
        let inner = if config.is_enabled() {
            let limit = match config.max_pool_size {
                Some(n) => if n > 0 {
                    n
                } else {
                    u32::MAX
                },
                None => u32::MAX,
            };
            Some(PoolInner::new(config.max_idle_per_host, limit, config.idle_timeout, timer))
        } else {
            None
        };
        Pool { inner }
    }

    pub fn is_enabled(&self) -> (b: bool)
        ensures
            b == (self@ is Some),
    {
        self.inner.is_some()
    }

    /// Returns a `Checkout` which resolves once an idle connection of `key`
    /// can be had.
    pub fn checkout(&self, key: String) -> (checkout: Checkout)
        ensures
            checkout.key == key,
            checkout.waiter is None,
    {
        Checkout { key, waiter: None }
    }

    /// Ensure that there is only ever 1 connecting task for HTTP/2
    /// connections. This does nothing for HTTP/1.
    ///
    /// For HTTP/2 on a pool that is switched on, the token is refused while
    /// another dial for `key` is on record, and else the dial goes on record.
    pub fn connecting(&mut self, key: String, ver: Ver) -> (token: Option<Connecting>)
        requires
            old(self).wf(),
        ensures
            final(self).wf(),
            match old(self)@ {
                Some(view) => if ver == Ver::Http2 {
                    &&& final(self)@ == Some(view.start_connecting(key@).0)
                    &&& token is Some == view.start_connecting(key@).1
                    &&& token is Some ==> token->Some_0.pool
                } else {
                    final(self)@ == old(self)@ && token is Some && !token->Some_0.pool
                },
                None => final(self)@ is None && token is Some && !token->Some_0.pool,
            },
            token is Some ==> token->Some_0.key == key,
    {
        if ver == Ver::Http2 {
            match &mut self.inner {
                Some(inner) => {
                    return if inner.start_connecting(&key) {
                        Some(Connecting { key, pool: true })
                    } else {
                        None
                    };
                },
                None => {},
            }
        }
        // else

        Some(
            Connecting {
                key,
                // in HTTP/1's case, there is never a lock, so we don't
                // need to do anything when the token is given up.
                pool: false,
            },
        )
    }

    /// Finishes a dial: hands the pool the connection that the dial made and
    /// returns the loan of it to the caller.
    pub fn pooled(&mut self, connecting: Connecting, value: Conn, now: Instant) -> (loan: Pooled)
        requires
            old(self).wf(),
        ensures
            final(self).wf(),
            after_pooled(old(self)@, final(self)@, connecting, value, now, loan),
    {
        let mut connecting = connecting;
        let (value, pool_ref) = match &mut self.inner {
            Some(inner) => {
                match value.reserve() {
                    Reservation::Shared(to_insert, to_return) => {
                        inner.put(&connecting.key, to_insert, now);
                        // Do this here instead of when the token is given up: the
                        // state is at hand.
                        inner.connected(&connecting.key);
                        // prevent the end of the token from repeating inner.connected()
                        connecting.pool = false;
                        // Shared reservations don't need a reference to the pool,
                        // since the pool always keeps a copy.
                        (to_return, false)
                    },
                    Reservation::Unique(value) => {
                        // Unique reservations must take a reference to the pool
                        // since they hope to reinsert once the reservation is
                        // completed
                        (value, true)
                    },
                }
            },
            None => {
                // If pool is not enabled, skip all the things...
                (value, false)
            },
        };
        let key = connecting.key.clone();
        connecting.release(self);
        Pooled { key, is_reused: false, pool: pool_ref, value }
    }

    /// The loan of a connection that came out of the pool.
    ///
    /// A connection that can be shared stays in the pool whatever its user
    /// does, so only one that cannot takes a reference to the pool.
    pub fn reuse(&self, key: &String, value: Conn) -> (loan: Pooled)
        ensures
            loan.is_reused,
            loan.key@ == key@,
            loan.value == value,
            loan.pool == (!value.shareable() && self@ is Some),
    {
        let mut pool_ref = false;
        if !value.can_share() {
            if self.inner.is_some() {
                pool_ref = true;
            }
        }
        Pooled { is_reused: true, key: key.clone(), pool: pool_ref, value }
    }

    /// Takes over the tasks that the pool wants run: at most the sweeper,
    /// once.
    pub fn take_spawned(&mut self) -> (tasks: Vec<IdleTask>)
        requires
            old(self).wf(),
        ensures
            final(self).wf(),
            match old(self)@ {
                Some(view) => tasks@ == view.spawned && final(self)@ == Some(view.take_spawned()),
                None => tasks@.len() == 0 && final(self)@ is None,
            },
    {
        match &mut self.inner {
            Some(inner) => inner.take_spawned(),
            None => Vec::new(),
        }
    }

    /// Sweeps the pool at `now`, if it is switched on, and says whether it
    /// is.
    pub fn sweep(&mut self, now: Instant) -> (on: bool)
        requires
            old(self).wf(),
        ensures
            final(self).wf(),
            on == (old(self)@ is Some),
            final(self)@ == (match old(self)@ {
                Some(view) => Some(view.clear_expired(now)),
                None => None::<PoolView>,
            }),
    {
        match &mut self.inner {
            Some(inner) => {
                inner.clear_expired(now);
                true
            },
            None => false,
        }
    }

    /// The number of idle connections kept for `key`, if the host has a list.
    pub fn idle_len(&self, key: &String) -> (n: Option<usize>)
        ensures
            n is Some == (self@ is Some && has_key(self@->Some_0.idle, key@)),
            n is Some ==> n->Some_0 == crate::pool::assoc::value_of(
                self@->Some_0.idle,
                key@,
            ).len(),
    {
        match &self.inner {
            Some(inner) => inner.idle_len(key),
            None => None,
        }
    }

    /// The number of checkouts parked for `key`, if any are.
    pub fn waiters_len(&self, key: &String) -> (n: Option<usize>)
        requires
            self.wf(),
        ensures
            n is Some == (self@ is Some && has_key(self@->Some_0.waiters, key@)),
            n is Some ==> n->Some_0 == crate::pool::assoc::value_of(
                self@->Some_0.waiters,
                key@,
            ).len(),
    {
        match &self.inner {
            Some(inner) => inner.waiters_len(key),
            None => None,
        }
    }

    /// Whether a dial for `key` is on record.
    pub fn is_connecting(&self, key: &String) -> (b: bool)
        ensures
            b == (self@ is Some && has_key(self@->Some_0.connecting, key@)),
    {
        match &self.inner {
            Some(inner) => inner.is_connecting(key),
            None => false,
        }
    }

    /// The hosts that have idle connections, the one used last in front.
    pub fn idle_keys(&self) -> (keys: Vec<String>)
        ensures
            match self@ {
                Some(view) => keys@.len() == view.idle.len() && forall|i: int|
                    0 <= i < keys@.len() ==> (#[trigger] keys@[i])@ == view.idle[i].0,
                None => keys@.len() == 0,
            },
    {
        match &self.inner {
            Some(inner) => inner.idle_keys(),
            None => Vec::new(),
        }
    }
}

impl Pooled {
    pub fn is_reused(&self) -> (b: bool)
        ensures
            b == self.is_reused,
    {
        self.is_reused
    }

    pub fn is_pool_enabled(&self) -> (b: bool)
        ensures
            b == self.pool,
    {
        self.pool
    }

    pub fn as_ref(&self) -> (value: &Conn)
        ensures
            *value == self.value,
    {
        &self.value
    }

    pub fn as_mut(&mut self) -> (value: &mut Conn)
        ensures
            *value == old(self).value,
            *final(self) == (Pooled { value: *final(value), ..*old(self) }),
    {
        &mut self.value
    }

    /// Ends the loan. An open connection that belongs to the pool alone goes
    /// back to it, under the rules of `PoolInner::put`; anything else is
    /// dropped. Reports what `put` reports, and nothing of a connection
    /// that did not go back.
    pub fn release(self, pool: &mut Pool, now: Instant) -> (outcome: Option<Rest>)
        requires
            old(pool).wf(),
        ensures
            final(pool).wf(),
            after_loan(old(pool)@, final(pool)@, self, now),
            match old(pool)@ {
                Some(view) => if self.value.open() && self.pool {
                    final(pool)@ is Some && view.put_as(
                        final(pool)@->Some_0,
                        self.key@,
                        self.value,
                        now,
                        outcome,
                    )
                } else {
                    outcome is None
                },
                None => outcome is None,
            },
    {
        if !self.value.is_open() {
            // If we *already* know the connection is done here,
            // it shouldn't be re-inserted back into the pool.
            return None;
        }
        if self.pool {
            match &mut pool.inner {
                Some(inner) => {
                    return inner.put(&self.key, self.value, now);
                },
                None => {},
            }
        }
        None
        // Ver::Http2 is already in the Pool (or dead), so we wouldn't
        // have an actual reference to the Pool.

    }
}

impl Pooled {
    /// Ends the loan once the connection was looked at: `alive` says
    /// whether its transport can still carry a request, and the poison flag
    /// of `connected` is read. A connection that is dead or was found
    /// poisoned is not put back: the pool stays as it is. Any other goes back
    /// as an open connection does with `release`. Reports whether the flag
    /// was found set, and what `release` reports.
    pub fn release_observed(
        self,
        pool: &mut Pool,
        alive: bool,
        connected: &crate::connect::Connected,
        now: Instant,
    ) -> (r: (bool, Option<Rest>))
        requires
            old(pool).wf(),
        ensures
            final(pool).wf(),
            !alive || r.0 ==> final(pool)@ == old(pool)@ && r.1 is None,
            alive && !r.0 ==> after_loan(
                old(pool)@,
                final(pool)@,
                Pooled { value: Conn { open: true, ..self.value }, ..self },
                now,
            ),
    {
        let (seen, poisoned) = self.value.observed(alive, connected);
        let observed = Pooled { value: seen, is_reused: self.is_reused, key: self.key, pool: self.pool };
        let outcome = observed.release(pool, now);
        (poisoned, outcome)
    }
}

impl Connecting {
    /// Trades the token of a dial that turned out to speak HTTP/2 for one
    /// that the pool has on record, if no such dial is in flight.
    pub fn alpn_h2(self, pool: &mut Pool) -> (token: Option<Connecting>)
        requires
            old(pool).wf(),
        ensures
            final(pool).wf(),
            match old(pool)@ {
                Some(view) => {
                    let (mid, fresh) = view.start_connecting(self.key@);
                    &&& token is Some == fresh
                    &&& token is Some ==> token->Some_0.pool
                    &&& final(pool)@ == after_connecting(Some(mid), self)
                },
                None => final(pool)@ is None && token is Some && !token->Some_0.pool,
            },
            token is Some ==> token->Some_0.key@ == self.key@,
    {
        let token = pool.connecting(self.key.clone(), Ver::Http2);
        self.release(pool);
        token
    }

    /// Gives the token up. A dial that the pool has on record ends, and the
    /// checkouts parked for its host are let go: no connection will come.
    pub fn release(self, pool: &mut Pool)
        requires
            old(pool).wf(),
        ensures
            final(pool).wf(),
            final(pool)@ == after_connecting(old(pool)@, self),
    {
        if self.pool {
            match &mut pool.inner {
                Some(inner) => {
                    inner.connected(&self.key);
                },
                None => {},
            }
        }
    }
}

/// What a checkout finds when it looks at its ticket.
pub enum Waiting {
    /// The checkout holds no ticket.
    Idle,
    /// A connection was handed over.
    Handed(Conn),
    /// Nothing was handed over yet, and the checkout is still parked.
    Parked,
    /// Nothing was handed over, and the checkout is no longer parked.
    Dropped,
}

impl Checkout {
    /// What the checkout finds at its ticket in a pool in state `pre`.
    pub open spec fn waiting(self, pre: Option<PoolView>) -> Waiting {
        match self.waiter {
            None => Waiting::Idle,
            Some(id) => match pre {
                None => Waiting::Dropped,
                Some(view) => match view.collect(id).1 {
                    Some(value) => Waiting::Handed(value),
                    None => if parked(view.waiters, id) {
                        Waiting::Parked
                    } else {
                        Waiting::Dropped
                    },
                },
            },
        }
    }

    /// Looks at the ticket, if the checkout holds one.
    ///
    /// A connection that was handed over is collected: an open one makes the
    /// loan, a closed one the error `CheckedOutClosedValue`. A checkout that
    /// is still parked stays so. One that is no longer parked and got
    /// nothing fails with `CheckoutNoLongerWanted`.
    pub fn poll_waiter(&mut self, pool: &mut Pool) -> (r: Poll<Option<Result<Pooled, Error>>>)
        requires
            old(pool).wf(),
        ensures
            final(pool).wf(),
            final(self).key == old(self).key,
            match old(self).waiting(old(pool)@) {
                Waiting::Idle => r == Poll::Ready(None::<Result<Pooled, Error>>) && final(pool)@
                    == old(pool)@ && final(self).waiter is None,
                Waiting::Handed(value) => {
                    &&& final(pool)@ == Some(old(pool)@->Some_0.collect(old(self).waiter->Some_0).0)
                    &&& final(self).waiter is None
                    &&& r is Ready
                    &&& r->Ready_0 is Some
                    &&& if value.open() {
                        &&& r->Ready_0->Some_0 is Ok
                        &&& r->Ready_0->Some_0->Ok_0.is_reused
                        &&& r->Ready_0->Some_0->Ok_0.key@ == old(self).key@
                        &&& r->Ready_0->Some_0->Ok_0.value == value
                        &&& r->Ready_0->Some_0->Ok_0.pool == !value.shareable()
                    } else {
                        r->Ready_0->Some_0 == Err::<Pooled, Error>(Error::CheckedOutClosedValue)
                    }
                },
                Waiting::Parked => r is Pending && final(pool)@ == old(pool)@ && final(self).waiter
                    == old(self).waiter,
                Waiting::Dropped => r == Poll::Ready(
                    Some(Err::<Pooled, Error>(Error::CheckoutNoLongerWanted)),
                ) && final(pool)@ == old(pool)@ && final(self).waiter is None,
            },
    {
        match self.waiter.take() {
            Some(id) => {
                let handed = match &mut pool.inner {
                    Some(inner) => inner.collect(id),
                    None => None,
                };
                match handed {
                    Some(value) => {
                        if value.is_open() {
                            Poll::Ready(Some(Ok(pool.reuse(&self.key, value))))
                        } else {
                            Poll::Ready(Some(Err(Error::CheckedOutClosedValue)))
                        }
                    },
                    None => {
                        let still = match &pool.inner {
                            Some(inner) => inner.is_parked(id),
                            None => false,
                        };
                        if still {
                            self.waiter = Some(id);
                            Poll::Pending
                        } else {
                            Poll::Ready(Some(Err(Error::CheckoutNoLongerWanted)))
                        }
                    },
                }
            },
            None => Poll::Ready(None),
        }
    }

    /// The state of the pool and the ticket of the checkout after the
    /// checkout looked for an idle connection at `now`, and the entry found.
    ///
    /// Where none is found and the checkout holds no ticket, it is parked,
    /// as long as the pool has a ticket left.
    pub open spec fn checked_out(self, pre: PoolView, now: Instant) -> (
        PoolView,
        Option<u64>,
        Option<Conn>,
    ) {
        let (taken, found) = pre.take_idle(self.key@, now);
        match found {
            Some(entry) => (taken, self.waiter, Some(entry.value)),
            None => if self.waiter is None && taken.next_waiter < u64::MAX {
                (taken.park(self.key@).0, Some(taken.park(self.key@).1), None)
            } else {
                (taken, self.waiter, None)
            },
        }
    }

    /// Looks for an idle connection of the host at `now`, and parks the
    /// checkout where there is none.
    pub fn checkout(&mut self, pool: &mut Pool, now: Instant) -> (r: Option<Pooled>)
        requires
            old(pool).wf(),
        ensures
            final(pool).wf(),
            final(self).key == old(self).key,
            match old(pool)@ {
                None => r is None && final(pool)@ is None && final(self).waiter == old(self).waiter,
                Some(view) => {
                    let (post, waiter, found) = old(self).checked_out(view, now);
                    &&& final(pool)@ == Some(post)
                    &&& final(self).waiter == waiter
                    &&& r is Some == found is Some
                    &&& r is Some ==> {
                        &&& r->Some_0.is_reused
                        &&& r->Some_0.key@ == old(self).key@
                        &&& r->Some_0.value == found->Some_0
                        &&& r->Some_0.pool == !found->Some_0.shareable()
                    }
                },
            },
    {
        let entry = match &mut pool.inner {
            Some(inner) => {
                let entry = inner.take_idle(&self.key, now);
                if entry.is_none() && self.waiter.is_none() && inner.has_ticket() {
                    let id = inner.park(&self.key);
                    self.waiter = Some(id);
                }
                entry
            },
            None => {
                return None;
            },
        };
        match entry {
            Some(e) => Some(pool.reuse(&self.key, e.value)),
            None => None,
        }
    }

    /// One step of the checkout at `now`: first the ticket, then the idle
    /// list.
    ///
    /// `Ready` with a loan or an error ends the checkout. `Pending` means
    /// that the checkout is parked and must be polled again once the pool
    /// has changed. A pool that is switched off answers `PoolDisabled`; one
    /// that has no ticket left for parking answers `CheckoutNoLongerWanted`.
    pub fn poll(&mut self, pool: &mut Pool, now: Instant) -> (r: Poll<Result<Pooled, Error>>)
        requires
            old(pool).wf(),
        ensures
            final(pool).wf(),
            final(self).key == old(self).key,
            match old(self).waiting(old(pool)@) {
                Waiting::Handed(value) => {
                    &&& final(pool)@ == Some(old(pool)@->Some_0.collect(old(self).waiter->Some_0).0)
                    &&& r is Ready
                    &&& if value.open() {
                        &&& r->Ready_0 is Ok
                        &&& r->Ready_0->Ok_0.is_reused
                        &&& r->Ready_0->Ok_0.key@ == old(self).key@
                        &&& r->Ready_0->Ok_0.value == value
                        &&& r->Ready_0->Ok_0.pool == !value.shareable()
                    } else {
                        r->Ready_0 == Err::<Pooled, Error>(Error::CheckedOutClosedValue)
                    }
                },
                Waiting::Parked => r is Pending && final(pool)@ == old(pool)@ && final(self).waiter
                    == old(self).waiter,
                Waiting::Dropped => r == Poll::Ready(
                    Err::<Pooled, Error>(Error::CheckoutNoLongerWanted),
                ) && final(pool)@ == old(pool)@,
                Waiting::Idle => match old(pool)@ {
                    None => r == Poll::Ready(Err::<Pooled, Error>(Error::PoolDisabled))
                        && final(pool)@ is None,
                    Some(view) => {
                        let (post, waiter, found) = old(self).checked_out(view, now);
                        &&& final(pool)@ == Some(post)
                        &&& final(self).waiter == waiter
                        &&& match found {
                            Some(value) => {
                                &&& r is Ready
                                &&& r->Ready_0 is Ok
                                &&& r->Ready_0->Ok_0.is_reused
                                &&& r->Ready_0->Ok_0.key@ == old(self).key@
                                &&& r->Ready_0->Ok_0.value == value
                                &&& r->Ready_0->Ok_0.pool == !value.shareable()
                            },
                            None => if waiter is Some {
                                r is Pending
                            } else {
                                r == Poll::Ready(
                                    Err::<Pooled, Error>(Error::CheckoutNoLongerWanted),
                                )
                            },
                        }
                    },
                },
            },
    {
        match self.poll_waiter(pool) {
            Poll::Pending => {
                return Poll::Pending;
            },
            Poll::Ready(Some(Ok(pooled))) => {
                return Poll::Ready(Ok(pooled));
            },
            Poll::Ready(Some(Err(e))) => {
                return Poll::Ready(Err(e));
            },
            Poll::Ready(None) => {},
        }
        if let Some(pooled) = self.checkout(pool, now) {
            Poll::Ready(Ok(pooled))
        } else if !pool.is_enabled() {
            Poll::Ready(Err(Error::PoolDisabled))
        } else if self.waiter.is_some() {
            // There's a new waiter, already registered in self.checkout()
            Poll::Pending
        } else {
            Poll::Ready(Err(Error::CheckoutNoLongerWanted))
        }
    }

    /// The state of the pool after the checkout was given up.
    pub open spec fn released(self, pre: Option<PoolView>) -> Option<PoolView> {
        match (self.waiter, pre) {
            (Some(id), Some(view)) => Some(
                view.close_waiter(self.key@, id).clean_waiters(self.key@),
            ),
            _ => pre,
        }
    }

    /// Gives the checkout up. A parked checkout leaves the queue of its
    /// host, and what was handed to it and not collected is dropped.
    pub fn release(self, pool: &mut Pool)
        requires
            old(pool).wf(),
        ensures
            final(pool).wf(),
            final(pool)@ == self.released(old(pool)@),
    {
        if let Some(id) = self.waiter {
            match &mut pool.inner {
                Some(inner) => {
                    inner.close_waiter(&self.key, id);
                    inner.clean_waiters(&self.key);
                },
                None => {},
            }
        }
    }
}

} // verus!
