//! The race for a connection: a request takes an idle connection if the
//! pool has one for it, and else whichever comes first of a connection that
//! another request gives back and one that it dials itself.

use vstd::prelude::*;
use crate::error::{Error, Kind};
use crate::pool::conn::{Conn, Ver};
use crate::pool::{after_connecting, after_loan, after_pooled, Checkout, Connecting, Pool, Pooled};
use crate::retry::Failure;
use crate::time::Instant;

verus! {

/// How the race for a connection begins.
#[derive(Debug)]
pub enum Begin {
    /// An idle connection was at hand: no dial is made.
    Reused(Pooled),
    /// The request waits for a connection to come back; with a token it
    /// also dials, without one a dial for the host is in flight already and
    /// its connection will be shared.
    Race { checkout: Checkout, dial: Option<Connecting> },
    /// The pool lends nothing: the request dials.
    Dial(Connecting),
}

/// Begins the race for a connection of `key` at `now`.
///
/// The pool is asked first, so that a request that finds an idle connection
/// makes no dial.
pub fn begin(pool: &mut Pool, key: String, ver: Ver, now: Instant) -> (r: Begin)
    requires
        old(pool).wf(),
    ensures
        final(pool).wf(),
        match old(pool)@ {
            None => r is Dial && !r->Dial_0.pool && r->Dial_0.key == key && final(pool)@ is None,
            Some(view) => {
                let asked = Checkout { key, waiter: None };
                let (taken, waiter, found) = asked.checked_out(view, now);
                match found {
                    Some(value) => {
                        &&& r is Reused
                        &&& r->Reused_0.is_reused
                        &&& r->Reused_0.key@ == key@
                        &&& r->Reused_0.value == value
                        &&& final(pool)@ == Some(taken)
                    },
                    None => if waiter is Some {
                        &&& r is Race
                        &&& r->Race_checkout.key == key
                        &&& r->Race_checkout.waiter == waiter
                        &&& if ver == Ver::Http2 {
                            &&& final(pool)@ == Some(taken.start_connecting(key@).0)
                            &&& r->Race_dial is Some == taken.start_connecting(key@).1
                        } else {
                            final(pool)@ == Some(taken) && r->Race_dial is Some
                        }
                        &&& r->Race_dial is Some ==> r->Race_dial->Some_0.key == key
                            && r->Race_dial->Some_0.pool == (ver == Ver::Http2)
                    } else {
                        r is Dial && r->Dial_0.key == key && (ver == Ver::Http2 ==> final(pool)@
                            == Some(taken.start_connecting(key@).0))
                    },
                }
            },
        },
{
    let mut checkout = pool.checkout(key.clone());
    match checkout.checkout(pool, now) {
        Some(pooled) => Begin::Reused(pooled),
        None => {
            let dial = pool.connecting(key.clone(), ver);
            if checkout.waiter.is_some() {
                Begin::Race { checkout, dial }
            } else {
                match dial {
                    Some(token) => Begin::Dial(token),
                    // No ticket was left to wait with, and the dial for the
                    // host belongs to another request: dial without a record.
                    None => Begin::Dial(Connecting { key, pool: false }),
                }
            }
        },
    }
}

/// The dial has come first: the pool gets the connection, the request the
/// loan of it, and the checkout is given up.
pub fn dial_won(
    pool: &mut Pool,
    checkout: Checkout,
    dial: Connecting,
    value: Conn,
    now: Instant,
) -> (loan: Pooled)
    requires
        old(pool).wf(),
    ensures
        final(pool).wf(),
        exists|mid: Option<crate::pool::inner::PoolView>| #[trigger]
            after_pooled(old(pool)@, mid, dial, value, now, loan) && final(pool)@
                == checkout.released(mid),
{
    let loan = pool.pooled(dial, value, now);
    let ghost mid = pool@;
    checkout.release(pool);
    assert(after_pooled(old(pool)@, mid, dial, value, now, loan));
    loan
}

/// A connection has come back first: the request uses it, and gives up its
/// dial, if it made one.
pub fn checkout_won(pool: &mut Pool, dial: Option<Connecting>)
    requires
        old(pool).wf(),
    ensures
        final(pool).wf(),
        final(pool)@ == (match dial {
            Some(token) => after_connecting(old(pool)@, token),
            None => old(pool)@,
        }),
{
    if let Some(token) = dial {
        token.release(pool);
    }
}

/// A dial has ended after its request was served otherwise: the connection
/// goes to the pool, for others to use.
pub fn late_dial(pool: &mut Pool, dial: Connecting, value: Conn, now: Instant)
    requires
        old(pool).wf(),
    ensures
        final(pool).wf(),
        exists|mid: Option<crate::pool::inner::PoolView>, loan: Pooled| #[trigger]
            after_pooled(old(pool)@, mid, dial, value, now, loan) && after_loan(
                mid,
                final(pool)@,
                loan,
                now,
            ),
{
    let loan = pool.pooled(dial, value, now);
    let ghost mid = pool@;
    let ghost lent = loan;
    loan.release(pool, now);
    assert(after_pooled(old(pool)@, mid, dial, value, now, lent) && after_loan(
        mid,
        pool@,
        lent,
        now,
    ));
}

/// Where an exchange broke down.
#[derive(Clone, Copy, Debug, PartialEq, Eq, Structural)]
pub enum Breakdown {
    /// The connection was closed before the response began.
    ClosedBeforeResponse,
    /// Reading or writing failed after the response had begun.
    AfterResponseStarted,
}

/// The error that a breakdown of the transport is reported as, and what
/// the retry policy is told of it: a connection closed before the response
/// fails the request and may be retried; a failure after the response has
/// begun fails the body and is never retried.
pub fn map_transport_error(breakdown: Breakdown, body_cloneable: bool) -> (r: (Error, Failure))
    ensures
        r.0.kind == (match breakdown {
            Breakdown::ClosedBeforeResponse => Kind::Request,
            Breakdown::AfterResponseStarted => Kind::Body,
        }),
        !r.0.timeout,
        r.1 == (Failure {
            canceled_before_headers: breakdown == Breakdown::ClosedBeforeResponse,
            body_cloneable,
        }),
{
    match breakdown {
        Breakdown::ClosedBeforeResponse => (
            Error::request("connection closed before message completed"),
            Failure { canceled_before_headers: true, body_cloneable },
        ),
        Breakdown::AfterResponseStarted => (
            Error::body("error reading a body from connection"),
            Failure { canceled_before_headers: false, body_cloneable },
        ),
    }
}

} // verus!
