//! The timers of a request: on the whole exchange, and on each read of the
//! response body.

use vstd::prelude::*;
use crate::error::Kind;
use crate::time::{Duration, Instant};

verus! {

/// The timeout that holds for a request: its own where it has one, else
/// that of the client. The two are never combined.
pub open spec fn effective(request: Option<Duration>, client: Option<Duration>) -> Option<Duration> {
    match request {
        Some(d) => Some(d),
        None => client,
    }
}

pub fn effective_timeout(request: Option<Duration>, client: Option<Duration>) -> (r: Option<
    Duration,
>)
    ensures
        r == effective(request, client),
{
    match request {
        Some(d) => Some(d),
        None => client,
    }
}

/// Which timer ran out.
#[derive(Clone, Copy, Debug, PartialEq, Eq, Structural)]
pub enum Expired {
    /// The timer on the whole exchange.
    Total,
    /// The timer on one read of the body.
    Read,
}

/// The timers that run while the body of a response is read.
#[derive(Clone, Copy, Debug, PartialEq, Eq, Structural)]
pub struct BodyTimers {
    /// When the whole exchange must be over.
    pub deadline: Option<Instant>,
    /// How long one read may take.
    pub read_timeout: Option<Duration>,
    /// When the last read ended.
    pub last_read: Instant,
}

impl BodyTimers {
    /// The timers of an exchange that began at `started` and whose body is
    /// read from `now` on.
    pub fn start(
        started: Instant,
        now: Instant,
        total: Option<Duration>,
        read: Option<Duration>,
    ) -> (t: BodyTimers)
        ensures
            t.deadline == (match total {
                Some(d) => Some(started.after(d)),
                None => None,
            }),
            t.read_timeout == read,
            t.last_read == now,
    {
        BodyTimers {
            deadline: match total {
                Some(d) => Some(started.saturating_add(d)),
                None => None,
            },
            read_timeout: read,
            last_read: now,
        }
    }

    /// A read has yielded bytes at `now`: the timer on reads starts anew.
    pub fn on_read(&mut self, now: Instant)
        ensures
            *final(self) == (BodyTimers { last_read: now, ..*old(self) }),
    {
        self.last_read = now;
    }

    /// The timer that has run out at `now`, if one has: the one on the
    /// whole exchange once its deadline is reached, else the one on reads
    /// once the time for a read has passed since the last one.
    pub open spec fn expired_at(&self, now: Instant) -> Option<Expired> {
        if self.deadline is Some && now.nanos >= self.deadline->Some_0.nanos {
            Some(Expired::Total)
        } else if self.read_timeout is Some && now.since(self.last_read).nanos
            >= self.read_timeout->Some_0.nanos {
            Some(Expired::Read)
        } else {
            None
        }
    }

    pub fn expired(&self, now: Instant) -> (r: Option<Expired>)
        ensures
            r == self.expired_at(now),
    {
        if let Some(deadline) = self.deadline {
            if now.as_nanos() >= deadline.as_nanos() {
                return Some(Expired::Total);
            }
        }
        if let Some(read) = self.read_timeout {
            if now.saturating_duration_since(self.last_read).as_nanos() >= read.as_nanos() {
                return Some(Expired::Read);
            }
        }
        None
    }

    /// When the timers must be looked at next, if ever.
    pub fn next_wake(&self) -> (r: Option<Instant>)
        ensures
            r == (match (self.deadline, self.read_timeout) {
                (Some(d), Some(rt)) => Some(
                    if self.last_read.after(rt).nanos < d.nanos {
                        self.last_read.after(rt)
                    } else {
                        d
                    },
                ),
                (Some(d), None) => Some(d),
                (None, Some(rt)) => Some(self.last_read.after(rt)),
                (None, None) => None,
            }),
    {
        match (self.deadline, self.read_timeout) {
            (Some(d), Some(rt)) => {
                let read_due = self.last_read.saturating_add(rt);
                if read_due.as_nanos() < d.as_nanos() {
                    Some(read_due)
                } else {
                    Some(d)
                }
            },
            (Some(d), None) => Some(d),
            (None, Some(rt)) => Some(self.last_read.saturating_add(rt)),
            (None, None) => None,
        }
    }
}

/// The error that a timer leaves when it runs out while the body is read:
/// the timer on the whole exchange fails the request, the timer on reads
/// fails the body.
pub fn body_timeout_error(expired: Expired) -> (e: crate::error::Error)
    ensures
        e.kind == (match expired {
            Expired::Total => Kind::Request,
            Expired::Read => Kind::Body,
        }),
        e.timeout,
        e.url is None,
{
    match expired {
        Expired::Total => crate::error::Error::timed_out(Kind::Request),
        Expired::Read => crate::error::Error::timed_out(Kind::Body),
    }
}

/// The error of the timer on the start of the response: an error of the
/// request.
pub fn request_timeout_error() -> (e: crate::error::Error)
    ensures
        e.kind == Kind::Request,
        e.timeout,
{
    crate::error::Error::timed_out(Kind::Request)
}

} // verus!
