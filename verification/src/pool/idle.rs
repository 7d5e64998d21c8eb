//! Idle connections: the entries, the least-recently-used map that holds
//! them per host, and the rule by which one is taken out again.

use vstd::prelude::*;
use crate::pool::assoc::{has_key, index_of};
use crate::pool::conn::{Conn, Poolable, Reservation};
use crate::time::{Duration, Instant};

verus! {

/// A connection at rest, with the time at which it came to rest.
#[derive(Clone, Copy, Debug, PartialEq, Eq, Structural)]
pub struct Idle {
    pub idle_at: Instant,
    pub value: Conn,
}

/// The idle lists of all hosts, the host used last in front.
///
/// The map is `schnellru::LruMap`, bounded by the number of hosts it may
/// hold. Verus does not look inside: what it holds is `idle_entries`, its
/// bound is `idle_limit`, and the methods below say what each call of the
/// map does to them.
#[verifier::external_body]
pub struct IdleMap {
    map: schnellru::LruMap<String, Vec<Idle>, schnellru::ByLength, schnellru::RandomState>,
}

/// The hosts that the map holds, each with its idle list, from the most
/// recently used to the least.
pub uninterp spec fn idle_entries(m: IdleMap) -> Seq<(Seq<char>, Seq<Idle>)>;

/// The number of hosts that the map was made to hold at most.
pub uninterp spec fn idle_limit(m: IdleMap) -> nat;

impl View for IdleMap {
    type V = Seq<(Seq<char>, Seq<Idle>)>;

    open spec fn view(&self) -> Seq<(Seq<char>, Seq<Idle>)> {
        idle_entries(*self)
    }
}

impl IdleMap {
    pub open spec fn limit(&self) -> nat {
        idle_limit(*self)
    }

    /// `LruMap::new` with a `ByLength` limiter: an empty map that will hold
    /// at most `limit` hosts.
    #[verifier::external_body]
    pub(crate) fn new(limit: u32) -> (m: IdleMap)
        ensures
            idle_entries(m) == Seq::<(Seq<char>, Seq<Idle>)>::empty(),
            idle_limit(m) == limit,
    {
        IdleMap { map: schnellru::LruMap::new(schnellru::ByLength::new(limit)) }
    }

    /// `LruMap::peek`: the list of `key` where the map holds one; the order
    /// of the hosts stays as it is.
    #[verifier::external_body]
    pub(crate) fn peek<'a>(&'a self, key: &String) -> (r: Option<&'a Vec<Idle>>)
        ensures
            r is Some == has_key(idle_entries(*self), key@),
            r is Some ==> r->Some_0@ == idle_entries(*self)[index_of(
                idle_entries(*self),
                key@,
            )].1,
    {
        self.map.peek(key)
    }

    /// `LruMap::peek_mut`: as `peek`, and what the caller writes to the list
    /// is what the map then holds for `key`, at the same place.
    #[verifier::external_body]
    pub(crate) fn peek_mut<'a>(&'a mut self, key: &String) -> (r: Option<&'a mut Vec<Idle>>)
        ensures
            idle_limit(*final(self)) == idle_limit(*old(self)),
            r is Some == has_key(idle_entries(*old(self)), key@),
            r is None ==> idle_entries(*final(self)) == idle_entries(*old(self)),
            r is Some ==> {
                let i = index_of(idle_entries(*old(self)), key@);
                &&& r->Some_0@ == idle_entries(*old(self))[i].1
                &&& idle_entries(*final(self)) == idle_entries(*old(self)).update(
                    i,
                    (key@, final(r->Some_0)@),
                )
            },
    {
        self.map.peek_mut(key)
    }

    /// `LruMap::get`: the list of `key` where the map holds one, and that
    /// host moves to the front; what the caller writes to the list is what
    /// the map then holds for `key`.
    #[verifier::external_body]
    pub(crate) fn get<'a>(&'a mut self, key: &String) -> (r: Option<&'a mut Vec<Idle>>)
        ensures
            idle_limit(*final(self)) == idle_limit(*old(self)),
            r is Some == has_key(idle_entries(*old(self)), key@),
            r is None ==> idle_entries(*final(self)) == idle_entries(*old(self)),
            r is Some ==> {
                let i = index_of(idle_entries(*old(self)), key@);
                &&& r->Some_0@ == idle_entries(*old(self))[i].1
                &&& idle_entries(*final(self)) == seq![(key@, final(r->Some_0)@)] + idle_entries(
                    *old(self),
                ).remove(i)
            },
    {
        self.map.get(key)
    }

    /// `LruMap::get_or_insert` with an empty list as the value to insert.
    ///
    /// A host that the map holds moves to the front, as with `get`. For a new
    /// host the map makes room by dropping hosts from the least recently
    /// used end, and puts the new host in front with an empty list. How many
    /// it drops is not promised here beyond the bound: the map may drop more
    /// than one when it cannot grow, and may then refuse the new host
    /// altogether, which it reports by `None`.
    #[verifier::external_body]
    pub(crate) fn get_or_insert<'a>(&'a mut self, key: String) -> (r: Option<&'a mut Vec<Idle>>)
        ensures
            idle_limit(*final(self)) == idle_limit(*old(self)),
            has_key(idle_entries(*old(self)), key@) ==> r is Some && {
                let i = index_of(idle_entries(*old(self)), key@);
                &&& r->Some_0@ == idle_entries(*old(self))[i].1
                &&& idle_entries(*final(self)) == seq![(key@, final(r->Some_0)@)] + idle_entries(
                    *old(self),
                ).remove(i)
            },
            !has_key(idle_entries(*old(self)), key@) ==> exists|kept: int|
                0 <= kept <= idle_entries(*old(self)).len() && match r {
                    Some(list) => {
                        &&& list@ == Seq::<Idle>::empty()
                        &&& kept + 1 <= idle_limit(*old(self))
                        &&& idle_entries(*final(self)) == seq![(key@, final(list)@)]
                            + idle_entries(*old(self)).take(kept)
                    },
                    None => #[trigger] idle_entries(*old(self)).take(kept) == idle_entries(
                        *final(self),
                    ),
                },
    {
        self.map.get_or_insert(key, Vec::default)
    }

    /// `LruMap::remove`: takes the host out, with its list; the order of the
    /// others stays as it is.
    #[verifier::external_body]
    pub(crate) fn remove(&mut self, key: &String) -> (r: Option<Vec<Idle>>)
        ensures
            idle_limit(*final(self)) == idle_limit(*old(self)),
            r is Some == has_key(idle_entries(*old(self)), key@),
            r is None ==> idle_entries(*final(self)) == idle_entries(*old(self)),
            r is Some ==> {
                let i = index_of(idle_entries(*old(self)), key@);
                &&& r->Some_0@ == idle_entries(*old(self))[i].1
                &&& idle_entries(*final(self)) == idle_entries(*old(self)).remove(i)
            },
    {
        self.map.remove(key)
    }

    /// `LruMap::iter`, keys only: the hosts held, from the most recently
    /// used to the least.
    #[verifier::external_body]
    pub(crate) fn keys(&self) -> (r: Vec<String>)
        ensures
            r@.len() == idle_entries(*self).len(),
            forall|i: int| 0 <= i < r@.len() ==> (#[trigger] r@[i])@ == idle_entries(*self)[i].0,
    {
        self.map.iter().map(|(key, _)| key.clone()).collect()
    }
}

/// The rule by which an idle connection is too old to be used.
#[derive(Clone, Copy, Debug)]
pub struct Expiration(pub Option<Duration>);

impl Expiration {
    pub fn new(dur: Option<Duration>) -> (e: Expiration)
        ensures
            e.0 == dur,
    {
        Expiration(dur)
    }

    /// Whether what came to rest at `instant` is, at `now`, older than the
    /// timeout. Without a timeout nothing is.
    pub open spec fn expired(&self, instant: Instant, now: Instant) -> bool {
        match self.0 {
            Some(timeout) => now.since(instant).nanos > timeout.nanos,
            None => false,
        }
    }

    pub fn expires(&self, instant: Instant, now: Instant) -> (b: bool)
        ensures
            b == self.expired(instant, now),
    {
        match self.0 {
            Some(timeout) => now.saturating_duration_since(instant).as_nanos() > timeout.as_nanos(),
            None => false,
        }
    }

    /// Whether an idle entry can still be handed out: it is open and not
    /// expired.
    pub open spec fn usable(&self, entry: Idle, now: Instant) -> bool {
        entry.value.open() && !self.expired(entry.idle_at, now)
    }
}

/// The place of the last usable entry of `list`, or -1 where none is usable.
pub open spec fn last_usable(list: Seq<Idle>, expiration: Expiration, now: Instant) -> int
    decreases list.len(),
{
    if list.len() == 0 {
        -1
    } else if expiration.usable(list.last(), now) {
        list.len() - 1
    } else {
        last_usable(list.drop_last(), expiration, now)
    }
}

/// What is left of `list` once the last usable entry was taken from it:
/// the entries before it, and behind them, for a connection that can be
/// shared, the copy that stays in the pool, at rest since `now`.
pub open spec fn list_after_pop(list: Seq<Idle>, expiration: Expiration, now: Instant) -> Seq<
    Idle,
> {
    let i = last_usable(list, expiration, now);
    if i < 0 {
        Seq::empty()
    } else if list[i].value.shareable() {
        list.take(i).push(Idle { idle_at: now, value: list[i].value })
    } else {
        list.take(i)
    }
}

/// The entry that a pop hands out: the last usable one, if any.
pub open spec fn popped(list: Seq<Idle>, expiration: Expiration, now: Instant) -> Option<Idle> {
    let i = last_usable(list, expiration, now);
    if i < 0 {
        None
    } else {
        Some(list[i])
    }
}

/// The last usable entry is an entry of the list, it is usable, and nothing
/// behind it is.
pub proof fn lemma_last_usable(list: Seq<Idle>, expiration: Expiration, now: Instant)
    ensures
        -1 <= last_usable(list, expiration, now) < list.len(),
        last_usable(list, expiration, now) >= 0 ==> expiration.usable(
            list[last_usable(list, expiration, now)],
            now,
        ),
        forall|j: int|
            last_usable(list, expiration, now) < j < list.len() ==> !expiration.usable(
                #[trigger] list[j],
                now,
            ),
    decreases list.len(),
{
    if list.len() > 0 && !expiration.usable(list.last(), now) {
        lemma_last_usable(list.drop_last(), expiration, now);
        assert forall|j: int|
            last_usable(list, expiration, now) < j < list.len() implies !expiration.usable(
            #[trigger] list[j],
            now,
        ) by {
            if j < list.len() - 1 {
                assert(list[j] == list.drop_last()[j]);
            }
        }
    }
}

/// Takes entries from the back of `list` until one is usable, and drops
/// those that are not. Of a connection that can be shared one copy goes back
/// to the list, at rest since `now`.
pub fn pop_usable(list: &mut Vec<Idle>, expiration: &Expiration, now: Instant) -> (r: Option<Idle>)
    ensures
        r == popped(old(list)@, *expiration, now),
        final(list)@ == list_after_pop(old(list)@, *expiration, now),
{
    let ghost whole = list@;
    loop
        invariant
            whole == old(list)@,
            list@.len() <= whole.len(),
            list@ == whole.take(list@.len() as int),
            last_usable(list@, *expiration, now) == last_usable(whole, *expiration, now),
        decreases list@.len(),
    {
        let ghost before = list@;
        match list.pop() {
            None => {
                assert(list@ =~= Seq::<Idle>::empty());
                return None;
            },
            Some(entry) => {
                proof {
                    assert(list@ == before.drop_last());
                    assert(entry == before.last());
                    assert(list@ == whole.take(list@.len() as int));
                }
                // If the connection has been closed, or is older than our idle
                // timeout, simply drop it and keep looking...
                if !entry.value.is_open() {
                    continue;
                }
                if expiration.expires(entry.idle_at, now) {
                    continue;
                }
                proof {
                    assert(last_usable(before, *expiration, now) == before.len() - 1);
                    assert(whole[before.len() - 1] == entry);
                }
                let value = match entry.value.reserve() {
                    Reservation::Shared(to_reinsert, to_checkout) => {
                        list.push(Idle { idle_at: now, value: to_reinsert });
                        to_checkout
                    },
                    Reservation::Unique(unique) => unique,
                };
                return Some(Idle { idle_at: entry.idle_at, value });
            },
        }
    }
}

/// Pop off this list, looking for a usable connection that hasn't expired.
pub struct IdlePopper<'a> {
    pub key: &'a String,
    pub list: &'a mut Vec<Idle>,
}

impl<'a> IdlePopper<'a> {
    /// The last usable entry of the list, if there is one; see `pop_usable`.
    pub fn pop(self, expiration: &Expiration, now: Instant) -> (r: Option<Idle>)
        ensures
            r == popped(old(self.list)@, *expiration, now),
            final(self.list)@ == list_after_pop(old(self.list)@, *expiration, now),
    {
        pop_usable(self.list, expiration, now)
    }
}

} // verus!
