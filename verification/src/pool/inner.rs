//! The state behind a pool, and each step that changes it.
//!
//! The steps are stated over `PoolView`, the mathematical image of the
//! state: sequences of keyed entries in which the order is the order of use
//! (idle hosts) or of arrival (everything else).

use vstd::prelude::*;
use std::collections::VecDeque;
use crate::pool::assoc::{
    distinct_keys, has_key, index_of, lemma_has_key, lemma_index_of, lemma_push_front,
    lemma_remove, lemma_take, lemma_update, without,
};
use crate::pool::conn::{Conn, Poolable, Reservation};
use crate::pool::idle::{list_after_pop, pop_usable, popped, Expiration, Idle, IdleMap};
use crate::time::{Duration, Instant};

verus! {

/// The sending half of the one-shot hand-over that a parked checkout waits
/// on: the ticket of the checkout, and whether the checkout has gone away.
#[derive(Clone, Copy, Debug, PartialEq, Eq, Structural)]
pub struct Waiter {
    pub id: u64,
    pub closed: bool,
}

/// A connection handed to a parked checkout and not yet collected by it.
#[derive(Clone, Copy, Debug, PartialEq, Eq, Structural)]
pub struct Delivery {
    pub waiter: u64,
    pub value: Conn,
}

/// The checkouts parked for one host, in the order in which they arrived.
pub struct WaiterQueue {
    pub key: String,
    pub queue: VecDeque<Waiter>,
}

impl View for WaiterQueue {
    type V = (Seq<char>, Seq<Waiter>);

    open spec fn view(&self) -> (Seq<char>, Seq<Waiter>) {
        (self.key@, self.queue@)
    }
}

/// The task that sweeps expired connections out of the pool: how long it
/// sleeps between two sweeps, and when it is next due.
#[derive(Clone, Copy, Debug, PartialEq, Eq, Structural)]
pub struct IdleTask {
    pub duration: Duration,
    pub deadline: Instant,
}

/// The mathematical image of a pool's state.
pub struct PoolView {
    /// The hosts for which an HTTP/2 dial is in flight.
    pub connecting: Seq<(Seq<char>, ())>,
    /// The idle lists, the host used last in front.
    pub idle: Seq<(Seq<char>, Seq<Idle>)>,
    /// The number of hosts that may have an idle list.
    pub limit: nat,
    /// The number of connections that one idle list may hold.
    pub max_idle_per_host: nat,
    /// The parked checkouts of each host, first come first.
    pub waiters: Seq<(Seq<char>, Seq<Waiter>)>,
    /// What was handed to parked checkouts, in the order of the handing.
    pub delivered: Seq<Delivery>,
    /// The ticket that the next parked checkout gets.
    pub next_waiter: nat,
    /// Whether the sweeper was started.
    pub sweeping: bool,
    /// The tasks given to the executor and not yet taken by it.
    pub spawned: Seq<IdleTask>,
    /// Whether the pool has a timer to sleep on.
    pub timer: bool,
    /// The time after which an idle connection expires.
    pub timeout: Option<Duration>,
}

/// What offering `value` to the parked checkouts of one host comes to: the
/// checkouts still parked, the hand-overs made, and the value if it is still
/// to be had. Checkouts that have gone away are passed over. A connection
/// that must be held alone goes to the first checkout; one that can be shared
/// goes to all of them and stays.
pub open spec fn fulfil(queue: Seq<Waiter>, value: Conn) -> (Seq<Waiter>, Seq<Delivery>, Option<
    Conn,
>)
    decreases queue.len(),
{
    if queue.len() == 0 {
        (queue, Seq::empty(), Some(value))
    } else if queue[0].closed {
        fulfil(queue.drop_first(), value)
    } else {
        match value.reserved() {
            Reservation::Shared(keep, send) => {
                let rest = fulfil(queue.drop_first(), keep);
                (rest.0, seq![Delivery { waiter: queue[0].id, value: send }] + rest.1, rest.2)
            },
            Reservation::Unique(send) => (
                queue.drop_first(),
                seq![Delivery { waiter: queue[0].id, value: send }],
                None,
            ),
        }
    }
}

/// The checkouts of `queue` that have not gone away, in their order.
pub open spec fn still_waiting(queue: Seq<Waiter>) -> Seq<Waiter>
    decreases queue.len(),
{
    if queue.len() == 0 {
        queue
    } else if queue.last().closed {
        still_waiting(queue.drop_last())
    } else {
        still_waiting(queue.drop_last()).push(queue.last())
    }
}

/// `queue` with every checkout of ticket `id` marked as gone.
pub open spec fn closed_for(queue: Seq<Waiter>, id: u64) -> Seq<Waiter> {
    Seq::new(
        queue.len(),
        |i: int|
            if queue[i].id == id {
                Waiter { id, closed: true }
            } else {
                queue[i]
            },
    )
}

/// The entries of `list` that are usable at `now`, in their order.
pub open spec fn keep_usable(list: Seq<Idle>, expiration: Expiration, now: Instant) -> Seq<Idle>
    decreases list.len(),
{
    if list.len() == 0 {
        list
    } else if expiration.usable(list.last(), now) {
        keep_usable(list.drop_last(), expiration, now).push(list.last())
    } else {
        keep_usable(list.drop_last(), expiration, now)
    }
}

/// The idle lists after a sweep: every list keeps its usable entries, and a
/// host whose list is then empty is gone. The order of the hosts stays.
pub open spec fn swept(
    idle: Seq<(Seq<char>, Seq<Idle>)>,
    expiration: Expiration,
    now: Instant,
) -> Seq<(Seq<char>, Seq<Idle>)>
    decreases idle.len(),
{
    if idle.len() == 0 {
        idle
    } else {
        let kept = keep_usable(idle.last().1, expiration, now);
        if kept.len() == 0 {
            swept(idle.drop_last(), expiration, now)
        } else {
            swept(idle.drop_last(), expiration, now).push((idle.last().0, kept))
        }
    }
}

/// The place of the first hand-over to ticket `id`, or -1.
pub open spec fn delivery_index(delivered: Seq<Delivery>, id: u64) -> int
    decreases delivered.len(),
{
    if delivered.len() == 0 {
        -1
    } else if delivered[0].waiter == id {
        0
    } else {
        let rest = delivery_index(delivered.drop_first(), id);
        if rest < 0 {
            -1
        } else {
            rest + 1
        }
    }
}

/// The hand-overs of `delivered` that are not to ticket `id`, in their order.
pub open spec fn not_for(delivered: Seq<Delivery>, id: u64) -> Seq<Delivery>
    decreases delivered.len(),
{
    if delivered.len() == 0 {
        delivered
    } else if delivered.last().waiter == id {
        not_for(delivered.drop_last(), id)
    } else {
        not_for(delivered.drop_last(), id).push(delivered.last())
    }
}

/// Whether a checkout of ticket `id` is parked in `queue`.
pub open spec fn queue_holds(queue: Seq<Waiter>, id: u64) -> bool {
    exists|i: int| 0 <= i < queue.len() && (#[trigger] queue[i]).id == id
}

/// Whether a checkout of ticket `id` is parked for any host.
pub open spec fn parked(waiters: Seq<(Seq<char>, Seq<Waiter>)>, id: u64) -> bool {
    exists|i: int| 0 <= i < waiters.len() && queue_holds((#[trigger] waiters[i]).1, id)
}

/// What became of a connection that was to be put to rest.
#[derive(Clone, Copy, Debug, PartialEq, Eq, Structural)]
pub enum Rest {
    /// It is the last entry of its host's idle list.
    Stored,
    /// The list of its host held as many as a host may have: it was dropped.
    Full,
    /// The idle map had no list for its host and took none: it was dropped.
    Refused,
}

impl PoolView {
    /// What every pool holds to.
    pub open spec fn wf(self) -> bool {
        &&& distinct_keys(self.connecting)
        &&& distinct_keys(self.idle)
        &&& distinct_keys(self.waiters)
        &&& 1 <= self.limit
        &&& self.idle.len() <= self.limit
        &&& 1 <= self.max_idle_per_host
        &&& forall|i: int|
            0 <= i < self.idle.len() ==> (#[trigger] self.idle[i]).1.len() <= self.max_idle_per_host
        &&& forall|i: int| 0 <= i < self.waiters.len() ==> (#[trigger] self.waiters[i]).1.len() > 0
        &&& self.next_waiter <= u64::MAX
    }

    pub open spec fn expiration(self) -> Expiration {
        Expiration(self.timeout)
    }

    /// The state after a dial for `key` has ended: the host is no longer
    /// dialled, and the checkouts parked for it are let go.
    pub open spec fn connected(self, key: Seq<char>) -> PoolView {
        PoolView {
            connecting: without(self.connecting, key),
            waiters: without(self.waiters, key),
            ..self
        }
    }

    /// The state after the checkouts of `key` that have gone away were
    /// struck from its queue.
    pub open spec fn clean_waiters(self, key: Seq<char>) -> PoolView {
        if has_key(self.waiters, key) {
            let i = index_of(self.waiters, key);
            let queue = still_waiting(self.waiters[i].1);
            if queue.len() == 0 {
                PoolView { waiters: self.waiters.remove(i), ..self }
            } else {
                PoolView { waiters: self.waiters.update(i, (key, queue)), ..self }
            }
        } else {
            self
        }
    }

    /// The state after the sweeper was asked for at `now`: it is started,
    /// due at once, if it was not started before and the pool has both a
    /// timeout and a timer.
    pub open spec fn spawn_idle_interval(self, now: Instant) -> PoolView {
        if self.sweeping || self.timeout is None || !self.timer {
            self
        } else {
            PoolView {
                sweeping: true,
                spawned: self.spawned.push(
                    IdleTask { duration: self.timeout->Some_0, deadline: now },
                ),
                ..self
            }
        }
    }

    /// The state after `value` was offered to the checkouts parked for
    /// `key`, and the value if it is still to be had.
    pub open spec fn offer(self, key: Seq<char>, value: Conn) -> (PoolView, Option<Conn>) {
        if has_key(self.waiters, key) {
            let i = index_of(self.waiters, key);
            let (queue, sent, left) = fulfil(self.waiters[i].1, value);
            let waiters = if queue.len() == 0 {
                self.waiters.remove(i)
            } else {
                self.waiters.update(i, (key, queue))
            };
            (PoolView { waiters, delivered: self.delivered + sent, ..self }, left)
        } else {
            (self, Some(value))
        }
    }

    /// Whether the idle map may answer the insertion of `key` by keeping the
    /// `kept` hosts used last and, for a new host, by taking it or not.
    pub open spec fn may_store(self, key: Seq<char>, kept: int, taken: bool) -> bool {
        has_key(self.idle, key) || (0 <= kept <= self.idle.len() && (taken ==> kept + 1
            <= self.limit))
    }

    /// The state after `entry` was put to rest under `key`.
    ///
    /// The host moves to the front. Its list takes the entry unless it is
    /// full, in which case the entry is dropped. For a host without a list
    /// the idle map keeps the `kept` hosts used last; if it takes the new
    /// host (`taken`), the list of that host holds the entry alone. Unless
    /// the entry was dropped for a full list, the sweeper is asked for.
    pub open spec fn store(self, key: Seq<char>, entry: Idle, kept: int, taken: bool) -> PoolView {
        if has_key(self.idle, key) {
            let i = index_of(self.idle, key);
            let list = self.idle[i].1;
            if self.max_idle_per_host <= list.len() {
                PoolView { idle: seq![(key, list)] + self.idle.remove(i), ..self }
            } else {
                PoolView {
                    idle: seq![(key, list.push(entry))] + self.idle.remove(i),
                    ..self
                }.spawn_idle_interval(entry.idle_at)
            }
        } else if taken {
            PoolView {
                idle: seq![(key, seq![entry])] + self.idle.take(kept),
                ..self
            }.spawn_idle_interval(entry.idle_at)
        } else {
            PoolView { idle: self.idle.take(kept), ..self }.spawn_idle_interval(entry.idle_at)
        }
    }

    /// Whether `post` is a state in which `put` may leave `self`.
    ///
    /// A connection that can be shared, for a host that has an idle list,
    /// is a duplicate and is dropped. Else the value is offered to the parked
    /// checkouts, and what is left of it is put to rest at `now`.
    pub open spec fn put(self, post: PoolView, key: Seq<char>, value: Conn, now: Instant) -> bool {
        if value.shareable() && has_key(self.idle, key) {
            post == self
        } else {
            let (mid, left) = self.offer(key, value);
            match left {
                None => post == mid,
                Some(rest) => exists|kept: int, taken: bool|
                    mid.may_store(key, kept, taken) && post == #[trigger] mid.store(
                        key,
                        Idle { idle_at: now, value: rest },
                        kept,
                        taken,
                    ),
            }
        }
    }

    /// What is reported of an entry that `store` puts to rest under `key`,
    /// where the idle map takes a new host or not (`taken`).
    pub open spec fn rested(self, key: Seq<char>, taken: bool) -> Rest {
        if has_key(self.idle, key) {
            if self.max_idle_per_host <= self.idle[index_of(self.idle, key)].1.len() {
                Rest::Full
            } else {
                Rest::Stored
            }
        } else if taken {
            Rest::Stored
        } else {
            Rest::Refused
        }
    }

    /// Whether `post` is a state in which `put` may leave `self` while it
    /// reports `outcome`: nothing of a value that did not come to rest, a
    /// duplicate or one that a parked checkout took; else what became of it
    /// in the idle map.
    pub open spec fn put_as(
        self,
        post: PoolView,
        key: Seq<char>,
        value: Conn,
        now: Instant,
        outcome: Option<Rest>,
    ) -> bool {
        if value.shareable() && has_key(self.idle, key) {
            post == self && outcome is None
        } else {
            let (mid, left) = self.offer(key, value);
            match left {
                None => post == mid && outcome is None,
                Some(rest) => exists|kept: int, taken: bool|
                    mid.may_store(key, kept, taken) && post == #[trigger] mid.store(
                        key,
                        Idle { idle_at: now, value: rest },
                        kept,
                        taken,
                    ) && outcome == Some(mid.rested(key, taken)),
            }
        }
    }

    /// The state after an idle connection of `key` was asked for at `now`,
    /// and the entry found: the last usable one of the host's list. What was
    /// not usable behind it is dropped, the host moves to the front, and a
    /// host whose list is then empty is gone.
    pub open spec fn take_idle(self, key: Seq<char>, now: Instant) -> (PoolView, Option<Idle>) {
        if has_key(self.idle, key) {
            let i = index_of(self.idle, key);
            let list = self.idle[i].1;
            let rest = list_after_pop(list, self.expiration(), now);
            let found = popped(list, self.expiration(), now);
            if found is None || rest.len() == 0 {
                (PoolView { idle: self.idle.remove(i), ..self }, found)
            } else {
                (PoolView { idle: seq![(key, rest)] + self.idle.remove(i), ..self }, found)
            }
        } else {
            (self, None)
        }
    }

    /// The state after a checkout was parked for `key`, and its ticket.
    pub open spec fn park(self, key: Seq<char>) -> (PoolView, u64) {
        let id = self.next_waiter as u64;
        let waiter = Waiter { id, closed: false };
        let waiters = if has_key(self.waiters, key) {
            let i = index_of(self.waiters, key);
            self.waiters.update(i, (key, self.waiters[i].1.push(waiter)))
        } else {
            self.waiters.push((key, seq![waiter]))
        };
        (PoolView { waiters, next_waiter: self.next_waiter + 1, ..self }, id)
    }

    /// The state after the checkout of ticket `id`, parked for `key`, has
    /// gone away: it is marked as gone, and what was handed to it is lost.
    pub open spec fn close_waiter(self, key: Seq<char>, id: u64) -> PoolView {
        let waiters = if has_key(self.waiters, key) {
            let i = index_of(self.waiters, key);
            self.waiters.update(i, (key, closed_for(self.waiters[i].1, id)))
        } else {
            self.waiters
        };
        PoolView { waiters, delivered: not_for(self.delivered, id), ..self }
    }

    /// The state after the checkout of ticket `id` has collected what was
    /// handed to it, and the connection collected: the first hand-over to
    /// that ticket, if there is one.
    pub open spec fn collect(self, id: u64) -> (PoolView, Option<Conn>) {
        let i = delivery_index(self.delivered, id);
        if i < 0 {
            (self, None)
        } else {
            (PoolView { delivered: self.delivered.remove(i), ..self }, Some(self.delivered[i].value))
        }
    }

    /// The state after a dial for `key` was announced, and whether it may
    /// go ahead: it may not where one is in flight already.
    pub open spec fn start_connecting(self, key: Seq<char>) -> (PoolView, bool) {
        if has_key(self.connecting, key) {
            (self, false)
        } else {
            (PoolView { connecting: self.connecting.push((key, ())), ..self }, true)
        }
    }

    /// The state after the executor took the tasks given to it.
    pub open spec fn take_spawned(self) -> PoolView {
        PoolView { spawned: Seq::empty(), ..self }
    }

    /// The state after a sweep at `now`.
    pub open spec fn clear_expired(self, now: Instant) -> PoolView {
        PoolView { idle: swept(self.idle, self.expiration(), now), ..self }
    }
}

/// The image of the hosts being dialled.
pub open spec fn dials_view(keys: Seq<String>) -> Seq<(Seq<char>, ())> {
    Seq::new(keys.len(), |i: int| (keys[i]@, ()))
}

/// The image of the queues of parked checkouts.
pub open spec fn queues_view(queues: Seq<WaiterQueue>) -> Seq<(Seq<char>, Seq<Waiter>)> {
    Seq::new(queues.len(), |i: int| queues[i]@)
}

/// The state behind a pool.
///
/// Hosts are keyed by text. The dials on record and the queues of parked
/// checkouts are lists without a key twice, searched from the front: of a
/// hash set or hash map keyed by text Verus can prove nothing, not even
/// that an insertion into an empty one succeeds, for want of a model of how
/// text is hashed.
pub struct PoolInner {
    // A flag that a connection is being established, and the connection
    // should be shared. This prevents making multiple HTTP/2 connections
    // to the same host.
    connecting: Vec<String>,
    // These are internal Conns sitting in the event loop in the KeepAlive
    // state, waiting to receive a new Request to send on the socket.
    idle: IdleMap,
    max_idle_per_host: usize,
    // These are outstanding Checkouts that are waiting for a socket to be
    // able to send a Request one. This is used when "racing" for a new
    // connection.
    waiters: Vec<WaiterQueue>,
    // What was handed to parked checkouts and waits to be collected.
    delivered: Vec<Delivery>,
    next_waiter: u64,
    // Set once the sweeper was handed to the executor.
    idle_interval_ref: bool,
    executor: Vec<IdleTask>,
    timer: bool,
    timeout: Option<Duration>,
}

impl View for PoolInner {
    type V = PoolView;

    closed spec fn view(&self) -> PoolView {
        PoolView {
            connecting: dials_view(self.connecting@),
            idle: self.idle@,
            limit: self.idle.limit(),
            max_idle_per_host: self.max_idle_per_host as nat,
            waiters: queues_view(self.waiters@),
            delivered: self.delivered@,
            next_waiter: self.next_waiter as nat,
            sweeping: self.idle_interval_ref,
            spawned: self.executor@,
            timer: self.timer,
            timeout: self.timeout,
        }
    }
}

/// The place of `key` among `keys`, if it is there.
fn find_key(keys: &Vec<String>, key: &String) -> (r: Option<usize>)
    ensures
        r is Some == has_key(dials_view(keys@), key@),
        r is Some ==> r->Some_0 < keys@.len() && keys@[r->Some_0 as int]@ == key@,
        r is Some && distinct_keys(dials_view(keys@)) ==> r->Some_0 == index_of(
            dials_view(keys@),
            key@,
        ),
{
    let ghost view = dials_view(keys@);
    let mut i: usize = 0;
    while i < keys.len()
        invariant
            i <= keys@.len(),
            view == dials_view(keys@),
            forall|j: int| 0 <= j < i ==> (#[trigger] view[j]).0 != key@,
        decreases keys@.len() - i,
    {
        if keys[i] == *key {
            proof {
                assert(view[i as int].0 == key@);
                if distinct_keys(view) {
                    lemma_index_of(view, key@, i as int);
                }
            }
            return Some(i);
        }
        i += 1;
    }
    None
}

/// The place of the queue of `key` among `queues`, if it has one.
fn find_queue(queues: &Vec<WaiterQueue>, key: &String) -> (r: Option<usize>)
    ensures
        r is Some == has_key(queues_view(queues@), key@),
        r is Some ==> r->Some_0 < queues@.len() && queues@[r->Some_0 as int].key@ == key@,
        r is Some && distinct_keys(queues_view(queues@)) ==> r->Some_0 == index_of(
            queues_view(queues@),
            key@,
        ),
{
    let ghost view = queues_view(queues@);
    let mut i: usize = 0;
    while i < queues.len()
        invariant
            i <= queues@.len(),
            view == queues_view(queues@),
            forall|j: int| 0 <= j < i ==> (#[trigger] view[j]).0 != key@,
        decreases queues@.len() - i,
    {
        if queues[i].key == *key {
            proof {
                assert(view[i as int].0 == key@);
                if distinct_keys(view) {
                    lemma_index_of(view, key@, i as int);
                }
            }
            return Some(i);
        }
        i += 1;
    }
    None
}

/// Offers `value` to the checkouts of `queue`, first come first served, and
/// records each hand-over in `delivered`. Returns the value if it is still
/// to be had.
fn fulfil_queue(queue: &mut VecDeque<Waiter>, delivered: &mut Vec<Delivery>, value: Conn) -> (left:
    Option<Conn>)
    ensures
        final(queue)@ == fulfil(old(queue)@, value).0,
        final(delivered)@ == old(delivered)@ + fulfil(old(queue)@, value).1,
        left == fulfil(old(queue)@, value).2,
{
    let ghost mut sent: Seq<Delivery> = Seq::empty();
    let mut cur = value;
    assert(delivered@ =~= old(delivered)@ + sent);
    loop
        invariant
            delivered@ == old(delivered)@ + sent,
            fulfil(old(queue)@, value) == ({
                let rest = fulfil(queue@, cur);
                (rest.0, sent + rest.1, rest.2)
            }),
        decreases queue@.len(),
    {
        let ghost before = queue@;
        match queue.pop_front() {
            None => {
                assert(sent + Seq::<Delivery>::empty() =~= sent);
                return Some(cur);
            },
            Some(tx) => {
                assert(queue@ == before.drop_first());
                if !tx.closed {
                    match cur.reserve() {
                        Reservation::Shared(to_keep, to_send) => {
                            let hand = Delivery { waiter: tx.id, value: to_send };
                            delivered.push(hand);
                            proof {
                                let rest = fulfil(queue@, to_keep);
                                assert(sent + (seq![hand] + rest.1) =~= sent.push(hand) + rest.1);
                                assert(delivered@ =~= old(delivered)@ + sent.push(hand));
                                sent = sent.push(hand);
                            }
                            cur = to_keep;
                        },
                        Reservation::Unique(uniq) => {
                            let hand = Delivery { waiter: tx.id, value: uniq };
                            delivered.push(hand);
                            proof {
                                assert(delivered@ =~= old(delivered)@ + (sent + seq![hand]));
                            }
                            return None;
                        },
                    }
                }
            },
        }
    }
}

/// The checkouts of `queue` that have not gone away.
fn retain_open(queue: &VecDeque<Waiter>) -> (r: VecDeque<Waiter>)
    ensures
        r@ == still_waiting(queue@),
{
    let mut out: VecDeque<Waiter> = VecDeque::new();
    let mut i: usize = 0;
    assert(queue@.take(0) =~= Seq::empty());
    while i < queue.len()
        invariant
            i <= queue@.len(),
            out@ == still_waiting(queue@.take(i as int)),
        decreases queue@.len() - i,
    {
        let tx = queue[i];
        assert(queue@.take(i + 1).drop_last() =~= queue@.take(i as int));
        assert(queue@.take(i + 1).last() == tx);
        if !tx.closed {
            out.push_back(tx);
        }
        i += 1;
    }
    assert(queue@.take(queue@.len() as int) =~= queue@);
    out
}

/// `queue` with every checkout of ticket `id` marked as gone.
fn mark_closed(queue: &VecDeque<Waiter>, id: u64) -> (r: VecDeque<Waiter>)
    ensures
        r@ == closed_for(queue@, id),
{
    let mut out: VecDeque<Waiter> = VecDeque::new();
    let mut i: usize = 0;
    while i < queue.len()
        invariant
            i <= queue@.len(),
            out@.len() == i,
            forall|j: int| 0 <= j < i ==> out@[j] == closed_for(queue@, id)[j],
        decreases queue@.len() - i,
    {
        let tx = queue[i];
        if tx.id == id {
            out.push_back(Waiter { id, closed: true });
        } else {
            out.push_back(tx);
        }
        i += 1;
    }
    assert(out@ =~= closed_for(queue@, id));
    out
}

/// The hand-overs of `delivered` that are not to ticket `id`.
fn drop_deliveries(delivered: &Vec<Delivery>, id: u64) -> (r: Vec<Delivery>)
    ensures
        r@ == not_for(delivered@, id),
{
    let mut out: Vec<Delivery> = Vec::new();
    let mut i: usize = 0;
    assert(delivered@.take(0) =~= Seq::empty());
    while i < delivered.len()
        invariant
            i <= delivered@.len(),
            out@ == not_for(delivered@.take(i as int), id),
        decreases delivered@.len() - i,
    {
        let hand = delivered[i];
        assert(delivered@.take(i + 1).drop_last() =~= delivered@.take(i as int));
        assert(delivered@.take(i + 1).last() == hand);
        if hand.waiter != id {
            out.push(hand);
        }
        i += 1;
    }
    assert(delivered@.take(delivered@.len() as int) =~= delivered@);
    out
}

/// The place of the first hand-over to ticket `id`, if there is one.
fn find_delivery(delivered: &Vec<Delivery>, id: u64) -> (r: Option<usize>)
    ensures
        match r {
            Some(i) => i == delivery_index(delivered@, id) && i < delivered@.len(),
            None => delivery_index(delivered@, id) < 0,
        },
{
    let mut i: usize = 0;
    assert(delivered@.skip(0) =~= delivered@);
    while i < delivered.len()
        invariant
            i <= delivered@.len(),
            delivery_index(delivered@, id) == ({
                let rest = delivery_index(delivered@.skip(i as int), id);
                if rest < 0 {
                    -1
                } else {
                    rest + i
                }
            }),
        decreases delivered@.len() - i,
    {
        assert(delivered@.skip(i as int)[0] == delivered@[i as int]);
        assert(delivered@.skip(i as int).drop_first() =~= delivered@.skip(i + 1));
        if delivered[i].waiter == id {
            return Some(i);
        }
        i += 1;
    }
    None
}

/// Whether a checkout of ticket `id` is in `queue`.
fn queue_has(queue: &VecDeque<Waiter>, id: u64) -> (b: bool)
    ensures
        b == queue_holds(queue@, id),
{
    let mut i: usize = 0;
    while i < queue.len()
        invariant
            i <= queue@.len(),
            forall|j: int| 0 <= j < i ==> (#[trigger] queue@[j]).id != id,
        decreases queue@.len() - i,
    {
        if queue[i].id == id {
            return true;
        }
        i += 1;
    }
    false
}

/// The length of the list that a pop leaves is at most that of the list.
pub proof fn lemma_list_after_pop(list: Seq<Idle>, expiration: Expiration, now: Instant)
    ensures
        list_after_pop(list, expiration, now).len() <= list.len(),
        popped(list, expiration, now) is Some ==> expiration.usable(
            popped(list, expiration, now)->Some_0,
            now,
        ),
{
    crate::pool::idle::lemma_last_usable(list, expiration, now);
}

/// What a sweep keeps of a list is no longer than the list.
pub proof fn lemma_keep_usable(list: Seq<Idle>, expiration: Expiration, now: Instant)
    ensures
        keep_usable(list, expiration, now).len() <= list.len(),
        forall|i: int|
            0 <= i < keep_usable(list, expiration, now).len() ==> expiration.usable(
                #[trigger] keep_usable(list, expiration, now)[i],
                now,
            ),
    decreases list.len(),
{
    if list.len() > 0 {
        lemma_keep_usable(list.drop_last(), expiration, now);
    }
}

/// Keeps of `list` the entries that are usable at `now`.
fn retain_usable(list: &mut Vec<Idle>, expiration: &Expiration, now: Instant)
    ensures
        final(list)@ == keep_usable(old(list)@, *expiration, now),
{
    let mut out: Vec<Idle> = Vec::new();
    let mut i: usize = 0;
    assert(list@.take(0) =~= Seq::empty());
    while i < list.len()
        invariant
            i <= list@.len(),
            list@ == old(list)@,
            out@ == keep_usable(list@.take(i as int), *expiration, now),
        decreases list@.len() - i,
    {
        let entry = list[i];
        assert(list@.take(i + 1).drop_last() =~= list@.take(i as int));
        assert(list@.take(i + 1).last() == entry);
        if entry.value.is_open() && !expiration.expires(entry.idle_at, now) {
            out.push(entry);
        }
        i += 1;
    }
    assert(list@.take(list@.len() as int) =~= list@);
    *list = out;
}

/// Puts `entry` to rest in what the idle map answered when it was asked for
/// the list of the entry's host: behind the entries of the list, unless the
/// list holds `max_idle_per_host` entries already, in which case the new
/// arrival is the one to go. Without a list there is nowhere to rest.
pub fn rest_in(list: Option<&mut Vec<Idle>>, entry: Idle, max_idle_per_host: usize) -> (r: Rest)
    ensures
        match list {
            Some(l) => if max_idle_per_host <= l@.len() {
                r == Rest::Full && final(l)@ == l@
            } else {
                r == Rest::Stored && final(l)@ == l@.push(entry)
            },
            None => r == Rest::Refused,
        },
{
    match list {
        Some(idle_list) => {
            if max_idle_per_host <= idle_list.len() {
                Rest::Full
            } else {
                idle_list.push(entry);
                Rest::Stored
            }
        },
        None => Rest::Refused,
    }
}

impl PoolInner {
    /// Whether the state is one that the pool's steps keep to: its image
    /// is well formed.
    pub open spec fn wf(&self) -> bool {
        self@.wf()
    }

    /// An empty pool that keeps at most `max_idle_per_host` idle connections
    /// for each of at most `max_pool_size` hosts, and lets them expire after
    /// `timeout`.
    pub fn new(
        max_idle_per_host: usize,
        max_pool_size: u32,
        timeout: Option<Duration>,
        timer: bool,
    ) -> (inner: PoolInner)
        requires
            1 <= max_idle_per_host,
            1 <= max_pool_size,
        ensures
            inner.wf(),
            inner@ == (PoolView {
                connecting: Seq::empty(),
                idle: Seq::empty(),
                limit: max_pool_size as nat,
                max_idle_per_host: max_idle_per_host as nat,
                waiters: Seq::empty(),
                delivered: Seq::empty(),
                next_waiter: 0,
                sweeping: false,
                spawned: Seq::empty(),
                timer,
                timeout,
            }),
    {
        let inner = PoolInner {
            connecting: Vec::new(),
            idle: IdleMap::new(max_pool_size),
            max_idle_per_host,
            waiters: Vec::new(),
            delivered: Vec::new(),
            next_waiter: 0,
            idle_interval_ref: false,
            executor: Vec::new(),
            timer,
            timeout,
        };
        proof {
            assert(dials_view(inner.connecting@) =~= Seq::empty());
            assert(queues_view(inner.waiters@) =~= Seq::empty());
        }
        inner
    }

    /// A `Connecting` task is complete. Not necessarily successfully,
    /// but the lock is going away, so clean up.
    pub fn connected(&mut self, key: &String)
        requires
            old(self).wf(),
        ensures
            final(self).wf(),
            final(self)@ == old(self)@.connected(key@),
    {
        proof {
            if has_key(old(self)@.connecting, key@) {
                lemma_has_key(old(self)@.connecting, key@);
                lemma_remove(old(self)@.connecting, index_of(old(self)@.connecting, key@));
            }
            if has_key(old(self)@.waiters, key@) {
                lemma_has_key(old(self)@.waiters, key@);
                lemma_remove(old(self)@.waiters, index_of(old(self)@.waiters, key@));
            }
        }
        match find_key(&self.connecting, key) {
            Some(i) => {
                self.connecting.remove(i);
                assert(dials_view(self.connecting@) =~= dials_view(old(self).connecting@).remove(
                    i as int,
                ));
            },
            None => {},
        }
        // cancel any waiters. if there are any, it's because
        // this Connecting task didn't complete successfully.
        // those waiters would never receive a connection.
        match find_queue(&self.waiters, key) {
            Some(i) => {
                self.waiters.remove(i);
                assert(queues_view(self.waiters@) =~= queues_view(old(self).waiters@).remove(
                    i as int,
                ));
            },
            None => {},
        }
    }

    /// Gives `value` back to the pool under `key`, at `now`.
    ///
    /// A second connection that can be shared is dropped where the host has
    /// an idle list. Else the parked checkouts of the host are served first,
    /// in the order in which they came; what is then left of the value goes
    /// to the host's idle list, unless that list is full.
    ///
    /// Reports what became of a value that was left for the idle list, and
    /// nothing of a duplicate or of a value that went to a parked checkout.
    #[verifier::rlimit(50)]
    pub fn put(&mut self, key: &String, value: Conn, now: Instant) -> (outcome: Option<Rest>)
        requires
            old(self).wf(),
        ensures
            final(self).wf(),
            old(self)@.put(final(self)@, key@, value, now),
            old(self)@.put_as(final(self)@, key@, value, now, outcome),
    {
        if value.can_share() && self.idle.peek(key).is_some() {
            return None;
        }
        let ghost pre = self@;
        let left = match find_queue(&self.waiters, key) {
            Some(at) => {
                let mut parked = self.waiters.remove(at);
                let left = fulfil_queue(&mut parked.queue, &mut self.delivered, value);
                proof {
                    lemma_remove(pre.waiters, at as int);
                    lemma_update(pre.waiters, at as int, parked.queue@);
                    assert(queues_view(self.waiters@) =~= pre.waiters.remove(at as int));
                }
                if parked.queue.len() > 0 {
                    self.waiters.insert(at, parked);
                    assert(queues_view(self.waiters@) =~= pre.waiters.update(
                        at as int,
                        (key@, parked.queue@),
                    ));
                }
                left
            },
            None => Some(value),
        };
        let ghost mid = self@;
        assert(mid == pre.offer(key@, value).0);
        assert(left == pre.offer(key@, value).1);
        assert(mid.wf());
        if let Some(value) = left {
            let max = self.max_idle_per_host;
            let entry = Idle { idle_at: now, value };
            let rest = rest_in(self.idle.get_or_insert(key.clone()), entry, max);
            let full = rest == Rest::Full;
            let taken = rest != Rest::Refused;
            let ghost mut kept: int = 0;
            proof {
                if has_key(mid.idle, key@) {
                    lemma_has_key(mid.idle, key@);
                    let i = index_of(mid.idle, key@);
                    lemma_remove(mid.idle, i);
                    let list = if full {
                        mid.idle[i].1
                    } else {
                        mid.idle[i].1.push(entry)
                    };
                    lemma_push_front(mid.idle.remove(i), key@, list);
                    assert(self.idle@ == seq![(key@, list)] + mid.idle.remove(i));
                } else if taken {
                    assert(!full);
                    assert(exists|kept: int|
                        0 <= kept <= mid.idle.len() && kept + 1 <= mid.limit && self.idle@ == seq![
                            (key@, seq![entry]),
                        ] + #[trigger] mid.idle.take(kept));
                    kept = choose|kept: int|
                        0 <= kept <= mid.idle.len() && kept + 1 <= mid.limit && self.idle@ == seq![
                            (key@, seq![entry]),
                        ] + #[trigger] mid.idle.take(kept);
                    lemma_take(mid.idle, kept);
                    lemma_push_front(mid.idle.take(kept), key@, seq![entry]);
                } else {
                    kept = choose|kept: int|
                        0 <= kept <= mid.idle.len() && #[trigger] mid.idle.take(kept)
                            == self.idle@;
                    lemma_take(mid.idle, kept);
                }
                assert(mid.may_store(key@, kept, taken));
            }
            assert(rest == mid.rested(key@, taken));
            if full {
                assert(self@ == mid.store(key@, entry, kept, taken));
                return Some(rest);
            }
            let ghost stored = self@;
            assert(stored.wf());
            self.spawn_idle_interval(now);
            assert(self@ == mid.store(key@, entry, kept, taken));
            Some(rest)
        } else {
            None
        }
    }

    /// Any `FutureResponse`s that were created will have made a `Checkout`,
    /// and possibly inserted into the pool that it is waiting for an idle
    /// connection. If a user ever dropped that future, we need to clean out
    /// those parked senders.
    pub fn clean_waiters(&mut self, key: &String)
        requires
            old(self).wf(),
        ensures
            final(self).wf(),
            final(self)@ == old(self)@.clean_waiters(key@),
    {
        let ghost pre = self@;
        match find_queue(&self.waiters, key) {
            Some(at) => {
                let parked = self.waiters.remove(at);
                let queue = retain_open(&parked.queue);
                proof {
                    lemma_remove(pre.waiters, at as int);
                    lemma_update(pre.waiters, at as int, queue@);
                    assert(queues_view(self.waiters@) =~= pre.waiters.remove(at as int));
                }
                if queue.len() > 0 {
                    self.waiters.insert(at, WaiterQueue { key: parked.key, queue });
                    assert(queues_view(self.waiters@) =~= pre.waiters.update(
                        at as int,
                        (key@, queue@),
                    ));
                }
            },
            None => {},
        }
    }

    /// The checkout of ticket `id`, parked for `key`, has gone away: its
    /// place in the queue is marked, and what was handed to it is dropped.
    pub fn close_waiter(&mut self, key: &String, id: u64)
        requires
            old(self).wf(),
        ensures
            final(self).wf(),
            final(self)@ == old(self)@.close_waiter(key@, id),
    {
        let ghost pre = self@;
        match find_queue(&self.waiters, key) {
            Some(at) => {
                let parked = self.waiters.remove(at);
                let queue = mark_closed(&parked.queue, id);
                proof {
                    lemma_update(pre.waiters, at as int, queue@);
                }
                self.waiters.insert(at, WaiterQueue { key: parked.key, queue });
                assert(queues_view(self.waiters@) =~= pre.waiters.update(
                    at as int,
                    (key@, queue@),
                ));
            },
            None => {},
        }
        self.delivered = drop_deliveries(&self.delivered, id);
    }

    /// Looks for a usable idle connection of `key` at `now`, from the one
    /// that came to rest last; drops what it finds closed or expired on the
    /// way, and the host's list once it is empty.
    pub fn take_idle(&mut self, key: &String, now: Instant) -> (found: Option<Idle>)
        requires
            old(self).wf(),
        ensures
            final(self).wf(),
            final(self)@ == old(self)@.take_idle(key@, now).0,
            found == old(self)@.take_idle(key@, now).1,
    {
        let ghost pre = self@;
        let expiration = Expiration::new(self.timeout);
        let mut found: Option<Idle> = None;
        let mut empty = true;
        match self.idle.get(key) {
            Some(list) => {
                found = pop_usable(list, &expiration, now);
                // No entry found means nuke the list for sure.
                empty = found.is_none() || list.len() == 0;
            },
            None => {},
        }
        proof {
            if has_key(pre.idle, key@) {
                lemma_has_key(pre.idle, key@);
                let i = index_of(pre.idle, key@);
                let rest = list_after_pop(pre.idle[i].1, expiration, now);
                lemma_list_after_pop(pre.idle[i].1, expiration, now);
                lemma_remove(pre.idle, i);
                lemma_push_front(pre.idle.remove(i), key@, rest);
                assert((seq![(key@, rest)] + pre.idle.remove(i)).remove(0) =~= pre.idle.remove(i));
            }
        }
        if empty {
            self.idle.remove(key);
        }
        found
    }

    /// Parks a checkout for `key` behind those already parked, and returns
    /// its ticket.
    pub fn park(&mut self, key: &String) -> (id: u64)
        requires
            old(self).wf(),
            old(self)@.next_waiter < u64::MAX,
        ensures
            final(self).wf(),
            final(self)@ == old(self)@.park(key@).0,
            id == old(self)@.park(key@).1,
    {
        let ghost pre = self@;
        let id = self.next_waiter;
        self.next_waiter = id + 1;
        let waiter = Waiter { id, closed: false };
        match find_queue(&self.waiters, key) {
            Some(at) => {
                let mut parked = self.waiters.remove(at);
                parked.queue.push_back(waiter);
                proof {
                    lemma_update(pre.waiters, at as int, parked.queue@);
                }
                self.waiters.insert(at, parked);
                assert(queues_view(self.waiters@) =~= pre.waiters.update(
                    at as int,
                    (key@, parked.queue@),
                ));
            },
            None => {
                let mut queue: VecDeque<Waiter> = VecDeque::new();
                queue.push_back(waiter);
                assert(queue@ =~= seq![waiter]);
                self.waiters.push(WaiterQueue { key: key.clone(), queue });
                proof {
                    let post = pre.waiters.push((key@, seq![waiter]));
                    assert(queues_view(self.waiters@) =~= post);
                    assert forall|a: int, b: int|
                        0 <= a < post.len() && 0 <= b < post.len() && (#[trigger] post[a]).0 == (
                        #[trigger] post[b]).0 implies a == b by {
                        if a < pre.waiters.len() {
                            assert(post[a] == pre.waiters[a]);
                        }
                        if b < pre.waiters.len() {
                            assert(post[b] == pre.waiters[b]);
                        }
                    }
                }
            },
        }
        id
    }

    /// Collects what was handed to the checkout of ticket `id`, if anything
    /// was.
    pub fn collect(&mut self, id: u64) -> (value: Option<Conn>)
        requires
            old(self).wf(),
        ensures
            final(self).wf(),
            final(self)@ == old(self)@.collect(id).0,
            value == old(self)@.collect(id).1,
    {
        match find_delivery(&self.delivered, id) {
            Some(i) => {
                let hand = self.delivered.remove(i);
                Some(hand.value)
            },
            None => None,
        }
    }

    /// Whether a checkout of ticket `id` is parked.
    pub fn is_parked(&self, id: u64) -> (b: bool)
        ensures
            b == parked(self@.waiters, id),
    {
        let mut i: usize = 0;
        while i < self.waiters.len()
            invariant
                i <= self.waiters@.len(),
                forall|j: int| 0 <= j < i ==> !queue_holds((#[trigger] self@.waiters[j]).1, id),
            decreases self.waiters@.len() - i,
        {
            if queue_has(&self.waiters[i].queue, id) {
                assert(queue_holds(self@.waiters[i as int].1, id));
                return true;
            }
            i += 1;
        }
        false
    }

    /// Sweeps the idle lists at `now`: drops every connection that is closed
    /// or has been idle for longer than the timeout, and every host that is
    /// left without one.
    pub fn clear_expired(&mut self, now: Instant)
        requires
            old(self).wf(),
        ensures
            final(self).wf(),
            final(self)@ == old(self)@.clear_expired(now),
    {
        let ghost pre = self@;
        let expiration = Expiration::new(self.timeout);
        let keys = self.idle.keys();
        let mut i: usize = 0;
        proof {
            assert(pre.idle.take(0) =~= Seq::empty());
            assert(pre.idle.skip(0) =~= pre.idle);
            assert(swept(pre.idle.take(0), expiration, now) + pre.idle.skip(0) =~= pre.idle);
        }
        while i < keys.len()
            invariant
                i <= keys@.len(),
                keys@.len() == pre.idle.len(),
                forall|j: int| 0 <= j < keys@.len() ==> (#[trigger] keys@[j])@ == pre.idle[j].0,
                pre == old(self)@,
                pre.wf(),
                expiration == pre.expiration(),
                self.wf(),
                self@ == (PoolView { idle: self@.idle, ..pre }),
                self@.idle == swept(pre.idle.take(i as int), expiration, now) + pre.idle.skip(
                    i as int,
                ),
            decreases keys@.len() - i,
        {
            let key = &keys[i];
            let ghost cur = self@.idle;
            let ghost done = swept(pre.idle.take(i as int), expiration, now);
            let ghost at = done.len() as int;
            let ghost kept = keep_usable(pre.idle[i as int].1, expiration, now);
            proof {
                assert(cur[at] == pre.idle.skip(i as int)[0]);
                assert(cur[at] == pre.idle[i as int]);
                lemma_index_of(cur, key@, at);
                lemma_keep_usable(pre.idle[i as int].1, expiration, now);
                lemma_update(cur, at, kept);
                lemma_remove(cur.update(at, (key@, kept)), at);
                assert(pre.idle.take(i + 1).drop_last() =~= pre.idle.take(i as int));
                assert(pre.idle.take(i + 1).last() == pre.idle[i as int]);
            }
            let mut empty = false;
            match self.idle.peek_mut(key) {
                Some(values) => {
                    retain_usable(values, &expiration, now);
                    // If the list is empty, remove the key.
                    empty = values.len() == 0;
                },
                None => {},
            }
            if empty {
                self.idle.remove(key);
                proof {
                    assert(self@.idle =~= done + pre.idle.skip(i + 1));
                }
            } else {
                proof {
                    assert(self@.idle =~= done.push((key@, kept)) + pre.idle.skip(i + 1));
                }
            }
            i += 1;
        }
        proof {
            assert(pre.idle.take(pre.idle.len() as int) =~= pre.idle);
            assert(pre.idle.skip(pre.idle.len() as int) =~= Seq::empty());
            assert(swept(pre.idle, expiration, now) + Seq::empty() =~= swept(
                pre.idle,
                expiration,
                now,
            ));
        }
    }

    /// Announces a dial for `key`. Returns whether it may go ahead; it may
    /// not where a dial for the host is in flight already.
    pub fn start_connecting(&mut self, key: &String) -> (fresh: bool)
        requires
            old(self).wf(),
        ensures
            final(self).wf(),
            final(self)@ == old(self)@.start_connecting(key@).0,
            fresh == old(self)@.start_connecting(key@).1,
    {
        let ghost pre = self@;
        match find_key(&self.connecting, key) {
            Some(_) => false,
            None => {
                self.connecting.push(key.clone());
                proof {
                    let post = pre.connecting.push((key@, ()));
                    assert(dials_view(self.connecting@) =~= post);
                    assert forall|a: int, b: int|
                        0 <= a < post.len() && 0 <= b < post.len() && (#[trigger] post[a]).0 == (
                        #[trigger] post[b]).0 implies a == b by {
                        if a < pre.connecting.len() {
                            assert(post[a] == pre.connecting[a]);
                        }
                        if b < pre.connecting.len() {
                            assert(post[b] == pre.connecting[b]);
                        }
                    }
                }
                true
            },
        }
    }

    /// Whether a dial for `key` is in flight.
    pub fn is_connecting(&self, key: &String) -> (b: bool)
        ensures
            b == has_key(self@.connecting, key@),
    {
        find_key(&self.connecting, key).is_some()
    }

    /// The number of idle connections kept for `key`, if the host has a list.
    pub fn idle_len(&self, key: &String) -> (n: Option<usize>)
        ensures
            n is Some == has_key(self@.idle, key@),
            n is Some ==> n->Some_0 == self@.idle[index_of(self@.idle, key@)].1.len(),
    {
        match self.idle.peek(key) {
            Some(list) => Some(list.len()),
            None => None,
        }
    }

    /// The hosts that have an idle list, the one used last in front.
    pub fn idle_keys(&self) -> (keys: Vec<String>)
        ensures
            keys@.len() == self@.idle.len(),
            forall|i: int| 0 <= i < keys@.len() ==> (#[trigger] keys@[i])@ == self@.idle[i].0,
    {
        self.idle.keys()
    }

    /// The number of checkouts parked for `key`, if any are.
    pub fn waiters_len(&self, key: &String) -> (n: Option<usize>)
        requires
            self.wf(),
        ensures
            n is Some == has_key(self@.waiters, key@),
            n is Some ==> n->Some_0 == self@.waiters[index_of(self@.waiters, key@)].1.len(),
    {
        match find_queue(&self.waiters, key) {
            Some(at) => {
                Some(self.waiters[at].queue.len())
            },
            None => None,
        }
    }

    /// Whether a ticket is left for one more parked checkout.
    pub fn has_ticket(&self) -> (b: bool)
        ensures
            b == (self@.next_waiter < u64::MAX),
    {
        self.next_waiter < u64::MAX
    }

    /// The time after which an idle connection expires, if any.
    pub fn timeout(&self) -> (t: Option<Duration>)
        ensures
            t == self@.timeout,
    {
        self.timeout
    }

    /// Takes over the tasks that were given to the executor.
    pub fn take_spawned(&mut self) -> (tasks: Vec<IdleTask>)
        requires
            old(self).wf(),
        ensures
            final(self).wf(),
            tasks@ == old(self)@.spawned,
            final(self)@ == old(self)@.take_spawned(),
    {
        let mut tasks: Vec<IdleTask> = Vec::new();
        std::mem::swap(&mut tasks, &mut self.executor);
        tasks
    }

    /// Hands the sweeper to the executor, unless that was done before or
    /// the pool has no timeout or no timer.
    pub fn spawn_idle_interval(&mut self, now: Instant)
        requires
            old(self).wf(),
        ensures
            final(self).wf(),
            final(self)@ == old(self)@.spawn_idle_interval(now),
    {
        if self.idle_interval_ref {
            return ;
        }
        let dur = if let Some(dur) = self.timeout {
            dur
        } else {
            return ;
        };
        if !self.timer {
            return ;
        }
        self.idle_interval_ref = true;
        let interval = IdleTask { duration: dur, deadline: now };
        self.executor.push(interval);
    }
}

} // verus!
