//! What holds of the pool whatever is done with it, proved from the
//! definitions of its steps.

use vstd::prelude::*;
use crate::pool::assoc::{
    has_key, index_of, lemma_has_key, lemma_index_of, lemma_push_front, lemma_remove,
    lemma_take, lemma_update, value_of,
};
use crate::pool::conn::{Conn, Poolable};
use crate::pool::idle::{lemma_last_usable, last_usable, list_after_pop, Expiration, Idle};
use crate::pool::inner::{
    closed_for, fulfil, queue_holds, still_waiting, Delivery, PoolView, Waiter,
};
use crate::time::Instant;

verus! {

/// Single flight: while a dial for a host is on record, no second dial for
/// it is let through, and the record stays as it is.
pub proof fn law_one_dial_per_host(s: PoolView, key: Seq<char>)
    requires
        s.wf(),
    ensures
        has_key(s.start_connecting(key).0.connecting, key),
        !s.start_connecting(key).0.start_connecting(key).1,
        s.start_connecting(key).0.start_connecting(key).0 == s.start_connecting(key).0,
        s.start_connecting(key).0.wf(),
{
    let t = s.start_connecting(key).0;
    if !has_key(s.connecting, key) {
        assert(t.connecting[s.connecting.len() as int].0 == key);
        assert forall|a: int, b: int|
            0 <= a < t.connecting.len() && 0 <= b < t.connecting.len() && (
            #[trigger] t.connecting[a]).0 == (#[trigger] t.connecting[b]).0 implies a == b by {
            if a < s.connecting.len() {
                assert(t.connecting[a] == s.connecting[a]);
            }
            if b < s.connecting.len() {
                assert(t.connecting[b] == s.connecting[b]);
            }
        }
    }
}

/// Once the token of a dial was given up, the next dial for the host is let
/// through.
pub proof fn law_dial_free_after_release(s: PoolView, key: Seq<char>)
    requires
        s.wf(),
    ensures
        !has_key(s.connected(key).connecting, key),
        s.connected(key).start_connecting(key).1,
        s.connected(key).wf(),
{
    if has_key(s.connecting, key) {
        lemma_has_key(s.connecting, key);
        lemma_remove(s.connecting, index_of(s.connecting, key));
    }
    if has_key(s.waiters, key) {
        lemma_has_key(s.waiters, key);
        lemma_remove(s.waiters, index_of(s.waiters, key));
    }
}

/// No step but the two on dials changes which dials are on record.
pub proof fn law_dials_kept(s: PoolView, post: PoolView, key: Seq<char>, value: Conn, now: Instant)
    ensures
        s.put(post, key, value, now) ==> post.connecting == s.connecting,
        s.take_idle(key, now).0.connecting == s.connecting,
        s.park(key).0.connecting == s.connecting,
        s.clear_expired(now).connecting == s.connecting,
        s.clean_waiters(key).connecting == s.connecting,
{
}

/// The state after the connections `values` were offered, one after the
/// other, to the checkouts parked for `key`.
pub open spec fn offer_each(s: PoolView, key: Seq<char>, values: Seq<Conn>) -> PoolView
    decreases values.len(),
{
    if values.len() == 0 {
        s
    } else {
        offer_each(s, key, values.drop_last()).offer(key, values.last()).0
    }
}

/// First come, first served: where `n` connections that must be held alone
/// are offered to the checkouts parked for a host, none of which has gone
/// away, the first `n` of them get one each, in the order in which they were
/// parked, and the others stay parked in their order.
pub proof fn law_waiters_fifo(s: PoolView, key: Seq<char>, values: Seq<Conn>)
    requires
        s.wf(),
        has_key(s.waiters, key),
        values.len() <= value_of(s.waiters, key).len(),
        forall|i: int| 0 <= i < values.len() ==> !(#[trigger] values[i]).shareable(),
        forall|i: int|
            0 <= i < value_of(s.waiters, key).len() ==> !(#[trigger] value_of(
                s.waiters,
                key,
            )[i]).closed,
    ensures
        offer_each(s, key, values).wf(),
        offer_each(s, key, values).delivered == s.delivered + Seq::new(
            values.len(),
            |i: int| Delivery { waiter: value_of(s.waiters, key)[i].id, value: values[i] },
        ),
        values.len() < value_of(s.waiters, key).len() ==> has_key(
            offer_each(s, key, values).waiters,
            key,
        ) && value_of(offer_each(s, key, values).waiters, key) == value_of(s.waiters, key).skip(
            values.len() as int,
        ),
        values.len() == value_of(s.waiters, key).len() ==> !has_key(
            offer_each(s, key, values).waiters,
            key,
        ),
    decreases values.len(),
{
    let queue = value_of(s.waiters, key);
    let n = values.len() as int;
    let handed = Seq::new(
        values.len(),
        |i: int| Delivery { waiter: queue[i].id, value: values[i] },
    );
    lemma_has_key(s.waiters, key);
    if n == 0 {
        assert(s.delivered + handed =~= s.delivered);
        assert(queue.skip(0) =~= queue);
        assert(queue.len() > 0);
    } else {
        let front = values.drop_last();
        law_waiters_fifo(s, key, front);
        let mid = offer_each(s, key, front);
        let at = index_of(mid.waiters, key);
        lemma_has_key(mid.waiters, key);
        let rest = queue.skip(n - 1);
        assert(value_of(mid.waiters, key) == rest);
        assert(rest[0] == queue[n - 1]);
        assert(rest.drop_first() =~= queue.skip(n));
        let last = values.last();
        assert(last == values[n - 1]);
        assert(fulfil(rest, last) == (
            rest.drop_first(),
            seq![Delivery { waiter: rest[0].id, value: last }],
            None::<Conn>,
        ));
        let front_handed = Seq::new(
            front.len(),
            |i: int| Delivery { waiter: queue[i].id, value: front[i] },
        );
        assert(s.delivered + front_handed + seq![Delivery { waiter: rest[0].id, value: last }]
            =~= s.delivered + handed);
        let post = mid.offer(key, last).0;
        if queue.skip(n).len() == 0 {
            lemma_remove(mid.waiters, at);
        } else {
            lemma_update(mid.waiters, at, queue.skip(n));
        }
    }
}

/// What `store` makes of the state when `entries` are put to rest under
/// `key` one after the other; the idle map answers the first of them by
/// `kept` and `taken`.
pub open spec fn store_each(
    s: PoolView,
    key: Seq<char>,
    entries: Seq<Idle>,
    kept: int,
    taken: bool,
) -> PoolView
    decreases entries.len(),
{
    if entries.len() == 0 {
        s
    } else {
        store_each(s, key, entries.drop_last(), kept, taken).store(
            key,
            entries.last(),
            kept,
            taken,
        )
    }
}

/// The idle cap: where connections are put to rest under a host that had
/// no idle list, and the idle map takes the host, the list holds as many as
/// were put to rest, but never more than the pool allows for one host.
pub proof fn law_idle_cap(s: PoolView, key: Seq<char>, entries: Seq<Idle>, kept: int)
    requires
        s.wf(),
        !has_key(s.idle, key),
        s.may_store(key, kept, true),
        entries.len() >= 1,
    ensures
        store_each(s, key, entries, kept, true).wf(),
        store_each(s, key, entries, kept, true).max_idle_per_host == s.max_idle_per_host,
        has_key(store_each(s, key, entries, kept, true).idle, key),
        value_of(store_each(s, key, entries, kept, true).idle, key).len() == (if entries.len()
            <= s.max_idle_per_host {
            entries.len()
        } else {
            s.max_idle_per_host
        }),
    decreases entries.len(),
{
    let front = entries.drop_last();
    let mid = store_each(s, key, front, kept, true);
    if front.len() == 0 {
        assert(mid == s);
        lemma_take(s.idle, kept);
        lemma_push_front(s.idle.take(kept), key, seq![entries.last()]);
    } else {
        law_idle_cap(s, key, front, kept);
        lemma_has_key(mid.idle, key);
        let i = index_of(mid.idle, key);
        lemma_remove(mid.idle, i);
        let list = mid.idle[i].1;
        if mid.max_idle_per_host <= list.len() {
            lemma_push_front(mid.idle.remove(i), key, list);
        } else {
            lemma_push_front(mid.idle.remove(i), key, list.push(entries.last()));
        }
    }
}

/// Where no checkout is parked for a host, giving back a connection that
/// is no duplicate puts it to rest: `put` is `store`.
pub proof fn law_put_stores(s: PoolView, post: PoolView, key: Seq<char>, value: Conn, now: Instant)
    requires
        s.wf(),
        !has_key(s.waiters, key),
        !(value.shareable() && has_key(s.idle, key)),
    ensures
        s.put(post, key, value, now) <==> exists|kept: int, taken: bool|
            s.may_store(key, kept, taken) && post == #[trigger] s.store(
                key,
                Idle { idle_at: now, value },
                kept,
                taken,
            ),
{
}

/// Every state that the pool's steps keep to holds no idle list longer than
/// the pool allows for one host, and no more hosts than it allows in all.
pub proof fn law_idle_bounds(s: PoolView, key: Seq<char>)
    requires
        s.wf(),
        has_key(s.idle, key),
    ensures
        value_of(s.idle, key).len() <= s.max_idle_per_host,
        s.idle.len() <= s.limit,
{
    lemma_has_key(s.idle, key);
}

/// The state after one connection was put to rest under each of `keys` in
/// turn, each time with the idle map taking the host and keeping as many of
/// the others as `kept` says.
pub open spec fn store_hosts(s: PoolView, keys: Seq<Seq<char>>, entry: Idle, kept: Seq<int>) -> PoolView
    decreases keys.len(),
{
    if keys.len() == 0 {
        s
    } else {
        store_hosts(s, keys.drop_last(), entry, kept).store(
            keys.last(),
            entry,
            kept[keys.len() - 1],
            true,
        )
    }
}

/// Whether the idle map may answer each insertion of `store_hosts` as
/// `kept` says.
pub open spec fn may_store_hosts(s: PoolView, keys: Seq<Seq<char>>, entry: Idle, kept: Seq<int>) -> bool
    decreases keys.len(),
{
    if keys.len() == 0 {
        true
    } else {
        &&& may_store_hosts(s, keys.drop_last(), entry, kept)
        &&& store_hosts(s, keys.drop_last(), entry, kept).may_store(
            keys.last(),
            kept[keys.len() - 1],
            true,
        )
    }
}

/// After connections were put to rest under distinct hosts in turn, in a
/// pool that had none idle, the idle hosts are the last ones of `keys`, the
/// latest in front.
proof fn lemma_store_hosts(s: PoolView, keys: Seq<Seq<char>>, entry: Idle, kept: Seq<int>)
    requires
        s.wf(),
        s.idle.len() == 0,
        kept.len() >= keys.len(),
        keys.no_duplicates(),
        may_store_hosts(s, keys, entry, kept),
    ensures
        ({
            let t = store_hosts(s, keys, entry, kept);
            &&& t.wf()
            &&& t.limit == s.limit
            &&& t.idle.len() <= keys.len()
            &&& forall|j: int|
                0 <= j < t.idle.len() ==> (#[trigger] t.idle[j]).0 == keys[keys.len() - 1 - j]
        }),
    decreases keys.len(),
{
    if keys.len() > 0 {
        let front = keys.drop_last();
        lemma_store_hosts(s, front, entry, kept);
        let mid = store_hosts(s, front, entry, kept);
        let key = keys.last();
        let k = kept[keys.len() - 1];
        if has_key(mid.idle, key) {
            lemma_has_key(mid.idle, key);
            let j = index_of(mid.idle, key);
            assert(mid.idle[j].0 == front[front.len() - 1 - j]);
            assert(keys[front.len() - 1 - j] == keys[keys.len() - 1]);
            assert(false);
        }
        lemma_take(mid.idle, k);
        lemma_push_front(mid.idle.take(k), key, seq![entry]);
        let t = store_hosts(s, keys, entry, kept);
        assert(t.idle == seq![(key, seq![entry])] + mid.idle.take(k));
        assert forall|j: int| 0 <= j < t.idle.len() implies (#[trigger] t.idle[j]).0 == keys[keys.len()
            - 1 - j] by {
            if j > 0 {
                assert(t.idle[j] == mid.idle[j - 1]);
                assert(front[front.len() - 1 - (j - 1)] == keys[keys.len() - 1 - j]);
            }
        }
    }
}

/// Least recently used goes first: once connections were put to rest under
/// more distinct hosts than the pool may hold, each taken by the idle map,
/// the host that came first has no idle list.
pub proof fn law_lru_eviction(s: PoolView, keys: Seq<Seq<char>>, entry: Idle, kept: Seq<int>)
    requires
        s.wf(),
        s.idle.len() == 0,
        kept.len() == keys.len(),
        keys.no_duplicates(),
        keys.len() > s.limit,
        may_store_hosts(s, keys, entry, kept),
    ensures
        !has_key(store_hosts(s, keys, entry, kept).idle, keys[0]),
        store_hosts(s, keys, entry, kept).idle.len() <= s.limit,
{
    lemma_store_hosts(s, keys, entry, kept);
    let t = store_hosts(s, keys, entry, kept);
    if has_key(t.idle, keys[0]) {
        lemma_has_key(t.idle, keys[0]);
        let j = index_of(t.idle, keys[0]);
        assert(t.idle[j].0 == keys[keys.len() - 1 - j]);
        assert(keys.len() - 1 - j != 0);
        assert(false);
    }
}

/// Expiration on checkout: what a checkout finds idle is open and has not
/// been idle for longer than the timeout; and an entry that has is never
/// what it finds.
pub proof fn law_checkout_skips_expired(s: PoolView, key: Seq<char>, now: Instant)
    requires
        s.wf(),
    ensures
        s.take_idle(key, now).1 is Some ==> s.expiration().usable(
            s.take_idle(key, now).1->Some_0,
            now,
        ),
        s.take_idle(key, now).1 is Some && s.timeout is Some ==> now.nanos
            <= s.take_idle(key, now).1->Some_0.idle_at.nanos + s.timeout->Some_0.nanos,
        s.take_idle(key, now).0.wf(),
{
    if has_key(s.idle, key) {
        lemma_has_key(s.idle, key);
        let i = index_of(s.idle, key);
        let list = s.idle[i].1;
        lemma_last_usable(list, s.expiration(), now);
        lemma_remove(s.idle, i);
        let rest = list_after_pop(list, s.expiration(), now);
        lemma_push_front(s.idle.remove(i), key, rest);
    }
}

/// A list of which every entry has been idle for longer than the timeout
/// gives a checkout nothing, and the host loses its list.
pub proof fn law_all_expired(s: PoolView, key: Seq<char>, now: Instant)
    requires
        s.wf(),
        s.timeout is Some,
        has_key(s.idle, key),
        forall|i: int|
            0 <= i < value_of(s.idle, key).len() ==> now.nanos > (#[trigger] value_of(
                s.idle,
                key,
            )[i]).idle_at.nanos + s.timeout->Some_0.nanos,
    ensures
        s.take_idle(key, now).1 is None,
        !has_key(s.take_idle(key, now).0.idle, key),
{
    lemma_has_key(s.idle, key);
    let i = index_of(s.idle, key);
    let list = s.idle[i].1;
    lemma_last_usable(list, s.expiration(), now);
    let j = last_usable(list, s.expiration(), now);
    if j >= 0 {
        assert(s.expiration().usable(list[j], now));
        assert(value_of(s.idle, key)[j] == list[j]);
        assert(false);
    }
    lemma_remove(s.idle, i);
}

/// Expiration on checkout, seen from the checkout: where every idle
/// connection of the host has been idle for longer than the timeout, a
/// checkout that holds no ticket finds none of them and is parked.
pub proof fn law_expired_checkout_parks(
    s: PoolView,
    checkout: crate::pool::Checkout,
    now: Instant,
)
    requires
        s.wf(),
        s.timeout is Some,
        s.next_waiter < u64::MAX,
        checkout.waiter is None,
        has_key(s.idle, checkout.key@),
        forall|i: int|
            0 <= i < value_of(s.idle, checkout.key@).len() ==> now.nanos > (#[trigger] value_of(
                s.idle,
                checkout.key@,
            )[i]).idle_at.nanos + s.timeout->Some_0.nanos,
    ensures
        checkout.checked_out(s, now).2 is None,
        checkout.checked_out(s, now).1 == Some(s.next_waiter as u64),
        crate::pool::inner::parked(
            checkout.checked_out(s, now).0.waiters,
            s.next_waiter as u64,
        ),
{
    law_all_expired(s, checkout.key@, now);
    let taken = s.take_idle(checkout.key@, now).0;
    let key = checkout.key@;
    let id = s.next_waiter as u64;
    let post = taken.park(key).0;
    if has_key(taken.waiters, key) {
        lemma_has_key(taken.waiters, key);
        let i = index_of(taken.waiters, key);
        let queue = taken.waiters[i].1.push(Waiter { id, closed: false });
        assert(post.waiters[i].1 == queue);
        assert(queue[queue.len() - 1].id == id);
        assert(queue_holds(post.waiters[i].1, id));
    } else {
        let i = taken.waiters.len() as int;
        assert(post.waiters[i].1 == seq![Waiter { id, closed: false }]);
        assert(post.waiters[i].1[0].id == id);
        assert(queue_holds(post.waiters[i].1, id));
    }
}

/// What `still_waiting` keeps has not gone away and was in the queue.
proof fn lemma_still_waiting(queue: Seq<Waiter>)
    ensures
        forall|i: int|
            0 <= i < still_waiting(queue).len() ==> !(#[trigger] still_waiting(queue)[i]).closed
                && queue.contains(still_waiting(queue)[i]),
    decreases queue.len(),
{
    if queue.len() > 0 {
        let front = queue.drop_last();
        lemma_still_waiting(front);
        let kept = still_waiting(queue);
        assert forall|i: int| 0 <= i < kept.len() implies !(#[trigger] kept[i]).closed
            && queue.contains(kept[i]) by {
            if i < still_waiting(front).len() {
                let w = still_waiting(front)[i];
                assert(kept[i] == w);
                let j = choose|j: int| 0 <= j < front.len() && front[j] == w;
                assert(queue[j] == w);
            } else {
                assert(kept[i] == queue.last());
                assert(queue[queue.len() - 1] == queue.last());
            }
        }
    }
}

/// Giving up a parked checkout clears it out: once a checkout of ticket
/// `id` has gone away, the queue of its host holds no checkout of that
/// ticket, and nothing handed to that ticket waits to be collected.
pub proof fn law_drop_cleans_waiters(s: PoolView, key: Seq<char>, id: u64)
    requires
        s.wf(),
    ensures
        ({
            let t = s.close_waiter(key, id).clean_waiters(key);
            &&& t.wf()
            &&& has_key(t.waiters, key) ==> !queue_holds(value_of(t.waiters, key), id)
            &&& t.collect(id).1 is None
        }),
{
    let c = s.close_waiter(key, id);
    let t = c.clean_waiters(key);
    lemma_not_for(s.delivered, id);
    if has_key(s.waiters, key) {
        lemma_has_key(s.waiters, key);
        let i = index_of(s.waiters, key);
        let marked = closed_for(s.waiters[i].1, id);
        lemma_update(s.waiters, i, marked);
        assert(has_key(c.waiters, key));
        lemma_index_of(c.waiters, key, i);
        let queue = still_waiting(marked);
        lemma_still_waiting(marked);
        if queue.len() == 0 {
            lemma_remove(c.waiters, i);
        } else {
            lemma_update(c.waiters, i, queue);
            assert(value_of(t.waiters, key) == queue);
            if queue_holds(queue, id) {
                let j = choose|j: int| 0 <= j < queue.len() && (#[trigger] queue[j]).id == id;
                let w = queue[j];
                let k = choose|k: int| 0 <= k < marked.len() && marked[k] == w;
                assert(marked[k].closed);
                assert(false);
            }
        }
    } else {
        assert(c.waiters == s.waiters);
    }
}

/// Nothing is left for a ticket once the hand-overs to it were dropped.
proof fn lemma_not_for(delivered: Seq<Delivery>, id: u64)
    ensures
        crate::pool::inner::delivery_index(crate::pool::inner::not_for(delivered, id), id) < 0,
    decreases delivered.len(),
{
    let kept = crate::pool::inner::not_for(delivered, id);
    lemma_no_delivery(kept, id, delivered);
}

/// A sequence of hand-overs none of which is to `id` has no place for `id`.
proof fn lemma_no_delivery(kept: Seq<Delivery>, id: u64, delivered: Seq<Delivery>)
    requires
        kept == crate::pool::inner::not_for(delivered, id),
    ensures
        forall|i: int| 0 <= i < kept.len() ==> (#[trigger] kept[i]).waiter != id,
        crate::pool::inner::delivery_index(kept, id) < 0,
    decreases delivered.len(),
{
    if delivered.len() > 0 {
        let front = crate::pool::inner::not_for(delivered.drop_last(), id);
        lemma_no_delivery(front, id, delivered.drop_last());
    }
    lemma_index_absent(kept, id);
}

/// Where no hand-over is to `id`, the place of `id` is -1.
proof fn lemma_index_absent(kept: Seq<Delivery>, id: u64)
    requires
        forall|i: int| 0 <= i < kept.len() ==> (#[trigger] kept[i]).waiter != id,
    ensures
        crate::pool::inner::delivery_index(kept, id) < 0,
    decreases kept.len(),
{
    if kept.len() > 0 {
        assert forall|i: int| 0 <= i < kept.drop_first().len() implies (
        #[trigger] kept.drop_first()[i]).waiter != id by {
            assert(kept.drop_first()[i] == kept[i + 1]);
        }
        lemma_index_absent(kept.drop_first(), id);
    }
}

/// While a dial for a host is on record, every further dial for it is
/// refused and leaves the state as it is, however many callers ask; and no
/// step but the end of the dial takes it off the record (`law_dials_kept`).
pub proof fn law_dial_refused_while_on_record(s: PoolView, key: Seq<char>)
    requires
        has_key(s.connecting, key),
    ensures
        !s.start_connecting(key).1,
        s.start_connecting(key).0 == s,
{
}

/// What `store` does to a well-formed state: the state stays well formed,
/// nothing but the idle map and the sweeper changes, and the list of the
/// host is the one that `rested` reports.
pub proof fn lemma_store(s: PoolView, key: Seq<char>, entry: Idle, kept: int, taken: bool)
    requires
        s.wf(),
        s.may_store(key, kept, taken),
    ensures
        ({
            let t = s.store(key, entry, kept, taken);
            &&& t.wf()
            &&& t.waiters == s.waiters
            &&& t.connecting == s.connecting
            &&& t.max_idle_per_host == s.max_idle_per_host
            &&& t.limit == s.limit
            &&& t.timeout == s.timeout
            &&& has_key(t.idle, key) == (s.rested(key, taken) != crate::pool::inner::Rest::Refused)
            &&& has_key(t.idle, key) ==> value_of(t.idle, key) == (match s.rested(key, taken) {
                crate::pool::inner::Rest::Full => value_of(s.idle, key),
                _ => if has_key(s.idle, key) {
                    value_of(s.idle, key).push(entry)
                } else {
                    seq![entry]
                },
            })
        }),
{
    if has_key(s.idle, key) {
        lemma_has_key(s.idle, key);
        let i = index_of(s.idle, key);
        lemma_remove(s.idle, i);
        let list = s.idle[i].1;
        if s.max_idle_per_host <= list.len() {
            lemma_push_front(s.idle.remove(i), key, list);
        } else {
            lemma_push_front(s.idle.remove(i), key, list.push(entry));
        }
    } else {
        lemma_take(s.idle, kept);
        if taken {
            lemma_push_front(s.idle.take(kept), key, seq![entry]);
        }
    }
}

/// Whether `states` are the states of a pool before, between and after the
/// puts of `values` under `key`, one after the other, with what each put
/// reported.
pub open spec fn puts(
    states: Seq<PoolView>,
    key: Seq<char>,
    values: Seq<Conn>,
    times: Seq<Instant>,
    outcomes: Seq<Option<crate::pool::inner::Rest>>,
) -> bool {
    &&& states.len() == values.len() + 1
    &&& times.len() == values.len()
    &&& outcomes.len() == values.len()
    &&& forall|i: int|
        0 <= i < values.len() ==> states[i].put_as(
            states[i + 1],
            key,
            values[i],
            times[i],
            #[trigger] outcomes[i],
        )
}

/// The length of the idle list of `key`; zero where the host has none.
pub open spec fn idle_count(s: PoolView, key: Seq<char>) -> nat {
    if has_key(s.idle, key) {
        value_of(s.idle, key).len()
    } else {
        0
    }
}

proof fn lemma_puts(
    states: Seq<PoolView>,
    key: Seq<char>,
    values: Seq<Conn>,
    times: Seq<Instant>,
    outcomes: Seq<Option<crate::pool::inner::Rest>>,
)
    requires
        puts(states, key, values, times, outcomes),
        states[0].wf(),
        values.len() >= 1,
        !has_key(states[0].waiters, key),
        !has_key(states[0].idle, key),
        forall|i: int| 0 <= i < values.len() ==> !(#[trigger] values[i]).shareable(),
        outcomes[0] != Some(crate::pool::inner::Rest::Refused),
    ensures
        states.last().wf(),
        !has_key(states.last().waiters, key),
        states.last().max_idle_per_host == states[0].max_idle_per_host,
        has_key(states.last().idle, key),
        idle_count(states.last(), key) == (if values.len() <= states[0].max_idle_per_host {
            values.len()
        } else {
            states[0].max_idle_per_host
        }),
    decreases values.len(),
{
    let m = values.len() as int;
    let pre = states[m - 1];
    let post = states[m];
    assert(states.last() == post);
    if m > 1 {
        let front = states.take(m);
        assert forall|i: int| 0 <= i < m - 1 implies front[i].put_as(
            front[i + 1],
            key,
            values.take(m - 1)[i],
            times.take(m - 1)[i],
            #[trigger] outcomes.take(m - 1)[i],
        ) by {
            assert(states[i].put_as(states[i + 1], key, values[i], times[i], outcomes[i]));
        }
        assert forall|i: int| 0 <= i < m - 1 implies !(#[trigger] values.take(m - 1)[i]).shareable() by {
            assert(values.take(m - 1)[i] == values[i]);
        }
        lemma_puts(front, key, values.take(m - 1), times.take(m - 1), outcomes.take(m - 1));
        assert(front.last() == pre);
    }
    // the last put
    assert(pre.put_as(post, key, values[m - 1], times[m - 1], outcomes[m - 1]));
    assert(!values[m - 1].shareable());
    let entry = Idle { idle_at: times[m - 1], value: values[m - 1] };
    let (kept, taken) = choose|kept: int, taken: bool|
        pre.may_store(key, kept, taken) && post == #[trigger] pre.store(key, entry, kept, taken)
            && outcomes[m - 1] == Some(pre.rested(key, taken));
    lemma_store(pre, key, entry, kept, taken);
    if has_key(pre.idle, key) {
        lemma_has_key(pre.idle, key);
    }
}

/// The idle cap, of `put` itself: where connections that must be held alone
/// are given back for a host that had no idle list and no parked checkout,
/// one after the other, and the first of the puts did not report that the
/// idle map refused the host, then after every put the list of the host
/// holds as many as were given back so far, but never more than a host may
/// have.
pub proof fn law_idle_cap_of_put(
    states: Seq<PoolView>,
    key: Seq<char>,
    values: Seq<Conn>,
    times: Seq<Instant>,
    outcomes: Seq<Option<crate::pool::inner::Rest>>,
)
    requires
        puts(states, key, values, times, outcomes),
        states[0].wf(),
        values.len() >= 1,
        !has_key(states[0].waiters, key),
        !has_key(states[0].idle, key),
        forall|i: int| 0 <= i < values.len() ==> !(#[trigger] values[i]).shareable(),
        outcomes[0] != Some(crate::pool::inner::Rest::Refused),
    ensures
        forall|n: int|
            1 <= n <= values.len() ==> has_key((#[trigger] states[n]).idle, key) && idle_count(
                states[n],
                key,
            ) == (if n <= states[0].max_idle_per_host {
                n as nat
            } else {
                states[0].max_idle_per_host
            }),
{
    assert forall|n: int| 1 <= n <= values.len() implies has_key((#[trigger] states[n]).idle, key)
        && idle_count(states[n], key) == (if n <= states[0].max_idle_per_host {
        n as nat
    } else {
        states[0].max_idle_per_host
    }) by {
        let front = states.take(n + 1);
        assert forall|i: int| 0 <= i < n implies front[i].put_as(
            front[i + 1],
            key,
            values.take(n)[i],
            times.take(n)[i],
            #[trigger] outcomes.take(n)[i],
        ) by {
            assert(states[i].put_as(states[i + 1], key, values[i], times[i], outcomes[i]));
        }
        assert forall|i: int| 0 <= i < n implies !(#[trigger] values.take(n)[i]).shareable() by {
            assert(values.take(n)[i] == values[i]);
        }
        lemma_puts(front, key, values.take(n), times.take(n), outcomes.take(n));
        assert(front.last() == states[n]);
    }
}

/// Reuse: a connection that must be held alone, was open when it was given
/// back with no checkout parked for its host, and of which `put` reported
/// that it came to rest, is what the next checkout of the host finds, as
/// long as it has not been idle for longer than the timeout.
pub proof fn law_reuse_after_put(
    s: PoolView,
    post: PoolView,
    key: Seq<char>,
    value: Conn,
    at: Instant,
    now: Instant,
)
    requires
        s.wf(),
        !has_key(s.waiters, key),
        value.open(),
        !value.shareable(),
        s.put_as(post, key, value, at, Some(crate::pool::inner::Rest::Stored)),
        !post.expiration().expired(at, now),
    ensures
        post.wf(),
        post.take_idle(key, now).1 == Some(Idle { idle_at: at, value }),
{
    let entry = Idle { idle_at: at, value };
    let (kept, taken) = choose|kept: int, taken: bool|
        s.may_store(key, kept, taken) && post == #[trigger] s.store(key, entry, kept, taken)
            && Some(crate::pool::inner::Rest::Stored) == Some(s.rested(key, taken));
    lemma_store(s, key, entry, kept, taken);
    if has_key(s.idle, key) {
        lemma_has_key(s.idle, key);
    }
    lemma_has_key(post.idle, key);
    let list = value_of(post.idle, key);
    assert(list.last() == entry);
    assert(post.expiration().usable(entry, now));
}

} // verus!
