use wreq_core::pool::conn::{Conn, Poolable, Reservation, Ver};
use wreq_core::pool::inner::{rest_in, IdleTask, Rest};
use wreq_core::pool::{Checkout, Config, Connecting, Error, Poll, Pool, Pooled};
use wreq_core::time::{Duration, Instant};

fn c(key: String) -> Connecting {
    Connecting { key, pool: false }
}

fn host_key(s: &str) -> String {
    format!("http://{s}")
}

fn pool_max_idle_no_timer(max_idle: usize) -> Pool {
    Pool::new(
        Config {
            idle_timeout: Some(Duration::from_millis(100)),
            max_idle_per_host: max_idle,
            max_pool_size: None,
        },
        false,
    )
}

fn pool_no_timer() -> Pool {
    pool_max_idle_no_timer(usize::MAX)
}

/// Test unique reservations.
fn uniq(id: u64) -> Conn {
    Conn::new(id, Ver::Auto)
}

fn at(millis: u64) -> Instant {
    Instant::from_nanos(millis * 1_000_000)
}

fn ready(poll: Poll<Result<Pooled, Error>>) -> Result<Pooled, Error> {
    match poll {
        Poll::Ready(r) => r,
        Poll::Pending => panic!("not ready"),
    }
}

#[test]
fn test_pool_checkout_smoke() {
    let mut pool = pool_no_timer();
    let key = host_key("foo");
    let pooled = pool.pooled(c(key.clone()), uniq(41), at(0));

    pooled.release(&mut pool, at(0));

    let mut checkout = pool.checkout(key);
    match ready(checkout.poll(&mut pool, at(0))) {
        Ok(pooled) => assert_eq!(*pooled.as_ref(), uniq(41)),
        Err(_) => panic!("not ready"),
    };
}

#[test]
fn test_pool_checkout_returns_none_if_expired() {
    let mut pool = pool_no_timer();
    let key = host_key("foo");
    let pooled = pool.pooled(c(key.clone()), uniq(41), at(0));

    pooled.release(&mut pool, at(0));
    // the timeout is 100 ms; one more has passed
    let mut checkout = pool.checkout(key);
    let is_not_ready = matches!(checkout.poll(&mut pool, at(101)), Poll::Pending);
    assert!(is_not_ready);
}

#[test]
fn test_pool_checkout_removes_expired() {
    let mut pool = pool_no_timer();
    let key = host_key("foo");

    pool.pooled(c(key.clone()), uniq(41), at(0)).release(&mut pool, at(0));
    pool.pooled(c(key.clone()), uniq(5), at(0)).release(&mut pool, at(0));
    pool.pooled(c(key.clone()), uniq(99), at(0)).release(&mut pool, at(0));

    assert_eq!(pool.idle_len(&key), Some(3));

    let mut checkout = pool.checkout(key.clone());
    // polling the checkout should clean out the expired
    let _ = checkout.poll(&mut pool, at(101));
    assert!(pool.idle_len(&key).is_none());
}

#[test]
fn test_pool_max_idle_per_host() {
    let mut pool = pool_max_idle_no_timer(2);
    let key = host_key("foo");
    let now = at(0);

    pool.pooled(c(key.clone()), uniq(41), now).release(&mut pool, now);
    pool.pooled(c(key.clone()), uniq(5), now).release(&mut pool, now);
    pool.pooled(c(key.clone()), uniq(99), now).release(&mut pool, now);

    // pooled and dropped 3, max_idle should only allow 2
    assert_eq!(pool.idle_len(&key), Some(2));
}

#[test]
fn test_pool_timer_removes_expired() {
    let mut pool = Pool::new(
        Config {
            idle_timeout: Some(Duration::from_millis(10)),
            max_idle_per_host: usize::MAX,
            max_pool_size: None,
        },
        true,
    );

    let key = host_key("foo");

    pool.pooled(c(key.clone()), uniq(41), at(0)).release(&mut pool, at(0));
    pool.pooled(c(key.clone()), uniq(5), at(0)).release(&mut pool, at(0));
    pool.pooled(c(key.clone()), uniq(99), at(0)).release(&mut pool, at(0));

    assert_eq!(pool.idle_len(&key), Some(3));

    // The first connection at rest asked for the sweeper, once.
    let mut tasks = pool.take_spawned();
    assert_eq!(tasks.len(), 1);
    assert!(pool.take_spawned().is_empty());
    let mut task: IdleTask = tasks.pop().unwrap();
    assert_eq!(task.duration, Duration::from_millis(10));

    // The first wake is due at once and finds nothing expired.
    assert!(matches!(task.poll(&mut pool, at(0)), Poll::Pending));
    assert_eq!(pool.idle_len(&key), Some(3));
    assert_eq!(task.deadline, at(10));

    // Before the deadline the sweeper sleeps on.
    assert!(matches!(task.poll(&mut pool, at(5)), Poll::Pending));
    assert_eq!(task.deadline, at(10));

    // Let the timer tick passed the expiration...
    assert!(matches!(task.poll(&mut pool, at(30)), Poll::Pending));
    assert!(pool.idle_len(&key).is_none());
    // ... and a deadline missed by more than 5 ms is counted anew.
    assert_eq!(task.deadline, at(40));
}

#[test]
fn sweeper_keeps_its_rhythm_when_on_time() {
    let mut pool = pool_no_timer();
    let mut task = IdleTask { duration: Duration::from_millis(10), deadline: at(10) };
    assert!(matches!(task.poll(&mut pool, at(12)), Poll::Pending));
    // 2 ms late is within the slack: the next deadline is 20, not 22.
    assert_eq!(task.deadline, at(20));
}

#[test]
fn sweeper_ends_on_a_disabled_pool() {
    let mut pool = pool_max_idle_no_timer(0);
    assert!(!pool.is_enabled());
    let mut task = IdleTask { duration: Duration::from_millis(10), deadline: at(0) };
    assert!(matches!(task.poll(&mut pool, at(0)), Poll::Ready(())));
}

#[test]
fn test_pool_checkout_task_unparked() {
    let mut pool = pool_no_timer();
    let key = host_key("foo");
    let pooled = pool.pooled(c(key.clone()), uniq(41), at(0));

    // the checkout parks first,
    let mut checkout = pool.checkout(key);
    assert!(matches!(checkout.poll(&mut pool, at(0)), Poll::Pending));
    // and then the loan ends, which puts the connection back into the pool
    //
    // this test makes sure that doing so hands it to the parked checkout
    pooled.release(&mut pool, at(0));

    let got = ready(checkout.poll(&mut pool, at(0))).unwrap();
    assert_eq!(*got.as_ref(), uniq(41));
    assert!(got.is_reused());
}

#[test]
fn test_pool_checkout_drop_cleans_up_waiters() {
    let mut pool = pool_no_timer();
    let key = host_key("foo");

    let mut checkout1 = pool.checkout(key.clone());
    let mut checkout2 = pool.checkout(key.clone());

    // first poll needed to get into Pool's parked
    let _ = checkout1.poll(&mut pool, at(0));
    assert_eq!(pool.waiters_len(&key), Some(1));
    let _ = checkout2.poll(&mut pool, at(0));
    assert_eq!(pool.waiters_len(&key), Some(2));

    // on drop, clean up Pool
    checkout1.release(&mut pool);
    assert_eq!(pool.waiters_len(&key), Some(1));

    checkout2.release(&mut pool);
    assert!(pool.waiters_len(&key).is_none());
}

#[test]
fn pooled_drop_if_closed_doesnt_reinsert() {
    let mut pool = pool_no_timer();
    let key = host_key("foo");
    pool.pooled(c(key.clone()), Conn::new(57, Ver::Auto).closed(), at(0))
        .release(&mut pool, at(0));

    assert!(pool.idle_len(&key).is_none());
}

#[test]
fn test_pool_size_limit() {
    let mut pool = Pool::new(
        Config {
            idle_timeout: Some(Duration::from_millis(100)),
            max_idle_per_host: usize::MAX,
            max_pool_size: Some(2),
        },
        false,
    );
    let key1 = host_key("foo");
    let key2 = host_key("bar");
    let key3 = host_key("baz");

    pool.pooled(c(key1.clone()), uniq(41), at(0)).release(&mut pool, at(0));
    pool.pooled(c(key2.clone()), uniq(5), at(0)).release(&mut pool, at(0));
    pool.pooled(c(key3.clone()), uniq(99), at(0)).release(&mut pool, at(0));

    assert!(pool.idle_len(&key1).is_none());
    assert!(pool.idle_len(&key2).is_some());
    assert!(pool.idle_len(&key3).is_some());
    // the host used last is in front
    assert_eq!(pool.idle_keys(), vec![key3, key2]);
}

#[test]
fn lru_order_follows_use() {
    let mut pool = Pool::new(
        Config { idle_timeout: None, max_idle_per_host: 4, max_pool_size: Some(2) },
        false,
    );
    let a = host_key("a");
    let b = host_key("b");
    let d = host_key("d");
    pool.pooled(c(a.clone()), uniq(1), at(0)).release(&mut pool, at(0));
    pool.pooled(c(b.clone()), uniq(2), at(0)).release(&mut pool, at(0));
    // a checkout of `a` makes it the host used last; its list is then empty
    // and leaves, so that `d` finds room without evicting `b`
    let mut checkout = pool.checkout(a.clone());
    let got = ready(checkout.poll(&mut pool, at(1))).unwrap();
    assert_eq!(got.as_ref().id(), 1);
    assert_eq!(pool.idle_keys(), vec![b.clone()]);
    got.release(&mut pool, at(2));
    assert_eq!(pool.idle_keys(), vec![a.clone(), b.clone()]);
    pool.pooled(c(d.clone()), uniq(3), at(3)).release(&mut pool, at(3));
    assert_eq!(pool.idle_keys(), vec![d, a]);
    assert!(pool.idle_len(&b).is_none());
}

#[test]
fn checkout_takes_the_connection_that_came_to_rest_last() {
    let mut pool = pool_no_timer();
    let key = host_key("foo");
    pool.pooled(c(key.clone()), uniq(1), at(0)).release(&mut pool, at(0));
    pool.pooled(c(key.clone()), uniq(2), at(1)).release(&mut pool, at(1));
    let mut checkout = pool.checkout(key.clone());
    let got = ready(checkout.poll(&mut pool, at(2))).unwrap();
    assert_eq!(got.as_ref().id(), 2);
    assert_eq!(pool.idle_len(&key), Some(1));
}

#[test]
fn checkout_skips_expired_but_keeps_fresh() {
    let mut pool = pool_no_timer();
    let key = host_key("foo");
    pool.pooled(c(key.clone()), uniq(1), at(0)).release(&mut pool, at(0));
    pool.pooled(c(key.clone()), uniq(2), at(50)).release(&mut pool, at(50));
    // at 120 ms the first has been idle for 120 ms, the second for 70 ms
    let mut checkout = pool.checkout(key.clone());
    let got = ready(checkout.poll(&mut pool, at(120))).unwrap();
    assert_eq!(got.as_ref().id(), 2);
    // exactly the timeout is not yet expired
    let mut pool = pool_no_timer();
    pool.pooled(c(key.clone()), uniq(3), at(0)).release(&mut pool, at(0));
    let mut checkout = pool.checkout(key.clone());
    let got = ready(checkout.poll(&mut pool, at(100))).unwrap();
    assert_eq!(got.as_ref().id(), 3);
}

#[test]
fn connecting_is_single_flight_for_http2() {
    let mut pool = pool_no_timer();
    let key = host_key("foo");
    let first = pool.connecting(key.clone(), Ver::Http2).expect("first dial");
    assert!(first.pool);
    assert!(pool.is_connecting(&key));
    for _ in 0..9 {
        assert!(pool.connecting(key.clone(), Ver::Http2).is_none());
    }
    // another host is not held up
    assert!(pool.connecting(host_key("bar"), Ver::Http2).is_some());
    // once the token is given up, the next dial goes ahead
    first.release(&mut pool);
    assert!(!pool.is_connecting(&key));
    assert!(pool.connecting(key.clone(), Ver::Http2).is_some());
}

#[test]
fn connecting_never_holds_up_http1() {
    let mut pool = pool_no_timer();
    let key = host_key("foo");
    let a = pool.connecting(key.clone(), Ver::Auto).expect("dial");
    let b = pool.connecting(key.clone(), Ver::Auto).expect("dial");
    assert!(!a.pool && !b.pool);
    assert!(!pool.is_connecting(&key));
}

#[test]
fn connecting_on_a_disabled_pool() {
    let mut pool = pool_max_idle_no_timer(0);
    let key = host_key("foo");
    let a = pool.connecting(key.clone(), Ver::Http2).expect("dial");
    assert!(!a.pool);
    assert!(pool.connecting(key.clone(), Ver::Http2).is_some());
    let loan = pool.pooled(a, uniq(1), at(0));
    assert!(!loan.is_pool_enabled());
    let mut checkout = pool.checkout(key);
    assert!(matches!(
        checkout.poll(&mut pool, at(0)),
        Poll::Ready(Err(Error::PoolDisabled))
    ));
}

#[test]
fn alpn_h2_trades_the_token() {
    let mut pool = pool_no_timer();
    let key = host_key("foo");
    let plain = pool.connecting(key.clone(), Ver::Auto).unwrap();
    let h2 = plain.alpn_h2(&mut pool).expect("no dial in flight");
    assert!(h2.pool);
    assert!(pool.is_connecting(&key));
    let second = pool.connecting(key.clone(), Ver::Auto).unwrap();
    assert!(second.alpn_h2(&mut pool).is_none());
    assert!(pool.is_connecting(&key));
}

#[test]
fn shared_connection_serves_all_callers() {
    let mut pool = pool_no_timer();
    let key = host_key("foo");
    // ten callers; the first dials, the others park
    let token = pool.connecting(key.clone(), Ver::Http2).unwrap();
    let mut parked: Vec<Checkout> = Vec::new();
    for _ in 0..9 {
        assert!(pool.connecting(key.clone(), Ver::Http2).is_none());
        let mut checkout = pool.checkout(key.clone());
        assert!(matches!(checkout.poll(&mut pool, at(0)), Poll::Pending));
        parked.push(checkout);
    }
    assert_eq!(pool.waiters_len(&key), Some(9));
    let h2 = Conn::new(7, Ver::Http2);
    let loan = pool.pooled(token, h2, at(1));
    assert_eq!(*loan.as_ref(), h2);
    assert!(!loan.is_reused());
    // the pool keeps its copy, so the loan never comes back
    assert!(!loan.is_pool_enabled());
    assert_eq!(pool.idle_len(&key), Some(1));
    assert!(!pool.is_connecting(&key));
    for mut checkout in parked {
        let got = ready(checkout.poll(&mut pool, at(2))).unwrap();
        assert_eq!(*got.as_ref(), h2);
        assert!(got.is_reused());
    }
    // later callers share it too, and it stays
    let mut checkout = pool.checkout(key.clone());
    let got = ready(checkout.poll(&mut pool, at(3))).unwrap();
    assert_eq!(got.as_ref().id(), 7);
    assert_eq!(pool.idle_len(&key), Some(1));
    // a second dial's connection is a duplicate and is dropped
    pool.pooled(c(key.clone()), Conn::new(8, Ver::Http2), at(4));
    assert_eq!(pool.idle_len(&key), Some(1));
    let mut checkout = pool.checkout(key.clone());
    assert_eq!(ready(checkout.poll(&mut pool, at(5))).unwrap().as_ref().id(), 7);
}

#[test]
fn waiters_are_served_first_come_first() {
    let mut pool = pool_no_timer();
    let key = host_key("foo");
    let mut checkouts: Vec<Checkout> = Vec::new();
    for _ in 0..3 {
        let mut checkout = pool.checkout(key.clone());
        assert!(matches!(checkout.poll(&mut pool, at(0)), Poll::Pending));
        checkouts.push(checkout);
    }
    // two connections come back; the third checkout stays parked
    for id in [10u64, 20] {
        Pooled { value: uniq(id), is_reused: false, key: key.clone(), pool: true }
            .release(&mut pool, at(1));
    }
    assert!(pool.idle_len(&key).is_none());
    assert_eq!(pool.waiters_len(&key), Some(1));
    let mut got: Vec<u64> = Vec::new();
    let mut pending = 0;
    for checkout in checkouts.iter_mut() {
        match checkout.poll(&mut pool, at(2)) {
            Poll::Ready(Ok(p)) => got.push(p.as_ref().id()),
            Poll::Ready(Err(_)) => panic!("failed"),
            Poll::Pending => pending += 1,
        }
    }
    assert_eq!(got, vec![10, 20]);
    assert_eq!(pending, 1);
}

#[test]
fn waiters_that_went_away_are_passed_over() {
    let mut pool = pool_no_timer();
    let key = host_key("foo");
    let mut first = pool.checkout(key.clone());
    let mut second = pool.checkout(key.clone());
    let _ = first.poll(&mut pool, at(0));
    let _ = second.poll(&mut pool, at(0));
    first.release(&mut pool);
    Pooled { value: uniq(1), is_reused: true, key: key.clone(), pool: true }
        .release(&mut pool, at(1));
    let got = ready(second.poll(&mut pool, at(1))).unwrap();
    assert_eq!(got.as_ref().id(), 1);
    assert!(pool.waiters_len(&key).is_none());
}

#[test]
fn failed_dial_lets_waiters_go() {
    let mut pool = pool_no_timer();
    let key = host_key("foo");
    let token = pool.connecting(key.clone(), Ver::Http2).unwrap();
    let mut checkout = pool.checkout(key.clone());
    assert!(matches!(checkout.poll(&mut pool, at(0)), Poll::Pending));
    token.release(&mut pool);
    match checkout.poll(&mut pool, at(1)) {
        Poll::Ready(Err(e)) => {
            assert_eq!(e, Error::CheckoutNoLongerWanted);
            assert!(!e.is_canceled());
            assert_eq!(e.message(), "request was canceled");
        }
        _ => panic!("the checkout must fail"),
    }
}

#[test]
fn closed_value_handed_to_a_waiter() {
    let mut pool = pool_no_timer();
    let key = host_key("foo");
    let mut checkout = pool.checkout(key.clone());
    assert!(matches!(checkout.poll(&mut pool, at(0)), Poll::Pending));
    // a shared connection that was closed by the time the dial handed it over
    let token = pool.connecting(key.clone(), Ver::Http2).unwrap();
    pool.pooled(token, Conn::new(3, Ver::Http2).closed(), at(0));
    match checkout.poll(&mut pool, at(1)) {
        Poll::Ready(Err(e)) => {
            assert_eq!(e, Error::CheckedOutClosedValue);
            assert!(e.is_canceled());
            assert_eq!(e.message(), "checked out connection was closed");
        }
        _ => panic!("the checkout must fail"),
    }
    assert_eq!(Error::PoolDisabled.message(), "pool is disabled");
}

#[test]
fn steps_of_the_state_behind_a_pool() {
    let key = host_key("foo");
    let mut state = wreq_core::pool::inner::PoolInner::new(1, 1, None, false);
    let id = state.park(&key);
    assert!(state.is_parked(id));
    assert_eq!(state.waiters_len(&key), Some(1));
    state.put(&key, uniq(9), at(0));
    assert_eq!(state.collect(id), Some(uniq(9)));
    assert_eq!(state.collect(id), None);
    assert!(!state.is_parked(id));
    assert!(state.idle_len(&key).is_none());
    // without a timeout nothing expires, but what is closed is swept
    state.put(&key, uniq(1), at(0));
    state.clear_expired(at(1_000_000));
    assert_eq!(state.idle_len(&key), Some(1));
    assert_eq!(state.take_idle(&key, at(2_000_000)).map(|e| e.value.id()), Some(1));
    assert!(state.take_idle(&key, at(2_000_000)).is_none());
    assert!(state.has_ticket());
    assert!(state.timeout().is_none());
}

#[test]
fn reservation_of_a_handle() {
    let h1 = Conn::new(1, Ver::Auto);
    assert!(h1.is_open());
    assert!(!h1.can_share());
    assert!(matches!(h1.reserve(), Reservation::Unique(c) if c == h1));
    let h2 = Conn::new(2, Ver::Http2);
    assert!(h2.can_share());
    assert!(matches!(h2.reserve(), Reservation::Shared(a, b) if a == h2 && b == h2));
    assert!(!h2.closed().is_open());
    assert_eq!(h2.ver(), Ver::Http2);
}

#[test]
fn reuse_marks_the_loan() {
    let pool = pool_no_timer();
    let key = host_key("foo");
    let loan = pool.reuse(&key, uniq(1));
    assert!(loan.is_reused());
    assert!(loan.is_pool_enabled());
    let loan = pool.reuse(&key, Conn::new(2, Ver::Http2));
    assert!(!loan.is_pool_enabled());
    let mut loan = pool.reuse(&key, uniq(3));
    *loan.as_mut() = loan.as_ref().closed();
    assert!(!loan.as_ref().is_open());
}

#[test]
fn durations_and_instants() {
    assert_eq!(Duration::from_millis(3).as_nanos(), 3_000_000);
    assert_eq!(Duration::from_secs(2).as_nanos(), 2_000_000_000);
    assert_eq!(Duration::from_secs(u64::MAX).as_nanos(), u64::MAX);
    assert!(Duration::zero().is_zero());
    let t = Instant::from_nanos(10);
    assert_eq!(t.saturating_duration_since(Instant::from_nanos(4)), Duration::from_nanos(6));
    assert_eq!(t.saturating_duration_since(Instant::from_nanos(40)), Duration::from_nanos(0));
    assert_eq!(t.saturating_add(Duration::from_nanos(5)).as_nanos(), 15);
    assert_eq!(t.saturating_add(Duration::from_nanos(u64::MAX)).as_nanos(), u64::MAX);
    assert_eq!(t.saturating_sub(Duration::from_nanos(11)).as_nanos(), 0);
}

#[test]
fn resting_in_what_the_idle_map_answers() {
    let entry = |id: u64| wreq_core::pool::idle::Idle { idle_at: at(0), value: uniq(id) };
    // under a cap of two, the third arrival is dropped and the first two stay
    let mut list = Vec::new();
    assert_eq!(rest_in(Some(&mut list), entry(41), 2), Rest::Stored);
    assert_eq!(rest_in(Some(&mut list), entry(5), 2), Rest::Stored);
    assert_eq!(rest_in(Some(&mut list), entry(99), 2), Rest::Full);
    assert_eq!(list, vec![entry(41), entry(5)]);
    // without a list there is nowhere to rest
    assert_eq!(rest_in(None, entry(1), 2), Rest::Refused);
}

#[test]
fn put_reports_what_became_of_the_value() {
    let key = host_key("foo");
    let mut state = wreq_core::pool::inner::PoolInner::new(2, 4, None, false);
    assert_eq!(state.put(&key, uniq(1), at(0)), Some(Rest::Stored));
    assert_eq!(state.put(&key, uniq(2), at(0)), Some(Rest::Stored));
    // the list is full: the new arrival is the one to go
    assert_eq!(state.put(&key, uniq(3), at(0)), Some(Rest::Full));
    assert_eq!(state.idle_len(&key), Some(2));
    // a parked checkout takes the value before it comes to rest
    let other = host_key("bar");
    let id = state.park(&other);
    assert_eq!(state.put(&other, uniq(4), at(0)), None);
    assert_eq!(state.collect(id), Some(uniq(4)));
    // a second shared connection is a duplicate
    let h2 = host_key("h2");
    assert_eq!(state.put(&h2, Conn::new(5, Ver::Http2), at(0)), Some(Rest::Stored));
    assert_eq!(state.put(&h2, Conn::new(6, Ver::Http2), at(0)), None);
    // the end of a loan reports the same
    let mut pool = pool_max_idle_no_timer(1);
    assert_eq!(pool.pooled(c(key.clone()), uniq(1), at(0)).release(&mut pool, at(0)), Some(Rest::Stored));
    assert_eq!(pool.pooled(c(key.clone()), uniq(2), at(0)).release(&mut pool, at(0)), Some(Rest::Full));
    assert_eq!(pool.pooled(c(key.clone()), uniq(3).closed(), at(0)).release(&mut pool, at(0)), None);
}
