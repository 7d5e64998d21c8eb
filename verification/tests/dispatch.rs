use wreq_core::body::Body;
use wreq_core::client::builder::ClientBuilder;
use wreq_core::client::dispatch::{
    begin, checkout_won, dial_won, late_dial, map_transport_error, Begin, Breakdown,
};
use wreq_core::client::request::Request;
use wreq_core::client::service::HttpRequest;
use wreq_core::connect::Connected;
use wreq_core::error::Kind;
use wreq_core::ext::Extensions;
use wreq_core::header::map::HeaderMap;
use wreq_core::method::{Method, Version};
use wreq_core::pool::conn::{Conn, Ver};
use wreq_core::pool::inner::Rest;
use wreq_core::pool::{Config, Poll, Pool};
use wreq_core::retry::Http2RetryPolicy;
use wreq_core::time::{Duration, Instant};

fn pool() -> Pool {
    Pool::new(
        Config {
            idle_timeout: Some(Duration::from_secs(90)),
            max_idle_per_host: usize::MAX,
            max_pool_size: None,
        },
        false,
    )
}

fn at(millis: u64) -> Instant {
    Instant::from_nanos(millis * 1_000_000)
}

#[test]
fn second_request_reuses_the_connection() {
    let mut pool = pool();
    let key = "https://example.com:443".to_string();
    let mut dials = 0;
    // the first request finds nothing idle: it waits and dials
    let loan = match begin(&mut pool, key.clone(), Ver::Auto, at(0)) {
        Begin::Race { checkout, dial: Some(token) } => {
            dials += 1;
            dial_won(&mut pool, checkout, token, Conn::new(1, Ver::Auto), at(5))
        }
        other => panic!("the first request must dial, got {other:?}"),
    };
    assert!(!loan.is_reused());
    assert!(pool.waiters_len(&key).is_none());
    loan.release(&mut pool, at(10));
    // the second finds the connection of the first
    let loan = match begin(&mut pool, key.clone(), Ver::Auto, at(20)) {
        Begin::Reused(loan) => loan,
        other => panic!("the second request must reuse, got {other:?}"),
    };
    assert!(loan.is_reused());
    assert_eq!(loan.as_ref().id(), 1);
    assert_eq!(dials, 1);
}

#[test]
fn http2_requests_share_one_dial() {
    let mut pool = pool();
    let key = "https://example.com:443".to_string();
    let (first, token) = match begin(&mut pool, key.clone(), Ver::Http2, at(0)) {
        Begin::Race { checkout, dial: Some(token) } => (checkout, token),
        other => panic!("the first request must dial, got {other:?}"),
    };
    let mut waiting = Vec::new();
    for _ in 0..9 {
        match begin(&mut pool, key.clone(), Ver::Http2, at(1)) {
            Begin::Race { checkout, dial: None } => waiting.push(checkout),
            other => panic!("one dial is enough, got {other:?}"),
        }
    }
    let shared = Conn::new(4, Ver::Http2);
    let loan = dial_won(&mut pool, first, token, shared, at(2));
    assert_eq!(*loan.as_ref(), shared);
    for mut checkout in waiting {
        match checkout.poll(&mut pool, at(3)) {
            Poll::Ready(Ok(loan)) => assert_eq!(*loan.as_ref(), shared),
            other => panic!("all share the connection, got {other:?}"),
        }
    }
}

#[test]
fn a_returned_connection_beats_the_dial() {
    let mut pool = pool();
    let key = "http://example.com:80".to_string();
    let (mut checkout, token) = match begin(&mut pool, key.clone(), Ver::Http2, at(0)) {
        Begin::Race { checkout, dial: Some(token) } => (checkout, token),
        other => panic!("must race, got {other:?}"),
    };
    assert!(pool.is_connecting(&key));
    // another request gives its connection back before the dial ends
    wreq_core::pool::Pooled { value: Conn::new(1, Ver::Auto), is_reused: false, key: key.clone(), pool: true }
        .release(&mut pool, at(1));
    let loan = match checkout.poll(&mut pool, at(2)) {
        Poll::Ready(Ok(loan)) => loan,
        other => panic!("the checkout is served, got {other:?}"),
    };
    assert_eq!(loan.as_ref().id(), 1);
    checkout_won(&mut pool, Some(token));
    assert!(!pool.is_connecting(&key));
    checkout_won(&mut pool, None);
    // a dial that ends late leaves its connection to the pool
    let late = pool.connecting(key.clone(), Ver::Auto).unwrap();
    late_dial(&mut pool, late, Conn::new(2, Ver::Auto), at(3));
    assert_eq!(pool.idle_len(&key), Some(1));
}

#[test]
fn a_disabled_pool_only_dials() {
    let mut pool = Pool::new(
        Config { idle_timeout: None, max_idle_per_host: 0, max_pool_size: None },
        false,
    );
    match begin(&mut pool, "k".to_string(), Ver::Http2, at(0)) {
        Begin::Dial(token) => assert!(!token.pool),
        other => panic!("must dial, got {other:?}"),
    }
}

#[test]
fn transport_errors_and_retry() {
    let (error, failure) = map_transport_error(Breakdown::ClosedBeforeResponse, true);
    assert_eq!(error.kind, Kind::Request);
    assert!(Http2RetryPolicy::new(2).retry(failure).is_some());
    let (error, failure) = map_transport_error(Breakdown::AfterResponseStarted, true);
    assert_eq!(error.kind, Kind::Body);
    assert!(Http2RetryPolicy::new(2).retry(failure).is_none());
    let (_, failure) = map_transport_error(Breakdown::ClosedBeforeResponse, false);
    assert!(Http2RetryPolicy::new(2).retry(failure).is_none());
}

#[test]
fn poisoned_connections_are_seen_closed() {
    let connected = Connected::new();
    let handle = Conn::new(1, Ver::Auto);
    assert_eq!(handle.observed(true, &connected), (handle, false));
    assert_eq!(handle.observed(false, &connected), (handle.closed(), false));
    connected.poison();
    assert_eq!(handle.observed(true, &connected), (handle.closed(), true));
    // and what is seen closed does not go back to rest
    let mut pool = pool();
    let key = "k".to_string();
    let (seen, _) = handle.observed(true, &connected);
    wreq_core::pool::Pooled { value: seen, is_reused: true, key: key.clone(), pool: true }
        .release(&mut pool, at(0));
    assert!(pool.idle_len(&key).is_none());
}

#[test]
fn requests_from_the_form_of_the_transport() {
    let req = HttpRequest {
        method: Method::Put,
        uri: "https://example.com/x?y".to_string(),
        version: Version::Http11,
        headers: HeaderMap::new(),
        body: Body::from_bytes(b"b".to_vec()),
        extensions: Extensions::new(),
    };
    let request = Request::try_from_http(req).unwrap();
    assert!(matches!(request.method(), Method::Put));
    assert_eq!(request.url().as_string(), "https://example.com/x?y");
    assert_eq!(request.body().unwrap().as_bytes(), Some(&b"b"[..]));
    let bad = HttpRequest {
        method: Method::Get,
        uri: "/relative".to_string(),
        version: Version::Http11,
        headers: HeaderMap::new(),
        body: Body::empty(),
        extensions: Extensions::new(),
    };
    assert_eq!(Request::try_from_http(bad).unwrap_err().kind, Kind::Builder);
}

#[test]
fn cookie_store_switch() {
    assert_eq!(ClientBuilder::new().cookie_store(true, 7).config.cookie_store, Some(7));
    assert_eq!(ClientBuilder::new().cookie_provider(1).cookie_store(false, 7).config.cookie_store, None);
}

#[test]
fn a_poisoned_connection_is_not_put_back() {
    let key = "k".to_string();
    let loan = |id: u64| wreq_core::pool::Pooled {
        value: Conn::new(id, Ver::Auto),
        is_reused: true,
        key: "k".to_string(),
        pool: true,
    };
    let mut pool = pool();
    let connected = Connected::new();
    assert_eq!(loan(1).release_observed(&mut pool, true, &connected, at(0)), (false, Some(Rest::Stored)));
    assert_eq!(pool.idle_len(&key), Some(1));
    // a dead transport
    assert_eq!(loan(2).release_observed(&mut pool, false, &connected, at(0)), (false, None));
    // a poisoned connection, also through a copy of its record
    connected.clone().poison();
    assert_eq!(loan(3).release_observed(&mut pool, true, &connected, at(0)), (true, None));
    assert_eq!(pool.idle_len(&key), Some(1));
}
