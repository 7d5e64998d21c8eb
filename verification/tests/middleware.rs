use wreq_core::body::Body;
use wreq_core::config::AcceptEncoding;
use wreq_core::connect::{Alpn, Connected, ExtraValue, PoisonPill, ResponseExtensions};
use wreq_core::error::Kind;
use wreq_core::header::map::HeaderMap;
use wreq_core::header::{HeaderName, HeaderValue};
use wreq_core::method::{Method, Version};
use wreq_core::response::Response;
use wreq_core::middleware::{advertise, apply_cookies, collect_cookies, detect, Coding};
use wreq_core::redirect::follow::{Attempt, Next, RedirectPolicy};
use wreq_core::redirect::policy::{Action, Policy, Refusal};
use wreq_core::retry::{Failure, Http2RetryPolicy};
use wreq_core::time::{Duration, Instant};
use wreq_core::timeout::{
    body_timeout_error, effective_timeout, request_timeout_error, BodyTimers, Expired,
};
use wreq_core::url::Url;

fn name(s: &str) -> HeaderName {
    HeaderName::from_str(s).unwrap()
}

fn value(s: &str) -> HeaderValue {
    HeaderValue::from_str(s).unwrap()
}

fn map(fields: &[(&str, &str)]) -> HeaderMap {
    let mut m = HeaderMap::new();
    for (n, v) in fields {
        m.append(name(n), value(v));
    }
    m
}

fn fields(m: &HeaderMap) -> Vec<(String, String)> {
    (0..m.len())
        .map(|i| {
            (
                String::from_utf8(m.name_at(i).as_bytes().to_vec()).unwrap(),
                String::from_utf8(m.value_at(i).as_bytes().to_vec()).unwrap(),
            )
        })
        .collect()
}

fn pairs(fields: &[(&str, &str)]) -> Vec<(String, String)> {
    fields.iter().map(|(n, v)| (n.to_string(), v.to_string())).collect()
}

fn attempt(method: Method, url: &str, headers: HeaderMap, body: Option<Body>) -> Attempt {
    Attempt { method, url: Url::parse(url).unwrap(), headers, body }
}

fn follow(policy: RedirectPolicy, a: Attempt, status: u16, location: &str) -> (Next, Vec<String>) {
    let mut previous = Vec::new();
    let next = policy.on_response(a, status, Some(location), &mut previous, None, Action::Follow);
    (next, previous)
}

fn default_policy() -> RedirectPolicy {
    RedirectPolicy::new(Policy::default()).with_referer(true)
}

#[test]
fn redirect_strips_credentials_across_hosts() {
    let a = attempt(
        Method::Get,
        "https://first.example/start",
        map(&[("authorization", "Bearer X"), ("accept", "*/*"), ("cookie", "a=b"),
              ("proxy-authorization", "p"), ("www-authenticate", "w")]),
        Some(Body::empty()),
    );
    let (next, previous) = follow(default_policy(), a, 302, "https://other.example/");
    match next {
        Next::Follow(n) => {
            // the second request must omit Authorization
            assert_eq!(
                fields(&n.headers),
                pairs(&[("accept", "*/*"), ("referer", "https://first.example/start")])
            );
            // and the final URL is that of the location
            assert_eq!(n.url.as_string(), "https://other.example/");
            assert!(n.method.is_get());
        }
        other => panic!("must follow, got {other:?}"),
    }
    assert_eq!(previous, vec!["https://first.example/start".to_string()]);
}

#[test]
fn redirect_keeps_credentials_on_the_same_host() {
    let a = attempt(
        Method::Get,
        "https://u:p@first.example/a#frag",
        map(&[("authorization", "Bearer X")]),
        Some(Body::empty()),
    );
    let (next, _) = follow(default_policy(), a, 301, "/b");
    match next {
        Next::Follow(n) => {
            assert_eq!(
                fields(&n.headers),
                // the referer names the URL left, without fragment and credentials
                pairs(&[("authorization", "Bearer X"), ("referer", "https://first.example/a")])
            );
            assert_eq!(n.url.as_string(), "https://u:p@first.example/b");
        }
        other => panic!("must follow, got {other:?}"),
    }
    // another port is another server
    let a = attempt(Method::Get, "https://first.example/", map(&[("cookie", "c")]), Some(Body::empty()));
    let (next, _) = follow(RedirectPolicy::new(Policy::default()), a, 301, "https://first.example:444/");
    assert!(matches!(next, Next::Follow(n) if n.headers.is_empty()));
}

#[test]
fn redirect_method_and_body() {
    let body = || Some(Body::from_bytes(b"data".to_vec()));
    let policy = RedirectPolicy::new(Policy::default());
    for (status, method, becomes_get) in [
        (301, Method::Post, true),
        (302, Method::Post, true),
        (303, Method::Post, true),
        (303, Method::Put, true),
        (303, Method::Get, true),
        (301, Method::Put, false),
        (302, Method::Delete, false),
        (307, Method::Post, false),
        (308, Method::Post, false),
    ] {
        let was_put = matches!(method, Method::Put);
        let was_delete = matches!(method, Method::Delete);
        let a = attempt(method, "https://e.com/", HeaderMap::new(), body());
        match follow(policy, a, status, "/next").0 {
            Next::Follow(n) => {
                if becomes_get {
                    assert!(n.method.is_get(), "status {status}");
                    assert!(matches!(n.body, Some(Body::Empty)));
                } else {
                    assert!(!n.method.is_get());
                    assert!(matches!(n.method, Method::Put) == was_put);
                    assert!(matches!(n.method, Method::Delete) == was_delete);
                    assert_eq!(n.body.unwrap().as_bytes(), Some(&b"data"[..]));
                }
            }
            other => panic!("must follow, got {other:?}"),
        }
    }
}

#[test]
fn redirect_that_is_not_followed() {
    let policy = RedirectPolicy::new(Policy::default());
    let a = || attempt(Method::Post, "https://e.com/", HeaderMap::new(), Some(Body::empty()));
    // no redirect status
    assert!(matches!(follow(policy, a(), 200, "/x").0, Next::Done));
    assert!(matches!(follow(policy, a(), 304, "/x").0, Next::Done));
    // no location
    let mut previous = Vec::new();
    assert!(matches!(
        policy.on_response(a(), 302, None, &mut previous, None, Action::Follow),
        Next::Done
    ));
    // a body that cannot be sent again, whatever the policy
    let streaming = attempt(Method::Post, "https://e.com/", HeaderMap::new(), None);
    assert!(matches!(follow(policy, streaming, 307, "/x").0, Next::Done));
    let streaming = attempt(Method::Post, "https://e.com/", HeaderMap::new(), None);
    assert!(matches!(follow(policy, streaming, 308, "/x").0, Next::Done));
    // but a 303 needs no body
    let streaming = attempt(Method::Post, "https://e.com/", HeaderMap::new(), None);
    assert!(matches!(follow(policy, streaming, 303, "/x").0, Next::Follow(_)));
    // the policy says no
    assert!(matches!(follow(RedirectPolicy::new(Policy::none()), a(), 302, "/x").0, Next::Done));
    let mut previous = Vec::new();
    assert!(matches!(
        RedirectPolicy::new(Policy::custom()).on_response(a(), 302, Some("/x"), &mut previous, None, Action::Stop),
        Next::Done
    ));
    // the policy of the request overrides that of the client
    let mut previous = Vec::new();
    assert!(matches!(
        policy.on_response(a(), 302, Some("/x"), &mut previous, Some(Policy::none()), Action::Follow),
        Next::Done
    ));
    assert!(previous.is_empty());
}

#[test]
fn redirect_errors() {
    let a = || attempt(Method::Get, "https://e.com/", HeaderMap::new(), Some(Body::empty()));
    let policy = RedirectPolicy::new(Policy::default());
    match follow(policy, a(), 302, "https://[bad").0 {
        Next::Error(e) => assert_eq!(e.kind, Kind::Redirect),
        other => panic!("must fail, got {other:?}"),
    }
    // a client that is HTTPS only refuses any other hop
    match follow(policy.with_https_only(true), a(), 302, "http://e.com/").0 {
        Next::Error(e) => {
            assert!(e.is_redirect());
            assert_eq!(e.url().unwrap().as_string(), "http://e.com/");
        }
        other => panic!("must fail, got {other:?}"),
    }
    assert!(matches!(follow(policy.with_https_only(true), a(), 302, "https://e.com/x").0, Next::Follow(_)));
    // the way from HTTPS to HTTP is not named in a referer
    match follow(policy.with_referer(true), a(), 302, "http://e.com/").0 {
        Next::Follow(n) => assert!(n.headers.is_empty()),
        other => panic!("must follow, got {other:?}"),
    }
    // a loop ends the request
    let mut previous = vec!["https://e.com/a".to_string()];
    match policy.on_response(a(), 302, Some("/a"), &mut previous, None, Action::Follow) {
        Next::Error(e) => assert_eq!(e.message, "infinite redirect loop detected"),
        other => panic!("must fail, got {other:?}"),
    }
    // and so do too many redirects
    let limited = RedirectPolicy::new(Policy::limited(2));
    let mut previous = vec!["https://e.com/1".to_string(), "https://e.com/2".to_string()];
    assert!(matches!(
        limited.on_response(a(), 302, Some("/3"), &mut previous, None, Action::Follow),
        Next::Follow(_)
    ));
    assert_eq!(previous.len(), 3);
    match limited.on_response(a(), 302, Some("/4"), &mut previous, None, Action::Follow) {
        Next::Error(e) => assert_eq!(e.message, "too many redirects"),
        other => panic!("must fail, got {other:?}"),
    }
    match RedirectPolicy::new(Policy::custom()).on_response(
        a(), 302, Some("/x"), &mut Vec::new(), None, Action::Error(Refusal::Policy),
    ) {
        Next::Error(e) => assert_eq!(e.message, "redirect refused"),
        other => panic!("must fail, got {other:?}"),
    }
}

#[test]
fn policies_decide() {
    let next = "https://e.com/n".to_string();
    let seen = vec!["https://e.com/a".to_string()];
    assert_eq!(Policy::default(), Policy::Limited(10));
    assert_eq!(Policy::none().redirect(&next, &seen, Action::Follow), Action::Stop);
    assert_eq!(Policy::limited(1).redirect(&next, &seen, Action::Stop), Action::Follow);
    assert_eq!(
        Policy::limited(0).redirect(&next, &seen, Action::Follow),
        Action::Error(Refusal::TooManyRedirects)
    );
    assert_eq!(
        Policy::limited(5).redirect(&seen[0], &seen, Action::Follow),
        Action::Error(Refusal::LoopDetected)
    );
    assert_eq!(Policy::custom().redirect(&next, &seen, Action::Stop), Action::Stop);
}

#[test]
fn retry_after_goaway() {
    // the server accepts the connection and sends GOAWAY before any stream
    let canceled = Failure { canceled_before_headers: true, body_cloneable: true };
    let policy = Http2RetryPolicy::new(2);
    let second = policy.retry(canceled).expect("the first failure is retried");
    assert_eq!(second.budget, 1);
    let third = second.retry(canceled).expect("the second failure is retried");
    assert_eq!(third.budget, 0);
    assert!(third.retry(canceled).is_none());
    // nothing else is retried
    assert!(policy.retry(Failure { canceled_before_headers: false, body_cloneable: true }).is_none());
    assert!(policy.retry(Failure { canceled_before_headers: true, body_cloneable: false }).is_none());
    assert!(Http2RetryPolicy::new(0).retry(canceled).is_none());
}

fn at(millis: u64) -> Instant {
    Instant::from_nanos(millis * 1_000_000)
}

#[test]
fn read_timeout_fires_when_the_body_stalls() {
    // headers at once, then the server stalls
    let mut timers = BodyTimers::start(at(0), at(1), None, Some(Duration::from_millis(100)));
    assert_eq!(timers.next_wake(), Some(at(101)));
    assert_eq!(timers.expired(at(100)), None);
    assert_eq!(timers.expired(at(101)), Some(Expired::Read));
    let e = body_timeout_error(Expired::Read);
    assert!(e.is_timeout() && e.is_body());
    // the timer on the whole exchange fails the request, also during the body
    let e = body_timeout_error(Expired::Total);
    assert!(e.is_timeout() && e.is_request());
    // every read starts the timer anew
    timers.on_read(at(90));
    assert_eq!(timers.expired(at(150)), None);
    assert_eq!(timers.next_wake(), Some(at(190)));
    assert_eq!(timers.expired(at(190)), Some(Expired::Read));
}

#[test]
fn total_timeout_spans_the_body() {
    let mut timers =
        BodyTimers::start(at(0), at(40), Some(Duration::from_millis(100)), Some(Duration::from_millis(30)));
    assert_eq!(timers.next_wake(), Some(at(70)));
    timers.on_read(at(60));
    timers.on_read(at(85));
    assert_eq!(timers.next_wake(), Some(at(100)));
    assert_eq!(timers.expired(at(99)), None);
    assert_eq!(timers.expired(at(100)), Some(Expired::Total));
    let none = BodyTimers::start(at(0), at(0), None, None);
    assert_eq!(none.next_wake(), None);
    assert_eq!(none.expired(at(1_000_000)), None);
    let e = request_timeout_error();
    assert!(e.is_timeout() && e.is_request());
}

#[test]
fn request_timeouts_replace_those_of_the_client() {
    let a = Some(Duration::from_secs(1));
    let b = Some(Duration::from_secs(2));
    assert_eq!(effective_timeout(a, b), a);
    assert_eq!(effective_timeout(None, b), b);
    assert_eq!(effective_timeout(a, None), a);
    assert_eq!(effective_timeout(None, None), None);
}

#[test]
fn codings_are_announced() {
    let mut headers = map(&[("a", "1")]);
    advertise(&mut headers, AcceptEncoding::new());
    assert_eq!(fields(&headers), pairs(&[("a", "1"), ("accept-encoding", "gzip, br, zstd, deflate")]));
    let mut headers = HeaderMap::new();
    advertise(&mut headers, AcceptEncoding { gzip: false, brotli: true, zstd: false, deflate: true });
    assert_eq!(fields(&headers), pairs(&[("accept-encoding", "br, deflate")]));
    // a request that speaks for itself, or asks for a range, is left alone
    let mut headers = map(&[("accept-encoding", "identity")]);
    advertise(&mut headers, AcceptEncoding::new());
    assert_eq!(fields(&headers), pairs(&[("accept-encoding", "identity")]));
    let mut headers = map(&[("range", "bytes=0-1")]);
    advertise(&mut headers, AcceptEncoding::new());
    assert_eq!(fields(&headers), pairs(&[("range", "bytes=0-1")]));
    let mut headers = HeaderMap::new();
    advertise(&mut headers, AcceptEncoding { gzip: false, brotli: false, zstd: false, deflate: false });
    assert!(headers.is_empty());
}

#[test]
fn encoded_responses_lose_their_length() {
    let mut headers = map(&[("content-encoding", "GZIP"), ("content-length", "10"), ("x", "y")]);
    assert_eq!(detect(&mut headers, AcceptEncoding::new()), Some(Coding::Gzip));
    assert_eq!(fields(&headers), pairs(&[("x", "y")]));
    for (token, coding) in [("br", Coding::Brotli), ("zstd", Coding::Zstd), (" deflate ", Coding::Deflate)] {
        let mut headers = map(&[("content-encoding", token)]);
        assert_eq!(detect(&mut headers, AcceptEncoding::new()), Some(coding));
    }
    // a coding that is switched off, or unknown, is left to the caller
    let mut headers = map(&[("content-encoding", "gzip"), ("content-length", "10")]);
    let off = AcceptEncoding { gzip: false, brotli: true, zstd: true, deflate: true };
    assert_eq!(detect(&mut headers, off), None);
    assert_eq!(headers.len(), 2);
    let mut headers = map(&[("content-encoding", "compress")]);
    assert_eq!(detect(&mut headers, AcceptEncoding::new()), None);
    let mut headers = map(&[("content-length", "10")]);
    assert_eq!(detect(&mut headers, AcceptEncoding::new()), None);
    assert_eq!(headers.len(), 1);
}

#[test]
fn cookies_are_applied_and_collected() {
    let mut headers = map(&[("a", "1")]);
    apply_cookies(&mut headers, Some(value("k=v; l=w")));
    assert_eq!(fields(&headers), pairs(&[("a", "1"), ("cookie", "k=v; l=w")]));
    apply_cookies(&mut headers, Some(value("other=1")));
    assert_eq!(headers.len(), 2);
    apply_cookies(&mut headers, None);
    assert_eq!(headers.len(), 2);
    let response = map(&[("set-cookie", "a=1"), ("x", "y"), ("Set-Cookie", "b=2; Path=/")]);
    let set: Vec<&[u8]> = collect_cookies(&response).iter().map(|v| v.as_bytes()).collect();
    assert_eq!(set, vec![&b"a=1"[..], &b"b=2; Path=/"[..]]);
}

#[test]
fn connected_metadata() {
    let c = Connected::new();
    assert!(!c.is_proxied());
    assert!(!c.is_negotiated_h2());
    assert_eq!(c.alpn, Alpn::Unset);
    let c = c.proxy(true).negotiated_h2();
    assert!(c.is_proxied());
    assert!(c.is_negotiated_h2());
    assert!(!Connected::default().is_proxied());
    let c = c
        .extra(ExtraValue { kind: 1, token: 10 })
        .extra(ExtraValue { kind: 2, token: 20 })
        .extra(ExtraValue { kind: 1, token: 30 });
    let mut extensions = ResponseExtensions::new();
    extensions.insert(ExtraValue { kind: 3, token: 1 });
    c.get_extras(&mut extensions);
    // of two values of a kind the later one stays
    assert_eq!(
        extensions.values,
        vec![
            ExtraValue { kind: 3, token: 1 },
            ExtraValue { kind: 1, token: 30 },
            ExtraValue { kind: 2, token: 20 },
        ]
    );
    let copy = c.clone();
    assert!(copy.is_proxied() && copy.is_negotiated_h2());
    assert_eq!(copy.extra.as_ref().unwrap().chain.len(), 3);
    // the copy shares the poison pill
    assert!(!copy.is_poisoned());
    c.poison();
    assert!(copy.is_poisoned());
    let pill = PoisonPill::healthy();
    assert!(!pill.poisoned());
    let shared = pill.clone();
    shared.poison();
    assert!(pill.poisoned());
}

#[test]
fn status_errors_are_raised_on_request_only() {
    let response = |status: u16| Response {
        status,
        version: Version::Http11,
        headers: HeaderMap::new(),
        url: Url::parse("https://first.example/").unwrap(),
        extensions: ResponseExtensions::new(),
        body: 1,
        content_length: Some(3),
    };
    for status in [200u16, 204, 302, 399, 600] {
        assert_eq!(response(status).error_for_status().unwrap().status(), status);
    }
    for status in [400u16, 404, 500, 599] {
        let e = response(status).error_for_status().unwrap_err();
        assert_eq!(e.kind, Kind::Status(status));
        assert!(e.is_status());
        assert_eq!(e.url().unwrap().as_string(), "https://first.example/");
    }
    // after a redirect the response names the URL that answered
    let r = response(200).with_url(Url::parse("https://other.example/").unwrap());
    assert_eq!(r.url().as_string(), "https://other.example/");
    assert_eq!(r.content_length(), Some(3));
    assert_eq!(r.version(), Version::Http11);
    assert!(r.headers().is_empty());
}
