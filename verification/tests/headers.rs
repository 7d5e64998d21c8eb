use wreq_core::bytes::{eq_ignore_ascii_case, trim_range};
use wreq_core::header::map::HeaderMap;
use wreq_core::header::order::{merge_defaults, replace_headers, sort_headers};
use wreq_core::header::original::OriginalHeaders;
use wreq_core::header::{HeaderName, HeaderValue, InvalidHeaderName, InvalidHeaderValue};
use wreq_core::method::Method;
use wreq_core::proto::headers::{
    add_chunked, connection_close, connection_has, connection_keep_alive,
    content_length_parse_all, content_length_parse_all_values, is_chunked, is_chunked_,
    method_has_defined_payload_semantics, set_content_length_if_missing,
    transfer_encoding_is_chunked,
};
use wreq_core::proto::pieces::{find_piece_end, from_digits, number_in};

fn name(s: &str) -> HeaderName {
    HeaderName::from_str(s).expect("header name")
}

fn value(s: &str) -> HeaderValue {
    HeaderValue::from_str(s).expect("header value")
}

fn map(fields: &[(&str, &str)]) -> HeaderMap {
    let mut m = HeaderMap::new();
    for (n, v) in fields {
        m.append(name(n), value(v));
    }
    m
}

fn fields(m: &HeaderMap) -> Vec<(String, String)> {
    (0..m.len())
        .map(|i| {
            (
                String::from_utf8(m.name_at(i).as_bytes().to_vec()).unwrap(),
                String::from_utf8(m.value_at(i).as_bytes().to_vec()).unwrap(),
            )
        })
        .collect()
}

fn pairs(fields: &[(&str, &str)]) -> Vec<(String, String)> {
    fields.iter().map(|(n, v)| (n.to_string(), v.to_string())).collect()
}

#[test]
fn header_names_are_lowered_and_checked() {
    assert_eq!(name("Content-Length").as_bytes(), b"content-length");
    assert_eq!(HeaderName::from_bytes(b"X-a_b.c~").unwrap().as_bytes(), b"x-a_b.c~");
    assert_eq!(HeaderName::from_bytes(b"").unwrap_err(), InvalidHeaderName);
    assert!(HeaderName::from_bytes(b"a b").is_err());
    assert!(HeaderName::from_bytes(b"a:b").is_err());
    assert!(HeaderName::from_bytes(b"caf\xc3\xa9").is_err());
    assert!(HeaderName::from_bytes(&vec![b'a'; 65535]).is_ok());
    assert!(HeaderName::from_bytes(&vec![b'a'; 65536]).is_err());
    assert!(name("accept").is(&name("ACCEPT")));
    assert!(!name("accept").is(&name("accept-encoding")));
}

#[test]
fn header_values_are_checked() {
    assert_eq!(value("a b\tc").as_bytes(), b"a b\tc");
    assert_eq!(HeaderValue::from_str("a\nb").unwrap_err(), InvalidHeaderValue);
    // text beyond ASCII is a value, though it does not read back as text
    let v = HeaderValue::from_str("caf\u{e9}").unwrap();
    assert_eq!(v.as_bytes(), b"caf\xc3\xa9");
    assert!(v.to_str().is_none());
    assert!(HeaderValue::from_str("a\u{7f}b").is_err());
    assert!(HeaderValue::from_str("tab\tis fine").is_ok());
    let v = HeaderValue::from_bytes(b"caf\xe9").unwrap();
    assert!(v.to_str().is_none());
    assert!(HeaderValue::from_bytes(b"a\x7fb").is_err());
    assert!(HeaderValue::from_bytes(b"a\x00b").is_err());
    assert_eq!(value("text").to_str(), Some(&b"text"[..]));
    let mut v = value("secret");
    assert!(!v.is_sensitive());
    v.set_sensitive(true);
    assert!(v.is_sensitive());
    assert!(v.clone().is_sensitive());
    assert_eq!(v.as_bytes(), b"secret");
}

#[test]
fn numbers_as_header_values() {
    assert_eq!(HeaderValue::from_u64(0).as_bytes(), b"0");
    assert_eq!(HeaderValue::from_u64(7).as_bytes(), b"7");
    assert_eq!(HeaderValue::from_u64(1234567890).as_bytes(), b"1234567890");
    assert_eq!(HeaderValue::from_u64(u64::MAX).as_bytes(), b"18446744073709551615");
}

#[test]
fn map_keeps_the_order_of_arrival() {
    let mut m = map(&[("a", "1"), ("b", "2"), ("a", "3")]);
    assert_eq!(m.len(), 3);
    assert!(!m.is_empty());
    assert_eq!(fields(&m), pairs(&[("a", "1"), ("b", "2"), ("a", "3")]));
    assert!(m.contains_key(&name("A")));
    assert!(!m.contains_key(&name("c")));
    assert_eq!(m.get(&name("a")).unwrap().as_bytes(), b"1");
    assert!(m.get(&name("c")).is_none());
    let all: Vec<&[u8]> = m.get_all(&name("a")).iter().map(|v| v.as_bytes()).collect();
    assert_eq!(all, vec![&b"1"[..], &b"3"[..]]);
    // insert replaces every value, in the place of the first
    m.insert(name("a"), value("9"));
    assert_eq!(fields(&m), pairs(&[("a", "9"), ("b", "2")]));
    m.insert(name("c"), value("4"));
    assert_eq!(fields(&m), pairs(&[("a", "9"), ("b", "2"), ("c", "4")]));
    assert!(!m.insert_if_absent(name("b"), value("x")));
    assert!(m.insert_if_absent(name("d"), value("5")));
    assert_eq!(fields(&m), pairs(&[("a", "9"), ("b", "2"), ("c", "4"), ("d", "5")]));
    assert!(m.remove(&name("b")));
    assert!(!m.remove(&name("b")));
    assert_eq!(fields(&m), pairs(&[("a", "9"), ("c", "4"), ("d", "5")]));
    m.set_value_at(1, value("44"));
    assert_eq!(fields(&m), pairs(&[("a", "9"), ("c", "44"), ("d", "5")]));
    assert_eq!(fields(&m.clone()), fields(&m));
}

#[test]
fn map_parts_by_name() {
    let mut m = map(&[("a", "1"), ("b", "2"), ("a", "3"), ("c", "4")]);
    let taken = m.split_by_name(&name("a"));
    assert_eq!(fields(&taken), pairs(&[("a", "1"), ("a", "3")]));
    assert_eq!(fields(&m), pairs(&[("b", "2"), ("c", "4")]));
    m.extend(taken);
    assert_eq!(fields(&m), pairs(&[("b", "2"), ("c", "4"), ("a", "1"), ("a", "3")]));
}

#[test]
fn replace_headers_replaces_by_name() {
    let mut dst = map(&[("a", "1"), ("b", "2"), ("a", "3")]);
    replace_headers(&mut dst, map(&[("a", "x"), ("c", "y"), ("a", "z")]));
    // the first value of a name replaces, every further one is appended
    assert_eq!(fields(&dst), pairs(&[("a", "x"), ("b", "2"), ("c", "y"), ("a", "z")]));
}

#[test]
fn connection_tokens() {
    assert!(connection_keep_alive(&value("keep-alive")));
    assert!(connection_keep_alive(&value("Upgrade, Keep-Alive ")));
    assert!(!connection_keep_alive(&value("keep-alive-x")));
    assert!(!connection_keep_alive(&value("close")));
    assert!(connection_close(&value("close")));
    assert!(connection_close(&value("foo ,\tCLOSE,bar")));
    assert!(!connection_close(&value("closed")));
    assert!(!connection_close(&value("")));
    assert!(connection_has(&value("a,, b"), b""));
    assert!(connection_has(&value(""), b""));
    assert!(connection_has(&value("te, upgrade"), b"TE"));
    // a value that is not text lists nothing
    assert!(!connection_close(&HeaderValue::from_bytes(b"close, \xff").unwrap()));
}

#[test]
fn digits() {
    assert_eq!(from_digits(b"0"), Some(0));
    assert_eq!(from_digits(b"007"), Some(7));
    assert_eq!(from_digits(b"1234"), Some(1234));
    assert_eq!(from_digits(b"18446744073709551615"), Some(u64::MAX));
    assert_eq!(from_digits(b"18446744073709551616"), None);
    assert_eq!(from_digits(b"99999999999999999999999"), None);
    assert_eq!(from_digits(b""), None);
    assert_eq!(from_digits(b"+1"), None);
    assert_eq!(from_digits(b"-1"), None);
    assert_eq!(from_digits(b"1 "), None);
    assert_eq!(from_digits(b"1a"), None);
    assert_eq!(number_in(b"a, 12 ,b", 2, 6), Some(12));
    assert_eq!(find_piece_end(b"ab,cd", 0), 2);
    assert_eq!(find_piece_end(b"ab,cd", 3), 5);
    assert_eq!(find_piece_end(b"ab,cd", 2), 2);
}

#[test]
fn trimming_and_case() {
    assert_eq!(trim_range(b"  a b \t", 0, 7), (2, 5));
    assert_eq!(trim_range(b"    ", 0, 4), (4, 4));
    assert_eq!(trim_range(b"ab", 0, 2), (0, 2));
    assert_eq!(trim_range(b"x, y ,z", 2, 5), (3, 4));
    assert!(eq_ignore_ascii_case(b"ChUnKeD", b"chunked"));
    assert!(!eq_ignore_ascii_case(b"chunked", b"chunke"));
    assert!(!eq_ignore_ascii_case(b"[", b"{"));
}

#[test]
fn content_length_of_all_values() {
    let one = value("10");
    let same = value("10, 10");
    let other = value("11");
    let bad = value("10, x");
    assert_eq!(content_length_parse_all_values(&vec![]), None);
    assert_eq!(content_length_parse_all_values(&vec![&one]), Some(10));
    assert_eq!(content_length_parse_all_values(&vec![&one, &same]), Some(10));
    assert_eq!(content_length_parse_all_values(&vec![&one, &other]), None);
    assert_eq!(content_length_parse_all_values(&vec![&other, &one]), None);
    assert_eq!(content_length_parse_all_values(&vec![&bad]), None);
    assert_eq!(content_length_parse_all_values(&vec![&value(" 7 ")]), Some(7));
    assert_eq!(content_length_parse_all_values(&vec![&value("7,")]), None);
    assert_eq!(content_length_parse_all_values(&vec![&value("")]), None);
    assert_eq!(content_length_parse_all_values(&vec![&value("+7")]), None);
    let not_text = HeaderValue::from_bytes(b"7\xff").unwrap();
    assert_eq!(content_length_parse_all_values(&vec![&not_text]), None);

    let headers = map(&[("content-length", "5"), ("x", "y"), ("Content-Length", "5,5")]);
    assert_eq!(content_length_parse_all(&headers), Some(5));
    let headers = map(&[("content-length", "5"), ("content-length", "6")]);
    assert_eq!(content_length_parse_all(&headers), None);
    assert_eq!(content_length_parse_all(&map(&[("x", "y")])), None);
}

#[test]
fn payload_semantics_of_methods() {
    assert!(!method_has_defined_payload_semantics(&Method::Get));
    assert!(!method_has_defined_payload_semantics(&Method::Head));
    assert!(!method_has_defined_payload_semantics(&Method::Delete));
    assert!(!method_has_defined_payload_semantics(&Method::Connect));
    assert!(method_has_defined_payload_semantics(&Method::Post));
    assert!(method_has_defined_payload_semantics(&Method::Put));
    assert!(method_has_defined_payload_semantics(&Method::Patch));
    assert!(method_has_defined_payload_semantics(&Method::Options));
    assert!(method_has_defined_payload_semantics(&Method::Trace));
    assert!(method_has_defined_payload_semantics(&Method::Extension("PURGE".to_string())));
    assert!(Method::Get.is_get() && Method::Post.is_post() && Method::Head.is_head());
}

#[test]
fn content_length_is_set_once() {
    let mut headers = map(&[("a", "1")]);
    set_content_length_if_missing(&mut headers, 42);
    assert_eq!(fields(&headers), pairs(&[("a", "1"), ("content-length", "42")]));
    set_content_length_if_missing(&mut headers, 7);
    assert_eq!(fields(&headers), pairs(&[("a", "1"), ("content-length", "42")]));
}

#[test]
fn chunked_must_come_last() {
    assert!(is_chunked_(&value("chunked")));
    assert!(is_chunked_(&value("gzip, Chunked ")));
    assert!(!is_chunked_(&value("chunked, gzip")));
    assert!(!is_chunked_(&value("chunked,")));
    assert!(!is_chunked_(&value("")));
    assert!(!is_chunked_(&HeaderValue::from_bytes(b"\xff, chunked").unwrap()));
    let a = value("chunked");
    let b = value("gzip");
    assert!(!is_chunked(&vec![]));
    assert!(is_chunked(&vec![&b, &a]));
    assert!(!is_chunked(&vec![&a, &b]));
    assert!(transfer_encoding_is_chunked(&map(&[
        ("transfer-encoding", "gzip"),
        ("x", "y"),
        ("transfer-encoding", "chunked"),
    ])));
    assert!(!transfer_encoding_is_chunked(&map(&[("transfer-encoding", "gzip")])));
    assert!(!transfer_encoding_is_chunked(&map(&[("x", "chunked")])));
}

#[test]
fn chunked_is_added_behind_the_last_coding() {
    let mut headers = map(&[("transfer-encoding", "gzip"), ("x", "y"), ("transfer-encoding", "br")]);
    add_chunked(&mut headers);
    assert_eq!(
        fields(&headers),
        pairs(&[("transfer-encoding", "gzip"), ("x", "y"), ("transfer-encoding", "br, chunked")])
    );
    assert!(transfer_encoding_is_chunked(&headers));
    let mut headers = map(&[("x", "y")]);
    add_chunked(&mut headers);
    assert_eq!(fields(&headers), pairs(&[("x", "y"), ("transfer-encoding", "chunked")]));
}

fn original(names: &[&str]) -> OriginalHeaders {
    let mut o = OriginalHeaders::new();
    for n in names {
        o.insert(n.as_bytes()).expect("name");
    }
    o
}

#[test]
fn ordered_emission() {
    // given the order [A, B] and the headers {C, B, A}, the wire order is A, B, C
    let mut headers = map(&[("c", "3"), ("b", "2"), ("a", "1")]);
    sort_headers(&mut headers, &original(&["A", "B"]));
    assert_eq!(fields(&headers), pairs(&[("a", "1"), ("b", "2"), ("c", "3")]));
}

#[test]
fn sorting_keeps_every_value_and_the_order_of_the_unlisted() {
    let mut headers =
        map(&[("x", "1"), ("b", "2"), ("y", "3"), ("a", "4"), ("x", "5"), ("b", "6"), ("z", "7")]);
    sort_headers(&mut headers, &original(&["A", "missing", "B", "a"]));
    assert_eq!(
        fields(&headers),
        pairs(&[("a", "4"), ("b", "2"), ("b", "6"), ("x", "1"), ("y", "3"), ("x", "5"), ("z", "7")])
    );
    let mut single = map(&[("a", "1")]);
    sort_headers(&mut single, &original(&["b"]));
    assert_eq!(fields(&single), pairs(&[("a", "1")]));
    let mut none = HeaderMap::new();
    sort_headers(&mut none, &original(&["b"]));
    assert!(none.is_empty());
}

#[test]
fn original_headers_keep_their_spelling() {
    let mut o = original(&["User-Agent", "accept"]);
    assert_eq!(o.len(), 2);
    assert_eq!(o.name(0).as_bytes(), b"user-agent");
    assert_eq!(o.spelling(0), b"User-Agent");
    assert_eq!(o.spelling(1), b"accept");
    assert!(o.insert(b"not a name").is_err());
    assert_eq!(o.len(), 2);
    let copy = o.clone();
    assert_eq!(copy.spelling(0), b"User-Agent");
}

#[test]
fn defaults_do_not_override() {
    let defaults = map(&[("h", "default"), ("accept", "*/*"), ("accept", "text/html"), ("ua", "x")]);
    let mut headers = map(&[("H", "mine"), ("ua", "y")]);
    merge_defaults(&mut headers, &defaults);
    assert_eq!(
        fields(&headers),
        pairs(&[("h", "mine"), ("ua", "y"), ("accept", "*/*"), ("accept", "text/html")])
    );
    let mut empty = HeaderMap::new();
    merge_defaults(&mut empty, &defaults);
    assert_eq!(fields(&empty), fields(&defaults));
}

#[test]
fn wire_order_keeps_the_values_of_a_name_together() {
    let m = map(&[("a", "1"), ("b", "2"), ("a", "3"), ("c", "4"), ("b", "5")]);
    assert_eq!(
        fields(&m.wire_order()),
        pairs(&[("a", "1"), ("a", "3"), ("b", "2"), ("b", "5"), ("c", "4")])
    );
    // what is grouped already stays as it is
    let m = map(&[("a", "1"), ("a", "3"), ("b", "2")]);
    assert_eq!(fields(&m.wire_order()), fields(&m));
    assert!(HeaderMap::new().wire_order().is_empty());
}

#[test]
fn names_and_values_are_those_of_the_codec() {
    for b in 0..=255u8 {
        for bytes in [vec![b], vec![b'a', b], vec![b, b'-', b'Z']] {
            let ours = HeaderValue::from_bytes(&bytes);
            let theirs = http::HeaderValue::from_bytes(&bytes);
            assert_eq!(ours.is_ok(), theirs.is_ok(), "value {bytes:?}");
            if let (Ok(ours), Ok(theirs)) = (&ours, &theirs) {
                assert_eq!(ours.as_bytes(), theirs.as_bytes());
                assert_eq!(ours.to_str().is_some(), theirs.to_str().is_ok(), "text {bytes:?}");
            }
            let ours = HeaderName::from_bytes(&bytes);
            let theirs = http::header::HeaderName::from_bytes(&bytes);
            assert_eq!(ours.is_ok(), theirs.is_ok(), "name {bytes:?}");
            if let (Ok(ours), Ok(theirs)) = (&ours, &theirs) {
                assert_eq!(ours.as_bytes(), theirs.as_str().as_bytes());
            }
        }
    }
    for text in ["", "plain", "caf\u{e9}", "\u{4e2d}\u{6587}", "a\tb", "a\rb", "a\u{7f}"] {
        assert_eq!(
            HeaderValue::from_str(text).is_ok(),
            http::HeaderValue::from_str(text).is_ok(),
            "{text:?}"
        );
    }
    assert!(HeaderName::from_bytes(b"").is_err());
    assert!(http::header::HeaderName::from_bytes(b"").is_err());
}

#[test]
fn wire_order_is_the_order_of_the_codec() {
    let listed = [("b", "1"), ("a", "2"), ("b", "3"), ("c", "4"), ("a", "5"), ("b", "6")];
    let ours = map(&listed).wire_order();
    let mut theirs = http::HeaderMap::new();
    for (n, v) in listed {
        theirs.append(
            http::header::HeaderName::from_bytes(n.as_bytes()).unwrap(),
            http::HeaderValue::from_str(v).unwrap(),
        );
    }
    let theirs: Vec<(String, String)> = theirs
        .iter()
        .map(|(n, v)| (n.as_str().to_string(), v.to_str().unwrap().to_string()))
        .collect();
    assert_eq!(fields(&ours), theirs);
}
