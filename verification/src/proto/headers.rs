//! Connection management, body length and transfer coding, read from headers.

use vstd::prelude::*;
use vstd::string::StringSliceAdditionalSpecFns;
use vstd::slice::slice_subrange;
use crate::bytes::{eq_ignore_ascii_case, same_ignoring_case, trim_range, trimmed};
use crate::header::map::{contains_name, select, Field, HeaderMap};
use crate::header::{visible, HeaderName, HeaderValue};
use crate::method::Method;
use crate::proto::pieces::{
    digits_value, find_piece_end, lemma_last_piece, lemma_piece_end, number_in, piece_end, pieces,
    pieces_from, COMMA,
};

verus! {

/// The token `keep-alive`.
pub open spec fn keep_alive_token() -> Seq<u8> {
    seq![0x6bu8, 0x65, 0x65, 0x70, 0x2d, 0x61, 0x6c, 0x69, 0x76, 0x65]
}

/// The token `close`.
pub open spec fn close_token() -> Seq<u8> {
    seq![0x63u8, 0x6c, 0x6f, 0x73, 0x65]
}

/// The token `chunked`.
pub open spec fn chunked_token() -> Seq<u8> {
    seq![0x63u8, 0x68, 0x75, 0x6e, 0x6b, 0x65, 0x64]
}

/// Whether one of the comma-separated pieces of `value`, blanks at its ends
/// aside, is `needle` in whatever case. A value that is not text holds no
/// piece.
pub open spec fn has_token(value: Seq<u8>, needle: Seq<u8>) -> bool {
    visible(value) && exists|i: int|
        0 <= i < pieces(value).len() && same_ignoring_case(
            trimmed(#[trigger] pieces(value)[i]),
            needle,
        )
}

/// Whether some piece from `from` on is `needle`.
spec fn later_token(s: Seq<u8>, from: int, needle: Seq<u8>) -> bool {
    exists|i: int|
        0 <= i < pieces_from(s, from).len() && same_ignoring_case(
            trimmed(#[trigger] pieces_from(s, from)[i]),
            needle,
        )
}

/// A token is among the pieces from `from` on if it is the first of them or
/// among those behind it.
proof fn lemma_later_token(s: Seq<u8>, from: int, needle: Seq<u8>)
    requires
        0 <= from <= s.len(),
    ensures
        later_token(s, from, needle) == ({
            let end = piece_end(s, from);
            same_ignoring_case(trimmed(s.subrange(from, end)), needle) || (end < s.len()
                && later_token(s, end + 1, needle))
        }),
{
    lemma_piece_end(s, from);
    let end = piece_end(s, from);
    let all = pieces_from(s, from);
    if end < s.len() {
        let rest = pieces_from(s, end + 1);
        assert(all == seq![s.subrange(from, end)] + rest);
        if later_token(s, from, needle) {
            let i = choose|i: int|
                0 <= i < all.len() && same_ignoring_case(trimmed(#[trigger] all[i]), needle);
            if i > 0 {
                assert(all[i] == rest[i - 1]);
            }
        }
        if later_token(s, end + 1, needle) {
            let i = choose|i: int|
                0 <= i < rest.len() && same_ignoring_case(trimmed(#[trigger] rest[i]), needle);
            assert(all[i + 1] == rest[i]);
        }
        if same_ignoring_case(trimmed(s.subrange(from, end)), needle) {
            assert(all[0] == s.subrange(from, end));
        }
    } else {
        assert(all == seq![s.subrange(from, s.len() as int)]);
        if same_ignoring_case(trimmed(s.subrange(from, end)), needle) {
            assert(all[0] == s.subrange(from, end));
        }
    }
}

pub fn connection_keep_alive(value: &HeaderValue) -> (b: bool)
    ensures
        b == has_token(value@, keep_alive_token()),
{
    let needle: Vec<u8> = vec![0x6bu8, 0x65, 0x65, 0x70, 0x2d, 0x61, 0x6c, 0x69, 0x76, 0x65];
    assert(needle@ =~= keep_alive_token());
    connection_has(value, needle.as_slice())
}

pub fn connection_close(value: &HeaderValue) -> (b: bool)
    ensures
        b == has_token(value@, close_token()),
{
    let needle: Vec<u8> = vec![0x63u8, 0x6c, 0x6f, 0x73, 0x65];
    assert(needle@ =~= close_token());
    connection_has(value, needle.as_slice())
}

/// Whether `value` lists the token `needle`.
pub fn connection_has(value: &HeaderValue, needle: &[u8]) -> (b: bool)
    ensures
        b == has_token(value@, needle@),
{
    if let Some(s) = value.to_str() {
        let mut from: usize = 0;
        loop
            invariant
                from <= s@.len(),
                s@ == value@,
                visible(s@),
                later_token(s@, 0, needle@) == later_token(s@, from as int, needle@),
            decreases s@.len() - from,
        {
            let end = find_piece_end(s, from);
            proof {
                lemma_later_token(s@, from as int, needle@);
            }
            let (a, b) = trim_range(s, from, end);
            if eq_ignore_ascii_case(slice_subrange(s, a, b), needle) {
                return true;
            }
            if end >= s.len() {
                return false;
            }
            from = end + 1;
        }
    }
    false
}

/// Whether every piece of every value spells the number `n`.
pub open spec fn all_spell(values: Seq<Seq<u8>>, n: u64) -> bool {
    forall|i: int|
        0 <= i < values.len() ==> visible(#[trigger] values[i]) && forall|j: int|
            0 <= j < pieces(values[i]).len() ==> digits_value(
                trimmed(#[trigger] pieces(values[i])[j]),
            ) == Some(n)
}

/// The length that the values of `Content-Length` agree on.
///
/// If multiple Content-Length headers were sent, everything can still be
/// alright if they all contain the same value, and all parse correctly. If
/// not, then it's an error; and with no header there is no length.
pub open spec fn agreed_length(values: Seq<Seq<u8>>) -> Option<u64> {
    if values.len() > 0 && exists|n: u64| all_spell(values, n) {
        Some(choose|n: u64| all_spell(values, n))
    } else {
        None
    }
}

/// Whether every piece of `s` from `from` on spells `n`.
spec fn rest_spells(s: Seq<u8>, from: int, n: u64) -> bool {
    forall|j: int|
        0 <= j < pieces_from(s, from).len() ==> digits_value(
            trimmed(#[trigger] pieces_from(s, from)[j]),
        ) == Some(n)
}

proof fn lemma_rest_spells(s: Seq<u8>, from: int, n: u64)
    requires
        0 <= from <= s.len(),
    ensures
        rest_spells(s, from, n) == ({
            let end = piece_end(s, from);
            digits_value(trimmed(s.subrange(from, end))) == Some(n) && (end < s.len()
                ==> rest_spells(s, end + 1, n))
        }),
{
    lemma_piece_end(s, from);
    let end = piece_end(s, from);
    let all = pieces_from(s, from);
    if end < s.len() {
        let rest = pieces_from(s, end + 1);
        assert(all == seq![s.subrange(from, end)] + rest);
        assert(all[0] == s.subrange(from, end));
        if rest_spells(s, from, n) {
            assert forall|j: int| 0 <= j < rest.len() implies digits_value(
                trimmed(#[trigger] rest[j]),
            ) == Some(n) by {
                assert(all[j + 1] == rest[j]);
            }
        }
        if digits_value(trimmed(s.subrange(from, end))) == Some(n) && rest_spells(s, end + 1, n) {
            assert forall|j: int| 0 <= j < all.len() implies digits_value(
                trimmed(#[trigger] all[j]),
            ) == Some(n) by {
                if j > 0 {
                    assert(all[j] == rest[j - 1]);
                }
            }
        }
    } else {
        assert(all == seq![s.subrange(from, s.len() as int)]);
        assert(all[0] == s.subrange(from, end));
    }
}

/// The number that every piece of `s` spells, given that the pieces seen so
/// far spell `seen`; nothing where a piece spells no number or another one.
fn parse_line(s: &[u8], seen: Option<u64>) -> (r: Option<u64>)
    ensures
        match r {
            Some(n) => rest_spells(s@, 0, n) && (seen is Some ==> seen == Some(n)),
            None => forall|n: u64| rest_spells(s@, 0, n) ==> seen is Some && seen != Some(n),
        },
{
    let mut content_length = seen;
    let mut from: usize = 0;
    loop
        invariant
            from <= s@.len(),
            seen is Some ==> content_length == seen,
            from == 0 ==> content_length == seen,
            forall|n: u64|
                rest_spells(s@, 0, n) == ((from > 0 ==> content_length == Some(n)) && rest_spells(
                    s@,
                    from as int,
                    n,
                )),
            from > 0 ==> content_length is Some,
        decreases s@.len() - from,
    {
        let end = find_piece_end(s, from);
        let found = number_in(s, from, end);
        proof {
            assert forall|n: u64|
                rest_spells(s@, from as int, n) == (found == Some(n) && (end < s@.len()
                    ==> rest_spells(s@, end + 1, n))) by {
                lemma_rest_spells(s@, from as int, n);
            }
        }
        match found {
            Some(n) => {
                if content_length.is_none() {
                    content_length = Some(n)
                } else if content_length != Some(n) {
                    return None;
                }
            },
            None => {
                return None;
            },
        }
        if end >= s.len() {
            return content_length;
        }
        from = end + 1;
    }
}

pub fn content_length_parse_all(headers: &HeaderMap) -> (r: Option<u64>)
    ensures
        r == agreed_length(
            select(headers@, content_length_name()).map_values(|f: Field| f.value),
        ),
{
    let values = headers.get_all(&HeaderName::known("content-length"));
    proof {
        let fields = select(headers@, content_length_name());
        assert(Seq::new(values@.len(), |i: int| values@[i]@) =~= fields.map_values(
            |f: Field| f.value,
        ));
    }
    content_length_parse_all_values(&values)
}

/// The name `content-length`.
pub open spec fn content_length_name() -> Seq<u8> {
    "content-length".spec_bytes()
}

/// The name `transfer-encoding`.
pub open spec fn transfer_encoding_name() -> Seq<u8> {
    "transfer-encoding".spec_bytes()
}

pub fn content_length_parse_all_values(values: &Vec<&HeaderValue>) -> (r: Option<u64>)
    ensures
        r == agreed_length(Seq::new(values@.len(), |i: int| values@[i]@)),
{
    let ghost all = Seq::new(values@.len(), |i: int| values@[i]@);
    let mut content_length: Option<u64> = None;
    let mut i: usize = 0;
    while i < values.len()
        invariant
            i <= values@.len(),
            all == Seq::new(values@.len(), |i: int| values@[i]@),
            i > 0 ==> content_length is Some,
            i == 0 ==> content_length is None,
            forall|n: u64| all_spell(all.take(i as int), n) == (i > 0 ==> content_length == Some(n)),
        decreases values@.len() - i,
    {
        let h = values[i];
        let ghost next = all.take(i + 1);
        proof {
            assert(all[i as int] == h@);
            assert forall|n: u64|
                all_spell(next, n) == (all_spell(all.take(i as int), n) && visible(h@)
                    && rest_spells(h@, 0, n)) by {
                if all_spell(next, n) {
                    assert(next[i as int] == h@);
                    assert forall|k: int| 0 <= k < i implies visible(
                        #[trigger] all.take(i as int)[k],
                    ) && forall|j: int|
                        0 <= j < pieces(all.take(i as int)[k]).len() ==> digits_value(
                            trimmed(#[trigger] pieces(all.take(i as int)[k])[j]),
                        ) == Some(n) by {
                        assert(next[k] == all.take(i as int)[k]);
                    }
                }
                if all_spell(all.take(i as int), n) && visible(h@) && rest_spells(h@, 0, n) {
                    assert forall|k: int| 0 <= k < next.len() implies visible(#[trigger] next[k])
                        && forall|j: int|
                        0 <= j < pieces(next[k]).len() ==> digits_value(
                            trimmed(#[trigger] pieces(next[k])[j]),
                        ) == Some(n) by {
                        if k < i {
                            assert(next[k] == all.take(i as int)[k]);
                        }
                    }
                }
            }
        }
        if let Some(line) = h.to_str() {
            match parse_line(line, content_length) {
                Some(n) => {
                    proof {
                        assert forall|m: u64| m != n implies !rest_spells(h@, 0, m) by {
                            lemma_rest_spells(h@, 0, m);
                            lemma_rest_spells(h@, 0, n);
                        }
                    }
                    content_length = Some(n);
                },
                None => {
                    proof {
                        assert forall|n: u64| !all_spell(all, n) by {
                            if all_spell(all, n) {
                                lemma_all_spell_take(all, n, i + 1);
                            }
                        }
                    }
                    return None;
                },
            }
        } else {
            proof {
                assert forall|n: u64| !all_spell(all, n) by {
                    if all_spell(all, n) {
                        assert(visible(all[i as int]));
                    }
                }
            }
            return None;
        }
        i += 1;
    }
    proof {
        assert(all.take(all.len() as int) =~= all);
        if i > 0 {
            let n = content_length->Some_0;
            assert(all_spell(all, n));
            let m = choose|m: u64| all_spell(all, m);
            assert(all_spell(all, m));
        }
    }
    content_length
}

/// What every value spells, every value of a front part spells.
proof fn lemma_all_spell_take(values: Seq<Seq<u8>>, n: u64, k: int)
    requires
        all_spell(values, n),
        0 <= k <= values.len(),
    ensures
        all_spell(values.take(k), n),
{
    assert forall|i: int| 0 <= i < values.take(k).len() implies visible(
        #[trigger] values.take(k)[i],
    ) && forall|j: int|
        0 <= j < pieces(values.take(k)[i]).len() ==> digits_value(
            trimmed(#[trigger] pieces(values.take(k)[i])[j]),
        ) == Some(n) by {
        assert(values.take(k)[i] == values[i]);
    }
}

/// Whether a request with this method is defined to carry a payload: every
/// method but GET, HEAD, DELETE and CONNECT.
pub fn method_has_defined_payload_semantics(method: &Method) -> (b: bool)
    ensures
        b == !(*method is Get || *method is Head || *method is Delete || *method is Connect),
{
    !matches!(*method, Method::Get | Method::Head | Method::Delete | Method::Connect)
}

/// Gives the headers a `Content-Length` of `len`, unless they have one.
pub fn set_content_length_if_missing(headers: &mut HeaderMap, len: u64)
    ensures
        final(headers)@ == (if contains_name(old(headers)@, content_length_name()) {
            old(headers)@
        } else {
            old(headers)@.push(
                Field {
                    name: content_length_name(),
                    value: crate::header::decimal(len as nat),
                    sensitive: false,
                },
            )
        }),
{
    headers.insert_if_absent(HeaderName::known("content-length"), HeaderValue::from_u64(len));
}

/// Whether the last piece of `value` is `chunked`: chunked must always be
/// the last encoding.
pub open spec fn ends_chunked(value: Seq<u8>) -> bool {
    visible(value) && same_ignoring_case(trimmed(pieces(value).last()), chunked_token())
}

pub fn transfer_encoding_is_chunked(headers: &HeaderMap) -> (b: bool)
    ensures
        b == ({
            let values = select(headers@, transfer_encoding_name());
            values.len() > 0 && ends_chunked(values.last().value)
        }),
{
    let values = headers.get_all(&HeaderName::known("transfer-encoding"));
    is_chunked(&values)
}

/// Whether the last of the values ends in `chunked`.
pub fn is_chunked(encodings: &Vec<&HeaderValue>) -> (b: bool)
    ensures
        b == (encodings@.len() > 0 && ends_chunked(encodings@.last()@)),
{
    // chunked must always be the last encoding, according to spec
    if encodings.len() > 0 {
        return is_chunked_(encodings[encodings.len() - 1]);
    }
    false
}

pub fn is_chunked_(value: &HeaderValue) -> (b: bool)
    ensures
        b == ends_chunked(value@),
{
    // chunked must always be the last encoding, according to spec
    if let Some(s) = value.to_str() {
        let mut last = s.len();
        while last > 0 && s[last - 1] != COMMA
            invariant
                last <= s@.len(),
                forall|i: int| last <= i < s@.len() ==> #[trigger] s@[i] != COMMA,
            decreases last,
        {
            last -= 1;
        }
        proof {
            lemma_last_piece(s@, 0, last as int);
        }
        let (a, b) = trim_range(s, last, s.len());
        let needle: Vec<u8> = vec![0x63u8, 0x68, 0x75, 0x6e, 0x6b, 0x65, 0x64];
        assert(needle@ =~= chunked_token());
        return eq_ignore_ascii_case(slice_subrange(s, a, b), needle.as_slice());
    }
    false
}

/// The bytes `, chunked`.
pub open spec fn comma_chunked() -> Seq<u8> {
    seq![0x2cu8, 0x20, 0x63, 0x68, 0x75, 0x6e, 0x6b, 0x65, 0x64]
}

/// The place of the last field named `name`, or -1.
pub open spec fn last_of(fields: Seq<Field>, name: Seq<u8>) -> int
    decreases fields.len(),
{
    if fields.len() == 0 {
        -1
    } else if fields.last().name == name {
        fields.len() - 1
    } else {
        last_of(fields.drop_last(), name)
    }
}

/// The headers with `chunked` as the last transfer coding: put behind what
/// the last `Transfer-Encoding` field lists, or in a field of its own where
/// there is none.
pub open spec fn with_chunked(fields: Seq<Field>) -> Seq<Field> {
    let at = last_of(fields, transfer_encoding_name());
    if at < 0 {
        fields.push(
            Field { name: transfer_encoding_name(), value: chunked_token(), sensitive: false },
        )
    } else {
        fields.update(
            at,
            Field {
                name: transfer_encoding_name(),
                value: fields[at].value + comma_chunked(),
                sensitive: false,
            },
        )
    }
}

/// Makes `chunked` the last transfer coding of the headers.
pub fn add_chunked(headers: &mut HeaderMap)
    ensures
        final(headers)@ == with_chunked(old(headers)@),
{
    let name = HeaderName::known("transfer-encoding");
    let mut at = headers.len();
    assert(headers@.take(at as int) =~= headers@);
    while at > 0 && !headers.name_at(at - 1).is(&name)
        invariant
            at <= headers@.len(),
            name@ == transfer_encoding_name(),
            headers@ == old(headers)@,
            last_of(headers@, name@) == last_of(headers@.take(at as int), name@),
        decreases at,
    {
        proof {
            assert(headers@.take(at as int).drop_last() =~= headers@.take(at - 1));
        }
        at -= 1;
    }
    if at > 0 {
        proof {
            assert(headers@.take(at as int).last() == headers@[at - 1]);
        }
        let line = headers.value_at(at - 1);
        // The old value, then ", ", then the new coding.
        let mut buf = crate::bytes::to_vec(line.as_bytes());
        let tail: Vec<u8> = vec![0x2cu8, 0x20, 0x63, 0x68, 0x75, 0x6e, 0x6b, 0x65, 0x64];
        assert(tail@ =~= comma_chunked());
        crate::bytes::extend(&mut buf, tail.as_slice());
        headers.set_value_at(at - 1, HeaderValue::from_vec(buf));
        return ;
    }
    proof {
        assert(headers@.take(0) =~= Seq::<Field>::empty());
    }
    let chunked: Vec<u8> = vec![0x63u8, 0x68, 0x75, 0x6e, 0x6b, 0x65, 0x64];
    assert(chunked@ =~= chunked_token());
    headers.append(name, HeaderValue::from_vec(chunked));
}

} // verus!
