//! What the layers for content codings and for cookies do to headers.

use vstd::prelude::*;
use vstd::slice::slice_subrange;
use vstd::string::StringSliceAdditionalSpecFns;
use crate::bytes::{eq_ignore_ascii_case, extend, same_ignoring_case, trim_range, trimmed};
use crate::config::AcceptEncoding;
use crate::header::map::{contains_name, first_of, reject, select, Field, HeaderMap};
use crate::header::{visible, HeaderName, HeaderValue};

verus! {

/// A content coding that the client can decode.
#[derive(Clone, Copy, Debug, PartialEq, Eq, Structural)]
pub enum Coding {
    Gzip,
    Brotli,
    Zstd,
    Deflate,
}

/// The name `accept-encoding`.
pub open spec fn accept_encoding_name() -> Seq<u8> {
    "accept-encoding".spec_bytes()
}

/// The name `range`.
pub open spec fn range_name() -> Seq<u8> {
    "range".spec_bytes()
}

/// The name `content-encoding`.
pub open spec fn content_encoding_name() -> Seq<u8> {
    "content-encoding".spec_bytes()
}

/// The name `cookie`.
pub open spec fn cookie_name() -> Seq<u8> {
    "cookie".spec_bytes()
}

/// The name `set-cookie`.
pub open spec fn set_cookie_name() -> Seq<u8> {
    "set-cookie".spec_bytes()
}

/// The token by which a coding is named in headers.
pub open spec fn coding_token(coding: Coding) -> Seq<u8> {
    match coding {
        Coding::Gzip => seq![0x67u8, 0x7a, 0x69, 0x70],
        Coding::Brotli => seq![0x62u8, 0x72],
        Coding::Zstd => seq![0x7au8, 0x73, 0x74, 0x64],
        Coding::Deflate => seq![0x64u8, 0x65, 0x66, 0x6c, 0x61, 0x74, 0x65],
    }
}

/// The bytes `, `.
pub open spec fn separator() -> Seq<u8> {
    seq![0x2cu8, 0x20]
}

/// `list` with `token` behind it, parted from what stands before.
pub open spec fn listed_with(list: Seq<u8>, wanted: bool, token: Seq<u8>) -> Seq<u8> {
    if !wanted {
        list
    } else if list.len() == 0 {
        token
    } else {
        list + separator() + token
    }
}

/// What `Accept-Encoding` announces: the enabled codings in the order gzip,
/// br, zstd, deflate.
pub open spec fn announcement(accepts: AcceptEncoding) -> Seq<u8> {
    listed_with(
        listed_with(
            listed_with(
                listed_with(Seq::empty(), accepts.gzip, coding_token(Coding::Gzip)),
                accepts.brotli,
                coding_token(Coding::Brotli),
            ),
            accepts.zstd,
            coding_token(Coding::Zstd),
        ),
        accepts.deflate,
        coding_token(Coding::Deflate),
    )
}

fn token_bytes(coding: Coding) -> (r: Vec<u8>)
    ensures
        r@ == coding_token(coding),
{
    let r: Vec<u8> = match coding {
        Coding::Gzip => vec![0x67u8, 0x7a, 0x69, 0x70],
        Coding::Brotli => vec![0x62u8, 0x72],
        Coding::Zstd => vec![0x7au8, 0x73, 0x74, 0x64],
        Coding::Deflate => vec![0x64u8, 0x65, 0x66, 0x6c, 0x61, 0x74, 0x65],
    };
    assert(r@ =~= coding_token(coding));
    r
}

fn list_with(list: &mut Vec<u8>, wanted: bool, coding: Coding)
    ensures
        final(list)@ == listed_with(old(list)@, wanted, coding_token(coding)),
{
    if wanted {
        if list.len() > 0 {
            list.push(0x2c);
            list.push(0x20);
            assert(list@ =~= old(list)@ + separator());
        }
        let token = token_bytes(coding);
        extend(list, token.as_slice());
        assert(list@ =~= listed_with(old(list)@, wanted, coding_token(coding)));
    }
}

/// The headers of a request once the codings were announced: a request
/// that says what it accepts, or that asks for a range, is left alone, and
/// so is any request where no coding is enabled.
pub open spec fn advertised(fields: Seq<Field>, accepts: AcceptEncoding) -> Seq<Field> {
    if contains_name(fields, accept_encoding_name()) || contains_name(fields, range_name())
        || announcement(accepts).len() == 0 {
        fields
    } else {
        fields.push(
            Field { name: accept_encoding_name(), value: announcement(accepts), sensitive: false },
        )
    }
}

/// Announces the codings that the client decodes.
pub fn advertise(headers: &mut HeaderMap, accepts: AcceptEncoding)
    ensures
        final(headers)@ == advertised(old(headers)@, accepts),
{
    if headers.contains_key(&HeaderName::known("accept-encoding")) || headers.contains_key(
        &HeaderName::known("range"),
    ) {
        return ;
    }
    let mut list: Vec<u8> = Vec::new();
    list_with(&mut list, accepts.gzip, Coding::Gzip);
    list_with(&mut list, accepts.brotli, Coding::Brotli);
    list_with(&mut list, accepts.zstd, Coding::Zstd);
    list_with(&mut list, accepts.deflate, Coding::Deflate);
    if list.len() > 0 {
        headers.append(HeaderName::known("accept-encoding"), HeaderValue::from_vec(list));
    }
}

/// Whether `value` names `coding`, blanks and case aside.
pub open spec fn names_coding(value: Seq<u8>, coding: Coding) -> bool {
    visible(value) && same_ignoring_case(trimmed(value), coding_token(coding))
}

/// The coding in which a response with these headers is encoded, if it is
/// one that is enabled: what the first `Content-Encoding` names.
pub open spec fn encoded_in(fields: Seq<Field>, accepts: AcceptEncoding) -> Option<Coding> {
    if contains_name(fields, content_encoding_name()) {
        let value = fields[first_of(fields, content_encoding_name())].value;
        if accepts.gzip && names_coding(value, Coding::Gzip) {
            Some(Coding::Gzip)
        } else if accepts.brotli && names_coding(value, Coding::Brotli) {
            Some(Coding::Brotli)
        } else if accepts.zstd && names_coding(value, Coding::Zstd) {
            Some(Coding::Zstd)
        } else if accepts.deflate && names_coding(value, Coding::Deflate) {
            Some(Coding::Deflate)
        } else {
            None
        }
    } else {
        None
    }
}

fn names(value: &HeaderValue, coding: Coding) -> (b: bool)
    ensures
        b == names_coding(value@, coding),
{
    match value.to_str() {
        Some(s) => {
            let (a, b) = trim_range(s, 0, s.len());
            assert(s@.subrange(0, s@.len() as int) =~= s@);
            let token = token_bytes(coding);
            eq_ignore_ascii_case(slice_subrange(s, a, b), token.as_slice())
        },
        None => false,
    }
}

/// Finds out how the body of a response is encoded. Where it is in a
/// coding that is enabled, the headers lose `Content-Encoding` and
/// `Content-Length`, which hold of the encoded body only.
pub fn detect(headers: &mut HeaderMap, accepts: AcceptEncoding) -> (coding: Option<Coding>)
    ensures
        coding == encoded_in(old(headers)@, accepts),
        final(headers)@ == (if coding is Some {
            reject(
                reject(old(headers)@, content_encoding_name()),
                crate::proto::headers::content_length_name(),
            )
        } else {
            old(headers)@
        }),
{
    let coding = match headers.get(&HeaderName::known("content-encoding")) {
        Some(value) => {
            if accepts.gzip && names(value, Coding::Gzip) {
                Some(Coding::Gzip)
            } else if accepts.brotli && names(value, Coding::Brotli) {
                Some(Coding::Brotli)
            } else if accepts.zstd && names(value, Coding::Zstd) {
                Some(Coding::Zstd)
            } else if accepts.deflate && names(value, Coding::Deflate) {
                Some(Coding::Deflate)
            } else {
                None
            }
        },
        None => None,
    };
    if coding.is_some() {
        headers.remove(&HeaderName::known("content-encoding"));
        headers.remove(&HeaderName::known("content-length"));
    }
    coding
}

/// The headers of a request once the cookies of the store were applied: a
/// request that bears a `Cookie` header keeps it; any other gets what the
/// store has for its URL.
pub open spec fn with_cookies(fields: Seq<Field>, stored: Option<HeaderValue>) -> Seq<Field> {
    match stored {
        Some(v) => if contains_name(fields, cookie_name()) {
            fields
        } else {
            fields.push(Field { name: cookie_name(), value: v@, sensitive: v.sensitive() })
        },
        None => fields,
    }
}

/// Applies the cookies that the store has for the URL of a request.
pub fn apply_cookies(headers: &mut HeaderMap, stored: Option<HeaderValue>)
    ensures
        final(headers)@ == with_cookies(old(headers)@, stored),
{
    if let Some(value) = stored {
        headers.insert_if_absent(HeaderName::known("cookie"), value);
    }
}

/// The cookies that a response sets, in their order: every value of
/// `Set-Cookie`.
pub fn collect_cookies(headers: &HeaderMap) -> (r: Vec<&HeaderValue>)
    ensures
        r@.len() == select(headers@, set_cookie_name()).len(),
        forall|i: int|
            0 <= i < r@.len() ==> (#[trigger] r@[i])@ == select(headers@, set_cookie_name())[i].value,
{
    headers.get_all(&HeaderName::known("set-cookie"))
}

} // verus!
