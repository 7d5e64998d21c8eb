//! Credentials as request headers carry them.

use base64::Engine;
use vstd::prelude::*;
use vstd::utf8::encode_utf8;
use crate::bytes::{extend, to_vec};
use crate::header::visible;

verus! {

/// The standard base64 encoding of a byte string, with padding.
pub uninterp spec fn base64_standard(input: Seq<u8>) -> Seq<u8>;

/// `Engine::encode` of the `STANDARD` engine of `base64`: the encoding of
/// `input` in the standard alphabet with padding, which is printable ASCII.
/// The encoder gives up on an input whose encoding, four bytes for every
/// three, has a length that the machine cannot count; half of what it can
/// count is short enough.
#[verifier::external_body]
fn base64_encode(input: &[u8]) -> (r: Vec<u8>)
    requires
        input@.len() <= usize::MAX / 2,
    ensures
        r@ == base64_standard(input@),
        visible(r@),
{
    base64::engine::general_purpose::STANDARD.encode(input).into_bytes()
}

/// The bytes `Basic `.
pub open spec fn basic_prefix() -> Seq<u8> {
    seq![0x42u8, 0x61, 0x73, 0x69, 0x63, 0x20]
}

/// The bytes `Bearer `.
pub open spec fn bearer_prefix() -> Seq<u8> {
    seq![0x42u8, 0x65, 0x61, 0x72, 0x65, 0x72, 0x20]
}

/// What is encoded for basic authentication: the user name, a colon, and
/// the password where there is one.
pub open spec fn user_pass(username: Seq<char>, password: Option<Seq<char>>) -> Seq<u8> {
    encode_utf8(username) + seq![0x3au8] + (match password {
        Some(p) => encode_utf8(p),
        None => Seq::empty(),
    })
}

/// The value of `Authorization` for basic authentication.
pub open spec fn basic_credentials(username: Seq<char>, password: Option<Seq<char>>) -> Seq<u8> {
    basic_prefix() + base64_standard(user_pass(username, password))
}

/// The value of `Authorization` for a bearer token.
pub open spec fn bearer_credentials(token: Seq<char>) -> Seq<u8> {
    bearer_prefix() + encode_utf8(token)
}

/// Whether the credentials are short enough to be encoded: the encoding
/// is a third longer than they are, and its length must be one that the
/// machine can count.
pub open spec fn credentials_fit(username: Seq<char>, password: Option<Seq<char>>) -> bool {
    user_pass(username, password).len() <= usize::MAX / 2
}

/// The header value for basic authentication with these credentials;
/// nothing where they are too long.
pub fn basic_auth(username: &str, password: Option<&str>) -> (r: Option<Vec<u8>>)
    ensures
        r is Some == credentials_fit(
            username@,
            match password {
                Some(p) => Some(p@),
                None => None,
            },
        ),
        r is Some ==> r->Some_0@ == basic_credentials(
            username@,
            match password {
                Some(p) => Some(p@),
                None => None,
            },
        ) && visible(r->Some_0@),
{
    let ghost given = match password {
        Some(p) => Some(p@),
        None => None,
    };
    let mut plain = to_vec(username.as_bytes());
    plain.push(0x3a);
    if let Some(p) = password {
        extend(&mut plain, p.as_bytes());
    }
    proof {
        assert(plain@ =~= user_pass(username@, given));
    }
    if plain.len() > usize::MAX / 2 {
        return None;
    }
    let encoded = base64_encode(plain.as_slice());
    let mut out: Vec<u8> = vec![0x42u8, 0x61, 0x73, 0x69, 0x63, 0x20];
    assert(out@ =~= basic_prefix());
    extend(&mut out, encoded.as_slice());
    Some(out)
}

/// The header value for a bearer token: the word `Bearer`, a space, and the
/// token as it is.
pub fn bearer_auth(token: &str) -> (r: Vec<u8>)
    ensures
        r@ == bearer_credentials(token@),
{
    let mut out: Vec<u8> = vec![0x42u8, 0x65, 0x61, 0x72, 0x65, 0x72, 0x20];
    assert(out@ =~= bearer_prefix());
    extend(&mut out, token.as_bytes());
    out
}

} // verus!
