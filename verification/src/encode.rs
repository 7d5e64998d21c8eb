//! Serializers of request bodies and query strings.

use vstd::prelude::*;

verus! {

/// A JSON value.
#[verifier::external_type_specification]
#[verifier::external_body]
pub struct ExJsonValue(serde_json::Value);

/// The pairs of a list as the mathematics sees them.
pub open spec fn pairs_view(pairs: Seq<(String, String)>) -> Seq<(Seq<char>, Seq<char>)> {
    Seq::new(pairs.len(), |i: int| (pairs[i].0@, pairs[i].1@))
}

/// What the URL-encoding serializer makes of a list of pairs: their
/// `application/x-www-form-urlencoded` text, or nothing where it fails.
pub uninterp spec fn urlencoded(pairs: Seq<(Seq<char>, Seq<char>)>) -> Option<Seq<char>>;

/// `serde_urlencoded::to_string` on a list of pairs of texts: the encoded
/// text of the pairs, `None` where the serializer reports an error.
#[verifier::external_body]
pub(crate) fn urlencode(pairs: &Vec<(String, String)>) -> (r: Option<String>)
    ensures
        crate::url::opt_view(r) == urlencoded(pairs_view(pairs@)),
{
    serde_urlencoded::to_string(pairs).ok()
}

/// `serde_json::to_vec`: the JSON text of a value, where the serializer
/// succeeds; `None` where it fails.
#[verifier::external_body]
pub(crate) fn json_to_vec(value: &serde_json::Value) -> (r: Option<Vec<u8>>) {
    serde_json::to_vec(value).ok()
}

} // verus!
