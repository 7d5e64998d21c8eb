//! Shared ownership.

use std::sync::Arc;
use vstd::prelude::*;

verus! {

/// `Arc::clone`: a second handle on the same value.
#[verifier::external_body]
pub(crate) fn share<T>(inner: &Arc<T>) -> (r: Arc<T>)
    ensures
        *r == **inner,
{
    inner.clone()
}

} // verus!
