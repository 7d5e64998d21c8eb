//! The retry of requests that an HTTP/2 connection dropped before the
//! server saw them.

use vstd::prelude::*;

verus! {

/// The number of times that a request is sent again by default.
pub const DEFAULT_MAX_RETRY: usize = 2;

/// What is known of a failed attempt.
#[derive(Clone, Copy, Debug, PartialEq, Eq, Structural)]
pub struct Failure {
    /// Whether the connection was closed before the response began: by a
    /// GOAWAY without an error, or by the reset of a stream that was never
    /// used.
    pub canceled_before_headers: bool,
    /// Whether the body of the request can be sent again, or there is none.
    pub body_cloneable: bool,
}

/// The retry policy of one request: how many retries are left.
#[derive(Clone, Copy, Debug, PartialEq, Eq, Structural)]
pub struct Http2RetryPolicy {
    pub budget: usize,
}

impl Http2RetryPolicy {
    pub fn new(max_retry: usize) -> (p: Http2RetryPolicy)
        ensures
            p.budget == max_retry,
    {
        Http2RetryPolicy { budget: max_retry }
    }

    /// Whether a failure is retried under this policy: the connection must
    /// have been closed before the response began, the body must be there
    /// to send again, and the budget must not be spent.
    pub open spec fn retries(&self, failure: Failure) -> bool {
        failure.canceled_before_headers && failure.body_cloneable && self.budget > 0
    }

    /// Decides on a failed attempt: the policy for the next attempt, if
    /// there is to be one. Every retry costs one of the budget.
    pub fn retry(&self, failure: Failure) -> (next: Option<Http2RetryPolicy>)
        ensures
            next is Some == self.retries(failure),
            next is Some ==> next->Some_0.budget == self.budget - 1,
    {
        if failure.canceled_before_headers && failure.body_cloneable && self.budget > 0 {
            Some(Http2RetryPolicy { budget: self.budget - 1 })
        } else {
            None
        }
    }
}

/// The budget after `n` failures that can each be retried: what is left of
/// it, or nothing once it is spent.
pub open spec fn after_retries(policy: Http2RetryPolicy, n: nat) -> Option<Http2RetryPolicy>
    decreases n,
{
    if n == 0 {
        Some(policy)
    } else {
        match after_retries(policy, (n - 1) as nat) {
            Some(p) => if p.budget > 0 {
                Some(Http2RetryPolicy { budget: (p.budget - 1) as usize })
            } else {
                None
            },
            None => None,
        }
    }
}

/// A request is sent again at most as often as its budget says: `n`
/// failures in a row are all retried exactly if `n` is within the budget.
pub proof fn law_retry_budget(policy: Http2RetryPolicy, n: nat)
    ensures
        after_retries(policy, n) is Some == (n <= policy.budget),
        after_retries(policy, n) is Some ==> after_retries(policy, n)->Some_0.budget
            == policy.budget - n,
    decreases n,
{
    if n > 0 {
        law_retry_budget(policy, (n - 1) as nat);
    }
}

} // verus!
