//! The redirect policy.

use vstd::prelude::*;

verus! {

/// The number of redirects that the default policy follows at most.
pub const DEFAULT_MAX_REDIRECTS: usize = 10;

/// Whether and how far redirects are followed.
#[derive(Clone, Copy, Debug, PartialEq, Eq, Structural)]
pub enum Policy {
    /// No redirect is followed.
    Never,
    /// Redirects are followed up to this many in a row.
    Limited(usize),
    /// The caller decides on every redirect.
    Custom,
}

/// Why a redirect was refused.
#[derive(Clone, Copy, Debug, PartialEq, Eq, Structural)]
pub enum Refusal {
    TooManyRedirects,
    LoopDetected,
    /// The caller's policy refused.
    Policy,
}

/// What is done about a redirect.
#[derive(Clone, Copy, Debug, PartialEq, Eq, Structural)]
pub enum Action {
    /// The redirect is followed.
    Follow,
    /// The redirect is not followed; the response is handed on as it is.
    Stop,
    /// The request fails.
    Error(Refusal),
}

/// The texts of a list of URLs.
pub open spec fn texts(urls: Seq<String>) -> Seq<Seq<char>> {
    Seq::new(urls.len(), |i: int| urls[i]@)
}

impl Policy {
    /// The policy that follows up to `max` redirects.
    pub fn limited(max: usize) -> (p: Policy)
        ensures
            p == Policy::Limited(max),
    {
        Policy::Limited(max)
    }

    /// The policy that follows none.
    pub fn none() -> (p: Policy)
        ensures
            p == Policy::Never,
    {
        Policy::Never
    }

    /// The policy that asks the caller.
    pub fn custom() -> (p: Policy)
        ensures
            p == Policy::Custom,
    {
        Policy::Custom
    }

    /// What the policy says of a redirect to `next` after the URLs
    /// `previous` were visited; `custom` is what the caller's own policy
    /// says of it.
    ///
    /// A limited policy refuses once more URLs were visited than it allows
    /// redirects, and refuses to go where the request has been.
    pub open spec fn decided(
        self,
        next: Seq<char>,
        previous: Seq<Seq<char>>,
        custom: Action,
    ) -> Action {
        match self {
            Policy::Never => Action::Stop,
            Policy::Limited(max) => if previous.len() > max {
                Action::Error(Refusal::TooManyRedirects)
            } else if previous.contains(next) {
                Action::Error(Refusal::LoopDetected)
            } else {
                Action::Follow
            },
            Policy::Custom => custom,
        }
    }

    pub fn redirect(&self, next: &String, previous: &Vec<String>, custom: Action) -> (a: Action)
        ensures
            a == self.decided(next@, texts(previous@), custom),
    {
        match self {
            Policy::Never => Action::Stop,
            Policy::Limited(max) => {
                if previous.len() > *max {
                    return Action::Error(Refusal::TooManyRedirects);
                }
                let mut i: usize = 0;
                while i < previous.len()
                    invariant
                        i <= previous@.len(),
                        *self == Policy::Limited(*max),
                        previous@.len() <= *max,
                        forall|j: int| 0 <= j < i ==> texts(previous@)[j] != next@,
                    decreases previous@.len() - i,
                {
                    if previous[i] == *next {
                        assert(texts(previous@)[i as int] == next@);
                        return Action::Error(Refusal::LoopDetected);
                    }
                    i += 1;
                }
                Action::Follow
            },
            Policy::Custom => custom,
        }
    }
}

impl Default for Policy {
    fn default() -> (p: Policy)
        ensures
            p == Policy::Limited(DEFAULT_MAX_REDIRECTS),
    {
        Policy::Limited(DEFAULT_MAX_REDIRECTS)
    }
}

} // verus!
