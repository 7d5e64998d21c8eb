//! Redirects: the policy that decides whether one is followed, and the step
//! that turns a redirecting response into the next request.

pub mod follow;
pub mod policy;
