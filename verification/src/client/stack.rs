//! The stack of layers through which a request passes.

use vstd::prelude::*;
use crate::client::service::ClientService;
use crate::config::AcceptEncoding;
use crate::redirect::policy::Policy;
use crate::time::Duration;

verus! {

/// One layer of the stack.
#[derive(Clone, Copy, Debug, PartialEq, Eq, Structural)]
pub enum Layer {
    /// Announces the content codings that the client reads, and decodes the
    /// response body.
    Decompression(AcceptEncoding),
    /// Bounds the time of the whole exchange and of each read of the body.
    ResponseBodyTimeout { total: Option<Duration>, read: Option<Duration> },
    /// Sends the cookies of the store and stores those that come back.
    CookieManager,
    FollowRedirect { policy: Policy, referer: bool, https_only: bool },
    /// Sends a request again where an HTTP/2 connection failed before the
    /// server saw it.
    Http2Retry { max: usize },
    /// A layer of the caller, by the number under which its owner keeps it.
    User(u64),
    /// Bounds the time until the response begins.
    Timeout { total: Option<Duration>, read: Option<Duration> },
    /// Turns a timer error that comes out of the stack into an error of the
    /// request.
    MapTimeoutError,
}

/// The stack of a client: the transport client at its base, and the layers
/// around it, the innermost first.
#[derive(Debug)]
pub struct Stack {
    pub service: ClientService,
    pub layers: Vec<Layer>,
}

} // verus!
