//! The step from a redirecting response to the next request.

use vstd::prelude::*;
use vstd::string::StringSliceAdditionalSpecFns;
use vstd::utf8::encode_utf8;
use crate::body::Body;
use crate::error::{Error, Kind};
use crate::header::map::{reject, replaced, Field, HeaderMap};
use crate::header::{valid_value, HeaderName, HeaderValue};
use crate::method::Method;
use crate::redirect::policy::{texts, Action, Policy, Refusal};
use crate::url::{joined_url, Url, UrlView};

verus! {

/// How a client follows redirects.
#[derive(Clone, Copy, Debug, PartialEq, Eq, Structural)]
pub struct RedirectPolicy {
    pub policy: Policy,
    pub referer: bool,
    pub https_only: bool,
}

impl RedirectPolicy {
    pub fn new(policy: Policy) -> (r: RedirectPolicy)
        ensures
            r == (RedirectPolicy { policy, referer: false, https_only: false }),
    {
        RedirectPolicy { policy, referer: false, https_only: false }
    }

    pub fn with_referer(self, referer: bool) -> (r: RedirectPolicy)
        ensures
            r == (RedirectPolicy { referer, ..self }),
    {
        RedirectPolicy { policy: self.policy, referer, https_only: self.https_only }
    }

    pub fn with_https_only(self, https_only: bool) -> (r: RedirectPolicy)
        ensures
            r == (RedirectPolicy { https_only, ..self }),
    {
        RedirectPolicy { policy: self.policy, referer: self.referer, https_only }
    }
}

/// The request that a redirect was answered to, as far as the next one
/// depends on it.
#[derive(Debug)]
pub struct Attempt {
    pub method: Method,
    pub url: Url,
    pub headers: HeaderMap,
    /// The body, where it can be sent again; a stream cannot.
    pub body: Option<Body>,
}

/// What follows a response.
#[derive(Debug)]
pub enum Next {
    /// The response is the result.
    Done,
    /// The redirect is followed with this request.
    Follow(Attempt),
    /// The request fails.
    Error(Error),
}

/// Whether a status asks for a redirect.
pub open spec fn is_redirect(status: u16) -> bool {
    status == 301 || status == 302 || status == 303 || status == 307 || status == 308
}

/// Whether a redirect with this status turns the request into a GET without
/// a body: always after 303, and after 301 and 302 for a POST.
pub open spec fn becomes_get(status: u16, method: Method) -> bool {
    status == 303 || ((status == 301 || status == 302) && method is Post)
}

/// Whether two URLs name different servers.
pub open spec fn cross_host(previous: UrlView, next: UrlView) -> bool {
    previous.host != next.host || previous.port_or_known_default()
        != next.port_or_known_default()
}

/// The name `authorization`.
pub open spec fn authorization() -> Seq<u8> {
    "authorization".spec_bytes()
}

/// The name `cookie`.
pub open spec fn cookie() -> Seq<u8> {
    "cookie".spec_bytes()
}

/// The name `proxy-authorization`.
pub open spec fn proxy_authorization() -> Seq<u8> {
    "proxy-authorization".spec_bytes()
}

/// The name `www-authenticate`.
pub open spec fn www_authenticate() -> Seq<u8> {
    "www-authenticate".spec_bytes()
}

/// The name `referer`.
pub open spec fn referer() -> Seq<u8> {
    "referer".spec_bytes()
}

/// The headers without those that must not reach another server.
pub open spec fn without_sensitive(fields: Seq<Field>) -> Seq<Field> {
    reject(
        reject(reject(reject(fields, authorization()), cookie()), proxy_authorization()),
        www_authenticate(),
    )
}

/// What `Referer` says after a redirect from `previous` to `next`: the URL
/// left, without fragment and without user name and password; nothing where
/// the redirect leads from HTTPS to HTTP, or where that URL is no value
/// for a header.
pub open spec fn referer_value(previous: UrlView, next: UrlView) -> Option<Seq<u8>> {
    if previous.scheme == "https"@ && next.scheme == "http"@ {
        None
    } else {
        let text = encode_utf8(previous.without_userinfo().without_fragment().text());
        if valid_value(text) {
            Some(text)
        } else {
            None
        }
    }
}

/// The headers of the request that follows a redirect.
pub open spec fn next_headers(
    fields: Seq<Field>,
    previous: UrlView,
    next: UrlView,
    with_referer: bool,
) -> Seq<Field> {
    let kept = if cross_host(previous, next) {
        without_sensitive(fields)
    } else {
        fields
    };
    if with_referer {
        match referer_value(previous, next) {
            Some(v) => replaced(kept, Field { name: referer(), value: v, sensitive: false }),
            None => kept,
        }
    } else {
        kept
    }
}

fn make_referer(previous: &Url, next: &Url) -> (r: Option<HeaderValue>)
    ensures
        match r {
            Some(v) => referer_value(previous@, next@) == Some(v@) && !v.sensitive(),
            None => referer_value(previous@, next@) is None,
        },
{
    if previous.scheme_is("https") && next.scheme_is("http") {
        return None;
    }
    let mut stripped = previous.clone();
    stripped.clear_userinfo();
    stripped.set_fragment(None);
    let text = stripped.as_string();
    match HeaderValue::from_str(text.as_str()) {
        Ok(v) => Some(v),
        Err(_) => None,
    }
}

fn remove_sensitive_headers(headers: &mut HeaderMap)
    ensures
        final(headers)@ == without_sensitive(old(headers)@),
{
    headers.remove(&HeaderName::known("authorization"));
    headers.remove(&HeaderName::known("cookie"));
    headers.remove(&HeaderName::known("proxy-authorization"));
    headers.remove(&HeaderName::known("www-authenticate"));
}

fn same_host(previous: &Url, next: &Url) -> (b: bool)
    ensures
        b == !cross_host(previous@, next@),
{
    let hosts = match (previous.host_str(), next.host_str()) {
        (Some(a), Some(b)) => *a == *b,
        (None, None) => true,
        _ => false,
    };
    hosts && previous.port_or_known_default() == next.port_or_known_default()
}

impl RedirectPolicy {
    /// What follows a response with `status` and the location `location`
    /// to the request `attempt`, after the URLs `previous` were visited.
    ///
    /// `policy` is the policy of the request where it has one of its own;
    /// `custom` is what the caller's own policy says of the redirect, and
    /// counts under a custom policy only.
    ///
    /// A response without a redirect status or without a location is the
    /// result. So is one that asks to repeat (307, 308) a request whose
    /// body cannot be sent again, whatever the policy. A location that is
    /// no URL fails the request, and so does one that is not HTTPS for a
    /// client that is HTTPS only. Then the policy decides. A redirect that
    /// is followed drops the headers that must not reach another server,
    /// turns into a GET without a body where the status asks for that, and
    /// names the URL left behind in `Referer` where that is wanted.
    pub fn on_response(
        &self,
        attempt: Attempt,
        status: u16,
        location: Option<&str>,
        previous: &mut Vec<String>,
        policy: Option<Policy>,
        custom: Action,
    ) -> (next: Next)
        ensures
            ({
                let target = match location {
                    Some(l) => joined_url(attempt.url@.text(), l@),
                    None => None,
                };
                let ruling = match policy {
                    Some(p) => p,
                    None => self.policy,
                };
                if !is_redirect(status) || location is None {
                    next is Done && *final(previous) == *old(previous)
                } else if (status == 307 || status == 308) && attempt.body is None {
                    next is Done && *final(previous) == *old(previous)
                } else if target is None {
                    &&& next is Error
                    &&& next->Error_0.kind == Kind::Redirect
                    &&& *final(previous) == *old(previous)
                } else if self.https_only && target->Some_0.scheme != "https"@ {
                    &&& next is Error
                    &&& next->Error_0.kind == Kind::Redirect
                    &&& *final(previous) == *old(previous)
                } else {
                    match ruling.decided(target->Some_0.text(), texts(old(previous)@), custom) {
                        Action::Stop => next is Done && *final(previous) == *old(previous),
                        Action::Error(_) => {
                            &&& next is Error
                            &&& next->Error_0.kind == Kind::Redirect
                            &&& *final(previous) == *old(previous)
                        },
                        Action::Follow => {
                            &&& next is Follow
                            &&& texts(final(previous)@) == texts(old(previous)@).push(
                                attempt.url@.text(),
                            )
                            &&& next->Follow_0.url@ == target->Some_0
                            &&& next->Follow_0.headers@ == next_headers(
                                attempt.headers@,
                                attempt.url@,
                                target->Some_0,
                                self.referer,
                            )
                            &&& if becomes_get(status, attempt.method) {
                                next->Follow_0.method is Get && next->Follow_0.body == Some(
                                    Body::Empty,
                                )
                            } else {
                                next->Follow_0.method == attempt.method && next->Follow_0.body
                                    == attempt.body
                            }
                        },
                    }
                }
            }),
    {
        if !(status == 301 || status == 302 || status == 303 || status == 307 || status == 308) {
            return Next::Done;
        }
        let location = match location {
            Some(l) => l,
            None => {
                return Next::Done;
            },
        };
        if (status == 307 || status == 308) && attempt.body.is_none() {
            return Next::Done;
        }
        let current = attempt.url.as_string();
        let target = match Url::join(current.as_str(), location) {
            Some(u) => u,
            None => {
                return Next::Error(Error::redirect("invalid location", attempt.url));
            },
        };
        if self.https_only && !target.scheme_is("https") {
            return Next::Error(Error::redirect("redirect to a URL that is not HTTPS", target));
        }
        let ruling = match policy {
            Some(p) => p,
            None => self.policy,
        };
        let target_text = target.as_string();
        match ruling.redirect(&target_text, previous, custom) {
            Action::Stop => Next::Done,
            Action::Error(refusal) => {
                let message = match refusal {
                    Refusal::TooManyRedirects => "too many redirects",
                    Refusal::LoopDetected => "infinite redirect loop detected",
                    Refusal::Policy => "redirect refused",
                };
                Next::Error(Error::redirect(message, target))
            },
            Action::Follow => {
                let Attempt { method, url, headers, body } = attempt;
                let mut headers = headers;
                if !same_host(&url, &target) {
                    remove_sensitive_headers(&mut headers);
                }
                if self.referer {
                    if let Some(v) = make_referer(&url, &target) {
                        headers.insert(HeaderName::known("referer"), v);
                    }
                }
                let to_get = status == 303 || ((status == 301 || status == 302) && method.is_post());
                let (method, body) = if to_get {
                    (Method::Get, Some(Body::Empty))
                } else {
                    (method, body)
                };
                previous.push(current);
                proof {
                    assert(texts(previous@) =~= texts(old(previous)@).push(attempt.url@.text()));
                }
                Next::Follow(Attempt { method, url: target, headers, body })
            },
        }
    }
}

} // verus!
