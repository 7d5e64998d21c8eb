//! Header names, header values, and the ordered multimap that a request
//! carries them in.

pub mod map;
pub mod order;
pub mod original;

use vstd::prelude::*;
use vstd::string::StringSliceAdditionalSpecFns;
use crate::bytes::{lower, lowered, to_lower, to_vec};

verus! {

/// The longest header name, in bytes.
pub const MAX_HEADER_NAME_LEN: usize = 65535;

/// Whether `b` may stand in a header name: a letter, a digit, or one of
/// ``!#$%&'*+-.^_`|~``.
pub open spec fn is_token(b: u8) -> bool {
    ||| 0x30 <= b <= 0x39
    ||| 0x41 <= b <= 0x5a
    ||| 0x61 <= b <= 0x7a
    ||| b == 0x21
    ||| 0x23 <= b <= 0x27
    ||| b == 0x2a
    ||| b == 0x2b
    ||| b == 0x2d
    ||| b == 0x2e
    ||| b == 0x5e
    ||| b == 0x5f
    ||| b == 0x60
    ||| b == 0x7c
    ||| b == 0x7e
}

/// Whether `s` can be a header name, in whatever case.
pub open spec fn valid_name(s: Seq<u8>) -> bool {
    &&& 1 <= s.len() <= MAX_HEADER_NAME_LEN
    &&& forall|i: int| 0 <= i < s.len() ==> is_token(#[trigger] s[i])
}

/// Whether `b` may stand in a header value: any byte but the control
/// characters other than the horizontal tab.
pub open spec fn is_value_byte(b: u8) -> bool {
    (b >= 32 && b != 127) || b == 0x09
}

/// Whether `s` can be a header value.
pub open spec fn valid_value(s: Seq<u8>) -> bool {
    forall|i: int| 0 <= i < s.len() ==> is_value_byte(#[trigger] s[i])
}

/// Whether `b` is a printable ASCII character, a space or a horizontal tab.
pub open spec fn is_visible(b: u8) -> bool {
    (32 <= b < 127) || b == 0x09
}

/// Whether `s` is text: printable ASCII, spaces and tabs only.
pub open spec fn visible(s: Seq<u8>) -> bool {
    forall|i: int| 0 <= i < s.len() ==> is_visible(#[trigger] s[i])
}

fn is_token_byte(b: u8) -> (r: bool)
    ensures
        r == is_token(b),
{
    (0x30 <= b && b <= 0x39) || (0x41 <= b && b <= 0x5a) || (0x61 <= b && b <= 0x7a) || b == 0x21
        || (0x23 <= b && b <= 0x27) || b == 0x2a || b == 0x2b || b == 0x2d || b == 0x2e || b
        == 0x5e || b == 0x5f || b == 0x60 || b == 0x7c || b == 0x7e
}

/// A name that cannot be a header name.
#[derive(Clone, Copy, Debug, PartialEq, Eq, Structural)]
pub struct InvalidHeaderName;

/// A value that cannot be a header value.
#[derive(Clone, Copy, Debug, PartialEq, Eq, Structural)]
pub struct InvalidHeaderValue;

/// The name of a header, in lower case.
#[derive(Debug)]
pub struct HeaderName {
    bytes: Vec<u8>,
}

impl View for HeaderName {
    type V = Seq<u8>;

    closed spec fn view(&self) -> Seq<u8> {
        self.bytes@
    }
}

impl Clone for HeaderName {
    fn clone(&self) -> (r: HeaderName)
        ensures
            r@ == self@,
    {
        HeaderName { bytes: to_vec(self.bytes.as_slice()) }
    }
}

impl HeaderName {
    /// The name that `src` spells, in lower case; an error where `src` is
    /// empty, too long, or holds a byte that no name may hold.
    pub fn from_bytes(src: &[u8]) -> (r: Result<HeaderName, InvalidHeaderName>)
        ensures
            r is Ok == valid_name(src@),
            r is Ok ==> r->Ok_0@ == lowered(src@),
    {
        if src.len() == 0 || src.len() > MAX_HEADER_NAME_LEN {
            return Err(InvalidHeaderName);
        }
        let mut bytes: Vec<u8> = Vec::new();
        let mut i: usize = 0;
        while i < src.len()
            invariant
                i <= src@.len(),
                bytes@.len() == i,
                forall|j: int| 0 <= j < i ==> is_token(#[trigger] src@[j]),
                forall|j: int| 0 <= j < i ==> bytes@[j] == lower(src@[j]),
            decreases src@.len() - i,
        {
            if !is_token_byte(src[i]) {
                return Err(InvalidHeaderName);
            }
            bytes.push(to_lower(src[i]));
            i += 1;
        }
        assert(bytes@ =~= lowered(src@));
        Ok(HeaderName { bytes })
    }

    /// The name that the text `src` spells; see `from_bytes`.
    pub fn from_str(src: &str) -> (r: Result<HeaderName, InvalidHeaderName>)
        ensures
            r is Ok == valid_name(src.spec_bytes()),
            r is Ok ==> r->Ok_0@ == lowered(src.spec_bytes()),
    {
        HeaderName::from_bytes(src.as_bytes())
    }

    /// A name spelt out in the source, taken as it stands.
    pub(crate) fn known(src: &str) -> (r: HeaderName)
        ensures
            r@ == src.spec_bytes(),
    {
        HeaderName { bytes: to_vec(src.as_bytes()) }
    }

    pub fn as_bytes(&self) -> (r: &[u8])
        ensures
            r@ == self@,
    {
        self.bytes.as_slice()
    }

    /// Whether this is the name that `other` is.
    pub fn is(&self, other: &HeaderName) -> (r: bool)
        ensures
            r == (self@ == other@),
    {
        crate::bytes::bytes_eq(self.bytes.as_slice(), other.bytes.as_slice())
    }
}

/// The value of a header: its bytes, and whether it is to be kept out of
/// logs and tables.
#[derive(Debug)]
pub struct HeaderValue {
    bytes: Vec<u8>,
    sensitive: bool,
}

impl View for HeaderValue {
    type V = Seq<u8>;

    closed spec fn view(&self) -> Seq<u8> {
        self.bytes@
    }
}

impl Clone for HeaderValue {
    fn clone(&self) -> (r: HeaderValue)
        ensures
            r@ == self@,
            r.sensitive() == self.sensitive(),
    {
        HeaderValue { bytes: to_vec(self.bytes.as_slice()), sensitive: self.sensitive }
    }
}

/// The decimal digits of `n`, the most significant first.
pub open spec fn decimal(n: nat) -> Seq<u8>
    decreases n,
{
    if n < 10 {
        seq![(0x30 + n) as u8]
    } else {
        decimal(n / 10).push((0x30 + n % 10) as u8)
    }
}

impl HeaderValue {
    pub closed spec fn sensitive(&self) -> bool {
        self.sensitive
    }

    /// The value that holds the bytes of `src`; an error where one of them
    /// is a control character other than the tab.
    pub fn from_bytes(src: &[u8]) -> (r: Result<HeaderValue, InvalidHeaderValue>)
        ensures
            r is Ok == valid_value(src@),
            r is Ok ==> r->Ok_0@ == src@ && !r->Ok_0.sensitive(),
    {
        let mut i: usize = 0;
        while i < src.len()
            invariant
                i <= src@.len(),
                forall|j: int| 0 <= j < i ==> is_value_byte(#[trigger] src@[j]),
            decreases src@.len() - i,
        {
            let b = src[i];
            if !((b >= 32 && b != 127) || b == 0x09) {
                return Err(InvalidHeaderValue);
            }
            i += 1;
        }
        Ok(HeaderValue { bytes: to_vec(src), sensitive: false })
    }

    /// The value that holds the bytes of the text `src`, under the rule of
    /// `from_bytes`: text beyond ASCII is a value, a control character other
    /// than the tab is not.
    pub fn from_str(src: &str) -> (r: Result<HeaderValue, InvalidHeaderValue>)
        ensures
            r is Ok == valid_value(src.spec_bytes()),
            r is Ok ==> r->Ok_0@ == src.spec_bytes() && !r->Ok_0.sensitive(),
    {
        HeaderValue::from_bytes(src.as_bytes())
    }

    /// A value spelt out in the source, taken as it stands.
    pub(crate) fn known(src: &str) -> (r: HeaderValue)
        ensures
            r@ == src.spec_bytes(),
            !r.sensitive(),
    {
        HeaderValue { bytes: to_vec(src.as_bytes()), sensitive: false }
    }

    /// A value made of bytes that the caller knows to be valid.
    pub(crate) fn from_vec(bytes: Vec<u8>) -> (r: HeaderValue)
        ensures
            r@ == bytes@,
            !r.sensitive(),
    {
        HeaderValue { bytes, sensitive: false }
    }

    /// The value that spells `n` in decimal digits.
    pub fn from_u64(n: u64) -> (r: HeaderValue)
        ensures
            r@ == decimal(n as nat),
            !r.sensitive(),
    {
        let mut digits: Vec<u8> = Vec::new();
        let mut rest = n;
        // The digits come out least significant first.
        while rest >= 10
            invariant
                decimal(n as nat) == decimal(rest as nat) + digits@.reverse(),
            decreases rest,
        {
            let d = (rest % 10) as u8 + 0x30;
            proof {
                let r9 = decimal((rest / 10) as nat);
                assert(decimal(rest as nat) == r9.push(d));
                assert(digits@.push(d).reverse() =~= seq![d] + digits@.reverse());
                assert(r9.push(d) + digits@.reverse() =~= r9 + (seq![d] + digits@.reverse()));
            }
            digits.push(d);
            rest = rest / 10;
        }
        let d = rest as u8 + 0x30;
        proof {
            assert(decimal(rest as nat) == seq![d]);
            assert(digits@.push(d).reverse() =~= seq![d] + digits@.reverse());
        }
        digits.push(d);
        let mut bytes: Vec<u8> = Vec::new();
        let mut i = digits.len();
        while i > 0
            invariant
                i <= digits@.len(),
                bytes@.len() == digits@.len() - i,
                forall|j: int| 0 <= j < bytes@.len() ==> bytes@[j] == digits@.reverse()[j],
            decreases i,
        {
            i -= 1;
            bytes.push(digits[i]);
        }
        assert(bytes@ =~= digits@.reverse());
        HeaderValue { bytes, sensitive: false }
    }

    pub fn as_bytes(&self) -> (r: &[u8])
        ensures
            r@ == self@,
    {
        self.bytes.as_slice()
    }

    /// The bytes of the value where they are text, and nothing where a byte
    /// is not printable ASCII, a space or a tab.
    pub fn to_str(&self) -> (r: Option<&[u8]>)
        ensures
            r is Some == visible(self@),
            r is Some ==> r->Some_0@ == self@,
    {
        let mut i: usize = 0;
        while i < self.bytes.len()
            invariant
                i <= self.bytes@.len(),
                forall|j: int| 0 <= j < i ==> is_visible(#[trigger] self.bytes@[j]),
            decreases self.bytes@.len() - i,
        {
            let b = self.bytes[i];
            if !((32 <= b && b < 127) || b == 0x09) {
                return None;
            }
            i += 1;
        }
        Some(self.bytes.as_slice())
    }

    /// Marks the value as one to keep out of logs, or takes the mark off.
    pub fn set_sensitive(&mut self, val: bool)
        ensures
            final(self)@ == old(self)@,
            final(self).sensitive() == val,
    {
        self.sensitive = val;
    }

    pub fn is_sensitive(&self) -> (r: bool)
        ensures
            r == self.sensitive(),
    {
        self.sensitive
    }
}

} // verus!
