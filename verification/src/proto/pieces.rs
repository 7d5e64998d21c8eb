//! Comma-separated lists and decimal numbers, as header values spell them.

use vstd::prelude::*;
use vstd::slice::slice_subrange;
use crate::bytes::{trim_range, trimmed};

verus! {

/// The byte `,`.
pub const COMMA: u8 = 0x2c;

/// The place of the first comma of `s` at or behind `from`; the length of
/// `s` where there is none.
pub open spec fn piece_end(s: Seq<u8>, from: int) -> int
    decreases s.len() - from,
{
    if from < 0 || from >= s.len() {
        s.len() as int
    } else if s[from] == COMMA {
        from
    } else {
        piece_end(s, from + 1)
    }
}

/// The pieces into which the commas cut the part of `s` from `from` on. A
/// string without a comma is one piece, and so is the empty string.
pub open spec fn pieces_from(s: Seq<u8>, from: int) -> Seq<Seq<u8>>
    decreases s.len() - from,
{
    if from < 0 || from > s.len() {
        Seq::empty()
    } else {
        let end = piece_end(s, from);
        if from <= end < s.len() {
            seq![s.subrange(from, end)] + pieces_from(s, end + 1)
        } else {
            seq![s.subrange(from, s.len() as int)]
        }
    }
}

/// The pieces into which the commas cut `s`.
#[verifier::inline]
pub open spec fn pieces(s: Seq<u8>) -> Seq<Seq<u8>> {
    pieces_from(s, 0)
}

pub proof fn lemma_piece_end(s: Seq<u8>, from: int)
    requires
        0 <= from <= s.len(),
    ensures
        from <= piece_end(s, from) <= s.len(),
        piece_end(s, from) < s.len() ==> s[piece_end(s, from)] == COMMA,
        forall|i: int| from <= i < piece_end(s, from) ==> #[trigger] s[i] != COMMA,
    decreases s.len() - from,
{
    if from < s.len() && s[from] != COMMA {
        lemma_piece_end(s, from + 1);
    }
}

/// Where the first comma at or behind `from` is found at `end`, that is the
/// end of the piece.
pub proof fn lemma_piece_end_is(s: Seq<u8>, from: int, end: int)
    requires
        0 <= from <= end <= s.len(),
        forall|i: int| from <= i < end ==> #[trigger] s[i] != COMMA,
        end < s.len() ==> s[end] == COMMA,
    ensures
        piece_end(s, from) == end,
    decreases end - from,
{
    if from < end {
        lemma_piece_end_is(s, from + 1, end);
    }
}

/// There is always a piece, and the last one is what stands behind the last
/// comma.
pub proof fn lemma_last_piece(s: Seq<u8>, from: int, last: int)
    requires
        0 <= from <= last <= s.len(),
        forall|i: int| last <= i < s.len() ==> #[trigger] s[i] != COMMA,
        last > from ==> s[last - 1] == COMMA,
    ensures
        pieces_from(s, from).len() > 0,
        pieces_from(s, from).last() == s.subrange(last, s.len() as int),
    decreases s.len() - from,
{
    lemma_piece_end(s, from);
    let end = piece_end(s, from);
    if end < s.len() {
        assert(end < last);
        lemma_last_piece(s, end + 1, last);
        let rest = pieces_from(s, end + 1);
        assert((seq![s.subrange(from, end)] + rest).last() == rest.last());
    } else {
        if last > from {
            assert(s[last - 1] == COMMA);
            assert(false);
        }
    }
}

/// The end of the piece of `s` that begins at `from`.
pub fn find_piece_end(s: &[u8], from: usize) -> (end: usize)
    requires
        from <= s@.len(),
    ensures
        end == piece_end(s@, from as int),
        from <= end <= s@.len(),
{
    let mut end = from;
    while end < s.len() && s[end] != COMMA
        invariant
            from <= end <= s@.len(),
            forall|i: int| from <= i < end ==> #[trigger] s@[i] != COMMA,
        decreases s@.len() - end,
    {
        end += 1;
    }
    proof {
        lemma_piece_end_is(s@, from as int, end as int);
    }
    end
}

/// The value of a string of decimal digits.
pub open spec fn number(s: Seq<u8>) -> nat
    decreases s.len(),
{
    if s.len() == 0 {
        0
    } else {
        (number(s.drop_last()) * 10 + (s.last() - 0x30)) as nat
    }
}

/// Whether `b` is a decimal digit.
pub open spec fn is_digit(b: u8) -> bool {
    0x30 <= b <= 0x39
}

/// Whether `s` is made of decimal digits only.
pub open spec fn all_digits(s: Seq<u8>) -> bool {
    forall|i: int| 0 <= i < s.len() ==> is_digit(#[trigger] s[i])
}

/// The number that `s` spells: `s` must be one or more decimal digits, with
/// no sign and nothing else, and the number must fit 64 bits.
pub open spec fn digits_value(s: Seq<u8>) -> Option<u64> {
    if s.len() > 0 && all_digits(s) && number(s) <= u64::MAX {
        Some(number(s) as u64)
    } else {
        None
    }
}

/// A string of digits spells no less than any of its front parts.
pub proof fn lemma_number_grows(s: Seq<u8>, n: int)
    requires
        all_digits(s),
        0 <= n <= s.len(),
    ensures
        number(s.take(n)) <= number(s),
    decreases s.len() - n,
{
    if n < s.len() {
        lemma_number_grows(s, n + 1);
        let next = s.take(n + 1);
        assert(next.drop_last() =~= s.take(n));
        assert(is_digit(s[n]));
        assert(next.last() == s[n]);
        assert(number(next) >= number(s.take(n))) by (nonlinear_arith)
            requires
                number(next) == number(s.take(n)) * 10 + (s[n] - 0x30),
                s[n] >= 0x30,
        ;
    } else {
        assert(s.take(n) =~= s);
    }
}

/// Reads the number that `bytes` spells.
pub fn from_digits(bytes: &[u8]) -> (r: Option<u64>)
    ensures
        r == digits_value(bytes@),
{
    // cannot use FromStr for u64, since it allows a signed prefix
    let mut result: u64 = 0;
    if bytes.len() == 0 {
        return None;
    }
    let mut i: usize = 0;
    assert(bytes@.take(0) =~= Seq::<u8>::empty());
    while i < bytes.len()
        invariant
            i <= bytes@.len(),
            all_digits(bytes@.take(i as int)),
            result == number(bytes@.take(i as int)),
        decreases bytes@.len() - i,
    {
        let b = bytes[i];
        let ghost next = bytes@.take(i + 1);
        proof {
            assert(next.drop_last() =~= bytes@.take(i as int));
            assert(next.last() == b);
        }
        if 0x30 <= b && b <= 0x39 {
            proof {
                assert forall|j: int| 0 <= j < next.len() implies is_digit(#[trigger] next[j]) by {
                    if j < i {
                        assert(next[j] == bytes@.take(i as int)[j]);
                    }
                }
            }
            let d = (b - 0x30) as u64;
            let tens = match result.checked_mul(10) {
                Some(t) => t,
                None => {
                    proof {
                        if all_digits(bytes@) {
                            lemma_number_grows(bytes@, i + 1);
                        }
                    }
                    return None;
                },
            };
            result = match tens.checked_add(d) {
                Some(t) => t,
                None => {
                    proof {
                        if all_digits(bytes@) {
                            lemma_number_grows(bytes@, i + 1);
                        }
                    }
                    return None;
                },
            };
        } else {
            // not a DIGIT, get outta here!
            assert(!is_digit(bytes@[i as int]));
            return None;
        }
        i += 1;
    }
    assert(bytes@.take(bytes@.len() as int) =~= bytes@);
    Some(result)
}

/// Reads the number that the part of `s` from `from` up to `to` spells once
/// the blanks at its ends are taken off.
pub fn number_in(s: &[u8], from: usize, to: usize) -> (r: Option<u64>)
    requires
        from <= to <= s@.len(),
    ensures
        r == digits_value(trimmed(s@.subrange(from as int, to as int))),
{
    let (a, b) = trim_range(s, from, to);
    from_digits(slice_subrange(s, a, b))
}

} // verus!
