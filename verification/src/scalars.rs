//! Scalars of the query interface that JSON cannot carry as numbers.

use vstd::prelude::*;
use vstd::string::*;

verus! {

/// An unsigned 64-bit integer that travels as a decimal string.
#[derive(Clone, Copy, Debug, PartialEq, Eq)]
pub struct BigInt(pub u64);

/// The value of a decimal digit, for the characters `0` to `9`.
pub open spec fn digit_value(c: char) -> Option<nat> {
    if '0' <= c && c <= '9' {
        Some((c as nat - '0' as nat) as nat)
    } else {
        None
    }
}

/// The number that a run of decimal digits stands for; nothing if a
/// character is not a digit. The empty run stands for zero.
pub open spec fn digits_value(text: Seq<char>) -> Option<nat>
    decreases text.len(),
{
    if text.len() == 0 {
        Some(0)
    } else {
        match (digits_value(text.drop_last()), digit_value(text.last())) {
            (Some(front), Some(digit)) => Some(front * 10 + digit),
            _ => None,
        }
    }
}

/// The number that a text stands for: an optional `+`, then one or more
/// decimal digits, with a value that fits sixty-four bits.
pub open spec fn parsed(text: Seq<char>) -> Option<u64> {
    let digits = if text.len() > 0 && text[0] == '+' {
        text.skip(1)
    } else {
        text
    };
    if digits.len() == 0 {
        None
    } else {
        match digits_value(digits) {
            Some(value) => if value <= u64::MAX {
                Some(value as u64)
            } else {
                None
            },
            None => None,
        }
    }
}

/// Once a run of digits stands for more than fits sixty-four bits, so does
/// every longer run that starts with it.
pub proof fn lemma_digits_grow(text: Seq<char>, upto: int)
    requires
        0 <= upto <= text.len(),
        digits_value(text) is Some,
    ensures
        digits_value(text.take(upto)) is Some,
        digits_value(text.take(upto))->Some_0 <= digits_value(text)->Some_0,
    decreases text.len() - upto,
{
    if upto < text.len() {
        lemma_digits_grow(text, upto + 1);
        assert(text.take(upto + 1).drop_last() =~= text.take(upto));
    } else {
        assert(text.take(upto) =~= text);
    }
}

/// A run of digits stands for nothing as soon as one of its beginnings does.
pub proof fn lemma_digits_fail(text: Seq<char>, upto: int)
    requires
        0 <= upto <= text.len(),
        digits_value(text.take(upto)) is None,
    ensures
        digits_value(text) is None,
    decreases text.len() - upto,
{
    if upto < text.len() {
        assert(text.take(upto + 1).drop_last() =~= text.take(upto));
        lemma_digits_fail(text, upto + 1);
    } else {
        assert(text.take(upto) =~= text);
    }
}

impl BigInt {
    /// Reads a number from its decimal text.
    pub fn parse(text: &str) -> (value: Option<BigInt>)
        ensures
            match value {
                Some(number) => parsed(text@) == Some(number.0),
                None => parsed(text@) is None,
            },
    {
        let len = text.unicode_len();
        let start: usize = if len > 0 && text.get_char(0) == '+' {
            1
        } else {
            0
        };
        if start == len {
            return None;
        }
        let ghost digits = text@.skip(start as int);
        let mut value: u64 = 0;
        let mut i: usize = start;
        assert(digits.take(0) =~= Seq::<char>::empty());
        assert(text@.skip(0) =~= text@);
        while i < len
            invariant
                start <= i <= len,
                len == text@.len(),
                digits == text@.skip(start as int),
                digits.len() == len - start,
                parsed(text@) == match digits_value(digits) {
                    Some(all) => if all <= u64::MAX {
                        Some(all as u64)
                    } else {
                        None
                    },
                    None => None,
                },
                digits_value(digits.take(i - start)) == Some(value as nat),
            decreases len - i,
        {
            let c = text.get_char(i);
            let ghost next = digits.take(i + 1 - start);
            proof {
                assert(next.drop_last() =~= digits.take(i - start));
                assert(next.last() == c);
            }
            if c < '0' || c > '9' {
                proof {
                    lemma_digits_fail(digits, i + 1 - start);
                }
                return None;
            }
            let digit: u64 = (c as u32 - '0' as u32) as u64;
            if value > (u64::MAX - digit) / 10 {
                proof {
                    assert(value * 10 + digit > u64::MAX);
                    if digits_value(digits) is Some {
                        lemma_digits_grow(digits, i + 1 - start);
                    }
                }
                return None;
            }
            value = value * 10 + digit;
            i += 1;
        }
        assert(digits.take(len - start) =~= digits);
        Some(BigInt(value))
    }
}

} // verus!
