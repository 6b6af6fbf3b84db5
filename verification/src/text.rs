//! Text building blocks: decimal numbers, hexadecimal bytes, escaped byte
//! strings and whitespace trimming, each with its mathematical meaning.

use vstd::prelude::*;
use vstd::string::*;

verus! {

/// Appends one character to a string.
///
/// Trusted: calls `String::push` of the standard library, which is documented
/// to append the given character to the end of the string.
#[verifier::external_body]
pub(crate) fn push_char(text: &mut String, c: char)
    ensures
        final(text)@ == old(text)@.push(c),
{
    text.push(c)
}

/// Whether a character carries the Unicode `White_Space` property.
pub uninterp spec fn is_white_space(c: char) -> bool;

/// Tells whether a character is whitespace.
///
/// Trusted: calls `char::is_whitespace` of the standard library. The set of
/// whitespace characters is the one Unicode defines; it is named here, not
/// listed.
#[verifier::external_body]
pub(crate) fn char_is_whitespace(c: char) -> (white: bool)
    ensures
        white == is_white_space(c),
{
    c.is_whitespace()
}

/// The sixteen hexadecimal digits, lower case, by value.
pub open spec fn hex_digits() -> Seq<char> {
    seq!['0', '1', '2', '3', '4', '5', '6', '7', '8', '9', 'a', 'b', 'c', 'd', 'e', 'f']
}

/// The digit that stands for `value`, for `value` below sixteen.
pub open spec fn digit_char(value: int) -> char
    recommends
        0 <= value < 16,
{
    hex_digits()[value]
}

/// The decimal numeral of `n`, most significant digit first, without leading
/// zeros.
pub open spec fn decimal(n: nat) -> Seq<char>
    decreases n,
{
    if n < 10 {
        seq![digit_char(n as int)]
    } else {
        decimal(n / 10).push(digit_char((n % 10) as int))
    }
}

/// The two lower-case hexadecimal digits of a byte.
pub open spec fn hex_byte(b: u8) -> Seq<char> {
    seq![digit_char(b as int / 16), digit_char(b as int % 16)]
}

/// The lower-case hexadecimal rendering of a byte string, two digits a byte.
pub open spec fn hex_bytes(bytes: Seq<u8>) -> Seq<char>
    decreases bytes.len(),
{
    if bytes.len() == 0 {
        Seq::empty()
    } else {
        hex_bytes(bytes.drop_last()) + hex_byte(bytes.last())
    }
}

/// The printable rendering of one byte: a backslash escape for tab, carriage
/// return, line feed, backslash and both quotes, the character itself for the
/// other printable ASCII bytes, and `\x` with two hexadecimal digits for the
/// rest.
pub open spec fn escaped_byte(b: u8) -> Seq<char> {
    if b == 9 {
        seq!['\\', 't']
    } else if b == 13 {
        seq!['\\', 'r']
    } else if b == 10 {
        seq!['\\', 'n']
    } else if b == 92 {
        seq!['\\', '\\']
    } else if b == 39 {
        seq!['\\', '\'']
    } else if b == 34 {
        seq!['\\', '"']
    } else if 32 <= b <= 126 {
        seq![b as char]
    } else {
        seq!['\\', 'x'] + hex_byte(b)
    }
}

/// The printable rendering of a byte string: each byte escaped in turn.
pub open spec fn escaped(bytes: Seq<u8>) -> Seq<char>
    decreases bytes.len(),
{
    if bytes.len() == 0 {
        Seq::empty()
    } else {
        escaped(bytes.drop_last()) + escaped_byte(bytes.last())
    }
}

/// Number of whitespace characters at the front of `text`.
pub open spec fn leading_white(text: Seq<char>) -> nat
    decreases text.len(),
{
    if text.len() > 0 && is_white_space(text[0]) {
        1 + leading_white(text.skip(1))
    } else {
        0
    }
}

/// Number of whitespace characters at the back of `text`.
pub open spec fn trailing_white(text: Seq<char>) -> nat
    decreases text.len(),
{
    if text.len() > 0 && is_white_space(text.last()) {
        1 + trailing_white(text.drop_last())
    } else {
        0
    }
}

/// `text` without its leading and trailing whitespace.
pub open spec fn trimmed(text: Seq<char>) -> Seq<char> {
    let front = text.skip(leading_white(text) as int);
    front.take(front.len() - trailing_white(front))
}

/// The character of a hexadecimal digit.
pub fn hex_digit(value: u8) -> (c: char)
    requires
        value < 16,
    ensures
        c == digit_char(value as int),
{
    match value {
        0 => '0',
        1 => '1',
        2 => '2',
        3 => '3',
        4 => '4',
        5 => '5',
        6 => '6',
        7 => '7',
        8 => '8',
        9 => '9',
        10 => 'a',
        11 => 'b',
        12 => 'c',
        13 => 'd',
        14 => 'e',
        _ => 'f',
    }
}

/// Appends the decimal numeral of `n` to `text`.
pub fn push_decimal(text: &mut String, n: u64)
    ensures
        final(text)@ == old(text)@ + decimal(n as nat),
    decreases n,
{
    if n >= 10 {
        push_decimal(text, n / 10);
    }
    let digit: u8 = (n % 10) as u8;
    push_char(text, hex_digit(digit));
    proof {
        let before = old(text)@;
        if n >= 10 {
            assert(before + decimal(n as nat) =~= (before + decimal((n / 10) as nat)).push(
                digit_char((n % 10) as int),
            ));
        } else {
            assert(before + decimal(n as nat) =~= before.push(digit_char(n as int)));
        }
    }
}

/// Appends the two hexadecimal digits of `b` to `text`.
pub fn push_hex_byte(text: &mut String, b: u8)
    ensures
        final(text)@ == old(text)@ + hex_byte(b),
{
    push_char(text, hex_digit(b / 16));
    push_char(text, hex_digit(b % 16));
    assert(text@ =~= old(text)@ + hex_byte(b));
}

/// Appends the hexadecimal rendering of `bytes` to `text`.
pub fn push_hex(text: &mut String, bytes: &[u8])
    ensures
        final(text)@ == old(text)@ + hex_bytes(bytes@),
{
    let mut i: usize = 0;
    assert(bytes@.take(0) =~= Seq::<u8>::empty());
    assert(text@ =~= old(text)@ + hex_bytes(bytes@.take(0)));
    while i < bytes.len()
        invariant
            i <= bytes.len(),
            text@ == old(text)@ + hex_bytes(bytes@.take(i as int)),
        decreases bytes.len() - i,
    {
        push_hex_byte(text, bytes[i]);
        proof {
            let next = bytes@.take(i + 1);
            assert(next.drop_last() =~= bytes@.take(i as int));
            assert(next.last() == bytes@[i as int]);
            assert(text@ =~= old(text)@ + hex_bytes(next));
        }
        i += 1;
    }
    assert(bytes@.take(bytes.len() as int) =~= bytes@);
}

/// Appends the escaped rendering of one byte to `text`.
pub fn push_escaped_byte(text: &mut String, b: u8)
    ensures
        final(text)@ == old(text)@ + escaped_byte(b),
{
    if b == 9 {
        push_char(text, '\\');
        push_char(text, 't');
    } else if b == 13 {
        push_char(text, '\\');
        push_char(text, 'r');
    } else if b == 10 {
        push_char(text, '\\');
        push_char(text, 'n');
    } else if b == 92 {
        push_char(text, '\\');
        push_char(text, '\\');
    } else if b == 39 {
        push_char(text, '\\');
        push_char(text, '\'');
    } else if b == 34 {
        push_char(text, '\\');
        push_char(text, '"');
    } else if 32 <= b && b <= 126 {
        push_char(text, b as char);
    } else {
        push_char(text, '\\');
        push_char(text, 'x');
        push_hex_byte(text, b);
    }
    assert(text@ =~= old(text)@ + escaped_byte(b));
}

/// Appends the escaped rendering of `bytes` to `text`.
pub fn push_escaped(text: &mut String, bytes: &[u8])
    ensures
        final(text)@ == old(text)@ + escaped(bytes@),
{
    let mut i: usize = 0;
    assert(bytes@.take(0) =~= Seq::<u8>::empty());
    assert(text@ =~= old(text)@ + escaped(bytes@.take(0)));
    while i < bytes.len()
        invariant
            i <= bytes.len(),
            text@ == old(text)@ + escaped(bytes@.take(i as int)),
        decreases bytes.len() - i,
    {
        push_escaped_byte(text, bytes[i]);
        proof {
            let next = bytes@.take(i + 1);
            assert(next.drop_last() =~= bytes@.take(i as int));
            assert(next.last() == bytes@[i as int]);
            assert(text@ =~= old(text)@ + escaped(next));
        }
        i += 1;
    }
    assert(bytes@.take(bytes.len() as int) =~= bytes@);
}

/// The decimal numeral of `n` as a string.
pub fn decimal_string(n: u64) -> (text: String)
    ensures
        text@ == decimal(n as nat),
{
    let mut text = String::new();
    push_decimal(&mut text, n);
    assert(text@ =~= decimal(n as nat));
    text
}

/// Removes leading and trailing whitespace.
pub fn trim(text: &str) -> (out: String)
    ensures
        out@ == trimmed(text@),
{
    let len = text.unicode_len();
    let mut start: usize = 0;
    assert(text@.skip(0) =~= text@);
    while start < len && char_is_whitespace(text.get_char(start))
        invariant
            len == text@.len(),
            start <= len,
            leading_white(text@) == start + leading_white(text@.skip(start as int)),
        decreases len - start,
    {
        proof {
            let rest = text@.skip(start as int);
            assert(rest[0] == text@[start as int]);
            assert(rest.skip(1) =~= text@.skip(start + 1));
        }
        start += 1;
    }
    proof {
        let rest = text@.skip(start as int);
        if start < len {
            assert(rest[0] == text@[start as int]);
        }
        assert(leading_white(rest) == 0);
    }
    let ghost front = text@.skip(start as int);
    let mut end: usize = len;
    assert(front.take(front.len() as int) =~= front);
    while end > start && char_is_whitespace(text.get_char(end - 1))
        invariant
            len == text@.len(),
            start <= end <= len,
            front == text@.skip(start as int),
            trailing_white(front) == (len - end) + trailing_white(front.take(end - start)),
        decreases end,
    {
        proof {
            let head = front.take(end - start);
            assert(head.last() == text@[end - 1]);
            assert(head.drop_last() =~= front.take(end - 1 - start));
        }
        end -= 1;
    }
    proof {
        let head = front.take(end - start);
        if end > start {
            assert(head.last() == text@[end - 1]);
        }
        assert(trailing_white(head) == 0);
        assert(text@.subrange(start as int, end as int) =~= front.take(
            front.len() - trailing_white(front),
        ));
    }
    text.substring_char(start, end).to_owned()
}

} // verus!
