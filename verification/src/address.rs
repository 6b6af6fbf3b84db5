//! Account addresses: thirty-two bytes, ordered as byte strings.

use vstd::prelude::*;
use vstd::string::*;
use crate::text::{digit_char, hex_bytes, push_char, push_hex};

verus! {

/// Number of bytes in an address.
pub const ADDRESS_LENGTH: usize = 32;

/// A thirty-two byte account or object address.
#[derive(Clone, Copy, Debug, PartialEq, Eq, PartialOrd, Ord, Hash)]
pub struct Address {
    pub bytes: [u8; 32],
}

/// How two addresses stand to each other in byte-string order.
#[derive(Clone, Copy, Debug, PartialEq, Eq)]
pub enum Rank {
    Before,
    Same,
    After,
}

/// Byte-string order on equally long strings: `a` comes before `b` when, at
/// the first position where they differ, `a` holds the smaller byte.
pub open spec fn bytes_before(a: Seq<u8>, b: Seq<u8>) -> bool {
    exists|i: int|
        0 <= i < a.len() && i < b.len() && a[i] < b[i] && forall|j: int|
            0 <= j < i ==> a[j] == b[j]
}

/// The text of an address: `0x` and sixty-four lower-case hexadecimal digits.
pub open spec fn address_text(bytes: Seq<u8>) -> Seq<char> {
    seq!['0', 'x'] + hex_bytes(bytes)
}

/// The value of a hexadecimal digit of either case.
pub open spec fn hex_value(c: char) -> Option<u8> {
    if '0' <= c && c <= '9' {
        Some((c as u8 - '0' as u8) as u8)
    } else if 'a' <= c && c <= 'f' {
        Some((c as u8 - 'a' as u8 + 10) as u8)
    } else if 'A' <= c && c <= 'F' {
        Some((c as u8 - 'A' as u8 + 10) as u8)
    } else {
        None
    }
}

/// The value of the digit at `at` in a run of digits that is read as if it
/// had zeros in front to make sixty-four: zero in the part made up, the
/// digit's value elsewhere.
pub open spec fn nibble(digits: Seq<char>, at: int) -> u8 {
    let lead = 64 - digits.len();
    if at < lead {
        0
    } else {
        match hex_value(digits[at - lead]) {
            Some(value) => value,
            None => 0,
        }
    }
}

/// The address that a text names: `0x`, then one to sixty-four hexadecimal
/// digits of either case. Fewer than sixty-four digits name the low end of
/// the address; the rest is zero.
pub open spec fn hex_address(text: Seq<char>) -> Option<Seq<u8>> {
    let digits = text.skip(2);
    if 3 <= text.len() <= 66 && text[0] == '0' && text[1] == 'x' && forall|i: int|
        0 <= i < digits.len() ==> hex_value(#[trigger] digits[i]) is Some {
        Some(Seq::new(32, |i: int| (nibble(digits, 2 * i) * 16 + nibble(digits, 2 * i + 1)) as u8))
    } else {
        None
    }
}

impl View for Address {
    type V = Seq<u8>;

    open spec fn view(&self) -> Seq<u8> {
        self.bytes@
    }
}

impl Address {
    /// Whether `self` comes strictly before `other`.
    pub open spec fn before(self, other: Address) -> bool {
        bytes_before(self@, other@)
    }

    /// The address whose last byte is `low` and whose other bytes are zero.
    pub open spec fn small(low: u8) -> Seq<u8> {
        Seq::new(32, |i: int| if i == 31 { low } else { 0u8 })
    }

    /// Wraps thirty-two bytes.
    pub fn new(bytes: [u8; 32]) -> (address: Address)
        ensures
            address.bytes == bytes,
            address@ == bytes@,
    {
        Address { bytes }
    }

    /// The address made of zero bytes but for the last one, which is `low`.
    pub fn from_u8(low: u8) -> (address: Address)
        ensures
            address@ == Address::small(low),
    {
        let mut bytes = [0u8; 32];
        bytes[31] = low;
        let address = Address { bytes };
        assert(address@ =~= Address::small(low));
        address
    }

    /// The bytes of the address.
    pub fn as_bytes(&self) -> (bytes: &[u8; 32])
        ensures
            bytes@ == self@,
    {
        &self.bytes
    }

    /// Compares two addresses as byte strings.
    pub fn rank(&self, other: &Address) -> (rank: Rank)
        ensures
            rank == Rank::Before <==> self.before(*other),
            rank == Rank::Same <==> *self == *other,
            rank == Rank::After <==> other.before(*self),
    {
        let mut i: usize = 0;
        while i < 32
            invariant
                i <= 32,
                forall|j: int| 0 <= j < i ==> self.bytes@[j] == other.bytes@[j],
            decreases 32 - i,
        {
            if self.bytes[i] < other.bytes[i] {
                proof {
                    assert(self@[i as int] < other@[i as int]);
                    assert(self.before(*other));
                    lemma_before_excludes(*self, *other);
                }
                return Rank::Before;
            }
            if self.bytes[i] > other.bytes[i] {
                proof {
                    assert(other@[i as int] < self@[i as int]);
                    assert(other.before(*self));
                    lemma_before_excludes(*other, *self);
                }
                return Rank::After;
            }
            i += 1;
        }
        proof {
            assert(self.bytes@ =~= other.bytes@);
            lemma_same_bytes(*self, *other);
            assert(!self.before(*other));
            assert(!other.before(*self));
        }
        Rank::Same
    }

    /// Reads an address from `0x` and up to sixty-four hexadecimal digits.
    pub fn from_hex(text: &str) -> (address: Option<Address>)
        ensures
            match address {
                Some(a) => hex_address(text@) == Some(a@),
                None => hex_address(text@) is None,
            },
    {
        let len = text.unicode_len();
        if len < 3 || len > 66 {
            return None;
        }
        if text.get_char(0) != '0' || text.get_char(1) != 'x' {
            return None;
        }
        let ghost digits = text@.skip(2);
        let lead: usize = 66 - len;
        let mut nibbles = [0u8; 64];
        let mut i: usize = 2;
        while i < len
            invariant
                2 <= i <= len,
                3 <= len <= 66,
                len == text@.len(),
                lead == 66 - len,
                digits == text@.skip(2),
                forall|k: int| 0 <= k < i - 2 ==> hex_value(#[trigger] digits[k]) is Some,
                forall|k: int| 0 <= k < lead + i - 2 ==> #[trigger] nibbles@[k] == nibble(digits, k),
                forall|k: int| 0 <= k < 64 ==> #[trigger] nibbles@[k] < 16,
            decreases len - i,
        {
            let c = text.get_char(i);
            assert(digits[i - 2] == c);
            let value: u8 = if '0' <= c && c <= '9' {
                (c as u32 - '0' as u32) as u8
            } else if 'a' <= c && c <= 'f' {
                (c as u32 - 'a' as u32 + 10) as u8
            } else if 'A' <= c && c <= 'F' {
                (c as u32 - 'A' as u32 + 10) as u8
            } else {
                return None;
            };
            nibbles[lead + i - 2] = value;
            i += 1;
        }
        let mut bytes = [0u8; 32];
        let mut j: usize = 0;
        while j < 32
            invariant
                j <= 32,
                forall|k: int| 0 <= k < 64 ==> #[trigger] nibbles@[k] == nibble(digits, k),
                forall|k: int| 0 <= k < 64 ==> #[trigger] nibbles@[k] < 16,
                forall|k: int|
                    0 <= k < j ==> #[trigger] bytes@[k] == (nibble(digits, 2 * k) * 16 + nibble(
                        digits,
                        2 * k + 1,
                    )) as u8,
            decreases 32 - j,
        {
            bytes[j] = nibbles[2 * j] * 16 + nibbles[2 * j + 1];
            j += 1;
        }
        let address = Address { bytes };
        assert(address@ =~= hex_address(text@)->Some_0);
        Some(address)
    }

    /// The address as `0x` followed by its bytes in hexadecimal.
    pub fn to_hex(&self) -> (text: String)
        ensures
            text@ == address_text(self@),
    {
        let mut text = String::new();
        push_char(&mut text, '0');
        push_char(&mut text, 'x');
        push_hex(&mut text, self.bytes.as_slice());
        assert(text@ =~= address_text(self@));
        text
    }
}

/// The two digits that stand for the byte at `at` in the hexadecimal
/// rendering of a byte string.
pub proof fn lemma_hex_bytes_at(bytes: Seq<u8>, at: int)
    requires
        0 <= at < bytes.len(),
    ensures
        hex_bytes(bytes).len() == 2 * bytes.len(),
        hex_bytes(bytes)[2 * at] == digit_char(bytes[at] as int / 16),
        hex_bytes(bytes)[2 * at + 1] == digit_char(bytes[at] as int % 16),
    decreases bytes.len(),
{
    lemma_hex_bytes_len(bytes);
    lemma_hex_bytes_len(bytes.drop_last());
    if at < bytes.len() - 1 {
        lemma_hex_bytes_at(bytes.drop_last(), at);
    }
}

/// The hexadecimal rendering has two digits for each byte.
pub proof fn lemma_hex_bytes_len(bytes: Seq<u8>)
    ensures
        hex_bytes(bytes).len() == 2 * bytes.len(),
    decreases bytes.len(),
{
    if bytes.len() > 0 {
        lemma_hex_bytes_len(bytes.drop_last());
    }
}

/// The text of an address names that address: reading what `to_hex` wrote
/// gives the address back.
pub proof fn lemma_hex_round_trip(address: Address)
    ensures
        hex_address(address_text(address@)) == Some(address@),
{
    let bytes = address@;
    let text = address_text(bytes);
    let digits = text.skip(2);
    lemma_hex_bytes_len(bytes);
    assert(digits =~= hex_bytes(bytes));
    assert forall|i: int| 0 <= i < digits.len() implies hex_value(#[trigger] digits[i]) is Some
        && hex_value(digits[i])->Some_0 == (if i % 2 == 0 {
        bytes[i / 2] as int / 16
    } else {
        bytes[i / 2] as int % 16
    }) by {
        lemma_hex_bytes_at(bytes, i / 2);
    }
    let read = hex_address(text)->Some_0;
    assert forall|k: int| 0 <= k < 32 implies read[k] == bytes[k] by {
        assert(hex_value(digits[2 * k]) is Some);
        assert(hex_value(digits[2 * k + 1]) is Some);
    }
    assert(read =~= bytes);
}

/// Addresses with the same bytes are the same address.
pub proof fn lemma_same_bytes(a: Address, b: Address)
    requires
        a@ == b@,
    ensures
        a == b,
{
    assert(a.bytes@ =~= b.bytes@);
    assert(a.bytes == b.bytes);
}

/// An address that comes before another is different from it and does not
/// come after it.
pub proof fn lemma_before_excludes(a: Address, b: Address)
    requires
        a.before(b),
    ensures
        a != b,
        !b.before(a),
{
    let i = choose|i: int|
        0 <= i < a@.len() && i < b@.len() && a@[i] < b@[i] && forall|j: int|
            0 <= j < i ==> a@[j] == b@[j];
    if b.before(a) {
        let k = choose|k: int|
            0 <= k < b@.len() && k < a@.len() && b@[k] < a@[k] && forall|j: int|
                0 <= j < k ==> b@[j] == a@[j];
        assert(false);
    }
}

/// Byte-string order is transitive.
pub proof fn lemma_before_transitive(a: Address, b: Address, c: Address)
    requires
        a.before(b),
        b.before(c),
    ensures
        a.before(c),
{
    let i = choose|i: int|
        0 <= i < a@.len() && i < b@.len() && a@[i] < b@[i] && forall|j: int|
            0 <= j < i ==> a@[j] == b@[j];
    let k = choose|k: int|
        0 <= k < b@.len() && k < c@.len() && b@[k] < c@[k] && forall|j: int|
            0 <= j < k ==> b@[j] == c@[j];
    let m = if i <= k { i } else { k };
    assert(0 <= m < a@.len() && m < c@.len() && a@[m] < c@[m] && forall|j: int|
        0 <= j < m ==> a@[j] == c@[j]);
}

} // verus!
