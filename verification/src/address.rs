//! The address of a Bluetooth device.

use vstd::prelude::*;
use vstd::std_specs::cmp::PartialEqSpecImpl;
use vstd::std_specs::convert::FromSpec;
use vstd::std_specs::convert::FromSpecImpl;

verus! {

/// A Bluetooth device address: six octets, least-significant octet first.
#[derive(Debug, Copy, Clone, Eq)]
pub struct Address {
    bytes: [u8; 6],
}

impl View for Address {
    type V = Seq<u8>;

    closed spec fn view(&self) -> Seq<u8> {
        self.bytes@
    }
}

/// The lowercase hexadecimal digit for `nibble`, which is below 16.
pub open spec fn hex_digit(nibble: int) -> char {
    if nibble == 0 {
        '0'
    } else if nibble == 1 {
        '1'
    } else if nibble == 2 {
        '2'
    } else if nibble == 3 {
        '3'
    } else if nibble == 4 {
        '4'
    } else if nibble == 5 {
        '5'
    } else if nibble == 6 {
        '6'
    } else if nibble == 7 {
        '7'
    } else if nibble == 8 {
        '8'
    } else if nibble == 9 {
        '9'
    } else if nibble == 10 {
        'a'
    } else if nibble == 11 {
        'b'
    } else if nibble == 12 {
        'c'
    } else if nibble == 13 {
        'd'
    } else if nibble == 14 {
        'e'
    } else {
        'f'
    }
}

/// The two hexadecimal digits of `octet`, high digit first.
pub open spec fn hex_pair(octet: u8) -> Seq<char> {
    seq![hex_digit(octet as int / 16), hex_digit(octet as int % 16)]
}

/// The text of an address whose octets are `bytes`: the six octets in
/// hexadecimal, the last one first, with a colon between any two.
pub open spec fn address_text(bytes: Seq<u8>) -> Seq<char>
    recommends
        bytes.len() == 6,
{
    hex_pair(bytes[5]) + seq![':'] + hex_pair(bytes[4]) + seq![':'] + hex_pair(bytes[3]) + seq![':']
        + hex_pair(bytes[2]) + seq![':'] + hex_pair(bytes[1]) + seq![':'] + hex_pair(bytes[0])
}

/// The hexadecimal digit for `nibble`, as text.
fn hex_str(nibble: u8) -> (digit: &'static str)
    requires
        nibble < 16,
    ensures
        digit@ == seq![hex_digit(nibble as int)],
{
    proof {
        reveal_strlit("0");
        reveal_strlit("1");
        reveal_strlit("2");
        reveal_strlit("3");
        reveal_strlit("4");
        reveal_strlit("5");
        reveal_strlit("6");
        reveal_strlit("7");
        reveal_strlit("8");
        reveal_strlit("9");
        reveal_strlit("a");
        reveal_strlit("b");
        reveal_strlit("c");
        reveal_strlit("d");
        reveal_strlit("e");
        reveal_strlit("f");
    }
    let digit = match nibble {
        0 => "0",
        1 => "1",
        2 => "2",
        3 => "3",
        4 => "4",
        5 => "5",
        6 => "6",
        7 => "7",
        8 => "8",
        9 => "9",
        10 => "a",
        11 => "b",
        12 => "c",
        13 => "d",
        14 => "e",
        _ => "f",
    };
    digit
}

/// Appends the two hexadecimal digits of `octet` to `text`.
fn push_hex(text: &mut String, octet: u8)
    ensures
        final(text)@ == old(text)@ + hex_pair(octet),
{
    text.append(hex_str(octet / 16));
    text.append(hex_str(octet % 16));
}

/// Appends a colon to `text`.
fn push_colon(text: &mut String)
    ensures
        final(text)@ == old(text)@ + seq![':'],
{
    proof {
        reveal_strlit(":");
    }
    text.append(":");
}

impl Address {
    /// Builds an address from a slice of exactly six octets.
    pub fn from_slice(bytes: &[u8]) -> (addr: Address)
        requires
            bytes@.len() == 6,
        ensures
            addr@ == bytes@,
    {
        let arr: [u8; 6] = [bytes[0], bytes[1], bytes[2], bytes[3], bytes[4], bytes[5]];
        Address { bytes: arr }
    }

    /// The address as text: six pairs of lowercase hexadecimal digits with
    /// colons between them, the most significant octet first, which is the
    /// last octet of the address as it is stored.
    pub fn to_string(&self) -> (text: String)
        ensures
            text@ == address_text(self@),
    {
        let mut text = String::new();
        push_hex(&mut text, self.bytes[5]);
        push_colon(&mut text);
        push_hex(&mut text, self.bytes[4]);
        push_colon(&mut text);
        push_hex(&mut text, self.bytes[3]);
        push_colon(&mut text);
        push_hex(&mut text, self.bytes[2]);
        push_colon(&mut text);
        push_hex(&mut text, self.bytes[1]);
        push_colon(&mut text);
        push_hex(&mut text, self.bytes[0]);
        text
    }

    /// The all-zero address.
    pub fn zero() -> (addr: Address)
        ensures
            addr@ == Seq::new(6, |i: int| 0u8),
    {
        Address { bytes: [0u8; 6] }
    }
}

impl PartialEq for Address {
    fn eq(&self, other: &Self) -> (equal: bool) {
        let equal = self.bytes[0] == other.bytes[0] && self.bytes[1] == other.bytes[1]
            && self.bytes[2] == other.bytes[2] && self.bytes[3] == other.bytes[3]
            && self.bytes[4] == other.bytes[4] && self.bytes[5] == other.bytes[5];
        assert(equal == (self@ =~= other@));
        equal
    }
}

impl PartialEqSpecImpl for Address {
    open spec fn obeys_eq_spec() -> bool {
        true
    }

    open spec fn eq_spec(&self, other: &Self) -> bool {
        self@ == other@
    }
}

impl From<[u8; 6]> for Address {
    fn from(bytes: [u8; 6]) -> (addr: Self)
        ensures
            addr@ == bytes@,
    {
        Address { bytes }
    }
}

impl FromSpecImpl<[u8; 6]> for Address {
    open spec fn obeys_from_spec() -> bool {
        true
    }

    closed spec fn from_spec(bytes: [u8; 6]) -> Self {
        Address { bytes }
    }
}

impl From<Address> for [u8; 6] {
    fn from(addr: Address) -> (bytes: Self)
        ensures
            bytes@ == addr@,
    {
        addr.bytes
    }
}

impl FromSpecImpl<Address> for [u8; 6] {
    open spec fn obeys_from_spec() -> bool {
        true
    }

    closed spec fn from_spec(addr: Address) -> Self {
        addr.bytes
    }
}

impl AsRef<[u8]> for Address {
    fn as_ref(&self) -> (bytes: &[u8])
        ensures
            bytes@ == self@,
    {
        &self.bytes
    }
}

/// An address made from an array of six octets holds those octets, and gives
/// the same array back.
pub proof fn theorem_array_round_trip(bytes: [u8; 6])
    ensures
        <Address as FromSpec<[u8; 6]>>::from_spec(bytes)@ == bytes@,
        <[u8; 6] as FromSpec<Address>>::from_spec(
            <Address as FromSpec<[u8; 6]>>::from_spec(bytes),
        ) == bytes,
{
}

/// The text of an address is seventeen characters. It begins with the pair
/// of the last octet and ends with the pair of the first; colons stand between
/// the pairs.
pub proof fn theorem_text_shape(bytes: Seq<u8>)
    requires
        bytes.len() == 6,
    ensures
        address_text(bytes).len() == 17,
        address_text(bytes).subrange(0, 2) == hex_pair(bytes[5]),
        address_text(bytes).subrange(15, 17) == hex_pair(bytes[0]),
        address_text(bytes)[2] == ':',
        address_text(bytes)[5] == ':',
        address_text(bytes)[8] == ':',
        address_text(bytes)[11] == ':',
        address_text(bytes)[14] == ':',
{
}

} // verus!
