use vstd::prelude::*;
use crate::text::{replace_char, replaced, unsigned_body};
use std::str::FromStr;

verus! {

/// One more than the largest value a 48-bit Bluetooth address can take.
pub const ADDRESS_LIMIT: u64 = 0x1_0000_0000_0000;

/// A Bluetooth device address, held as the 48-bit number whose big-endian
/// octets are the six fields of its text form `XX:XX:XX:XX:XX:XX`.
#[derive(Clone, Copy, Debug, PartialEq, Eq, Structural)]
pub struct BtAddress {
    pub value: u64,
}

/// The number whose big-endian octets are the six given ones.
pub open spec fn octets_value(o: Seq<u8>) -> nat {
    (o[0] as nat) * 0x100_0000_0000 + (o[1] as nat) * 0x1_0000_0000 + (o[2] as nat) * 0x100_0000
        + (o[3] as nat) * 0x1_0000 + (o[4] as nat) * 0x100 + (o[5] as nat)
}

impl BtAddress {
    /// An address is well formed when it fits in 48 bits.
    pub open spec fn wf(self) -> bool {
        self.value < ADDRESS_LIMIT
    }

    /// The address `00:00:00:00:00:00` (`bluer::Address::any`).
    pub fn any() -> (r: BtAddress)
        ensures
            r.value == 0,
            r.wf(),
    {
        BtAddress { value: 0 }
    }

    /// The address whose six octets, most significant first, are `octets`.
    pub fn from_octets(octets: [u8; 6]) -> (r: BtAddress)
        ensures
            r.value == octets_value(octets@),
            r.wf(),
    {
        let v: u64 = (octets[0] as u64) * 0x100_0000_0000 + (octets[1] as u64) * 0x1_0000_0000
            + (octets[2] as u64) * 0x100_0000 + (octets[3] as u64) * 0x1_0000 + (octets[4] as u64)
            * 0x100 + (octets[5] as u64);
        BtAddress { value: v }
    }
}

// ---------------------------------------------------------------------------
// Reading an address from text (`bluer::Address::from_str`)
// ---------------------------------------------------------------------------

/// The value of a hexadecimal digit (`0`-`9`, `a`-`f`, `A`-`F`).
pub open spec fn hex_digit_value(c: char) -> Option<nat> {
    let x = c as u32;
    if 48 <= x && x <= 57 {
        Some((x - 48) as nat)
    } else if 97 <= x && x <= 102 {
        Some((x - 87) as nat)
    } else if 65 <= x && x <= 70 {
        Some((x - 55) as nat)
    } else {
        None
    }
}

/// Whether every character of `s` is a hexadecimal digit.
pub open spec fn all_hex(s: Seq<char>) -> bool {
    forall|i: int| 0 <= i < s.len() ==> #[trigger] hex_digit_value(s[i]) is Some
}

/// The number that a run of hexadecimal digits denotes.
pub open spec fn hex_value(s: Seq<char>) -> nat
    decreases s.len(),
{
    if s.len() == 0 {
        0
    } else {
        hex_value(s.drop_last()) * 16 + hex_digit_value(s.last()).unwrap_or(0)
    }
}

/// What `u8::from_str_radix(field, 16)` accepts: an optional `+`, then one or
/// more hexadecimal digits whose value fits in a byte.
pub open spec fn hex_octet(field: Seq<char>) -> Option<u8> {
    let body = unsigned_body(field);
    if body.len() > 0 && all_hex(body) && hex_value(body) <= 255 {
        Some(hex_value(body) as u8)
    } else {
        None
    }
}

/// The pieces of `s` between the `:` separators, as `str::split(':')` gives
/// them (a text without `:` is one piece; empty pieces are kept).
pub open spec fn colon_fields(s: Seq<char>) -> Seq<Seq<char>>
    decreases s.len(),
{
    if s.len() == 0 {
        seq![Seq::<char>::empty()]
    } else {
        let rest = colon_fields(s.drop_last());
        if s.last() == ':' {
            rest.push(Seq::<char>::empty())
        } else {
            rest.update(rest.len() - 1, rest.last().push(s.last()))
        }
    }
}

/// The six octets that `bluer::Address::from_str` reads from `s`: the text
/// must split at `:` into exactly six fields, each one a hexadecimal byte.
pub open spec fn address_octets_from_text(s: Seq<char>) -> Option<Seq<u8>> {
    let f = colon_fields(s);
    if f.len() == 6 && (forall|i: int| 0 <= i < 6 ==> #[trigger] hex_octet(f[i]) is Some) {
        Some(Seq::new(6, |i: int| hex_octet(f[i]).unwrap()))
    } else {
        None
    }
}

/// The address that `s` denotes, if it denotes one.
pub open spec fn address_from_text(s: Seq<char>) -> Option<BtAddress> {
    match address_octets_from_text(s) {
        Some(o) => Some(BtAddress { value: octets_value(o) as u64 }),
        None => None,
    }
}

/// Calls `bluer::Address::from_str`, which splits the text at `:`, reads each
/// field with `u8::from_str_radix(field, 16)` and accepts exactly six fields;
/// the contract states that reading, and hands back the six octets.
#[verifier::external_body]
fn bluer_address_octets(s: &str) -> (r: Option<[u8; 6]>)
    ensures
        match address_octets_from_text(s@) {
            Some(o) => r is Some && r->0@ == o,
            None => r is None,
        },
{
    match bluer::Address::from_str(s) {
        Ok(address) => Some(address.0),
        Err(_) => None,
    }
}

/// Reads a Bluetooth address from its text form, as `bluer::Address` does.
pub fn parse_address(s: &str) -> (r: Option<BtAddress>)
    ensures
        r == address_from_text(s@),
        r matches Some(a) ==> a.wf(),
{
    match bluer_address_octets(s) {
        Some(octets) => Some(BtAddress::from_octets(octets)),
        None => None,
    }
}

/// A device alias that only spells an address (with `-` or `:` between the
/// octets): such a device has no real name yet.
pub open spec fn names_an_address(alias: Seq<char>) -> bool {
    address_from_text(replaced(alias, '-', ':')) is Some
}

/// Whether the alias only spells an address: the alias with every `-` turned
/// into `:` reads as an address.
pub fn alias_is_address(alias: &str) -> (r: bool)
    ensures
        r == names_an_address(alias@),
{
    let colons = replace_char(alias, '-', ':');
    parse_address(colons.as_str()).is_some()
}

} // verus!
