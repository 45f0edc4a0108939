//! Addresses and transaction hashes as plain integers.

use std::str::FromStr;
use vstd::prelude::*;

verus! {

/// A 20-byte account address, read as one big-endian 160-bit number: `hi`
/// holds the first four bytes and `lo` the remaining sixteen.
#[derive(Clone, Copy, Debug, PartialEq, Eq, Hash, Structural)]
pub struct Address {
    pub hi: u32,
    pub lo: u128,
}

/// A 32-byte hash, read as one big-endian 256-bit number in two halves.
#[derive(Clone, Copy, Debug, PartialEq, Eq, Hash, Structural)]
pub struct B256 {
    pub hi: u128,
    pub lo: u128,
}

/// A 256-bit unsigned number in two halves.
#[derive(Clone, Copy, Debug, PartialEq, Eq, Hash, Structural)]
pub struct U256 {
    pub hi: u128,
    pub lo: u128,
}

impl U256 {
    /// The number zero.
    pub open spec fn zero_spec() -> U256 {
        U256 { hi: 0, lo: 0 }
    }

    /// The number zero.
    pub fn zero() -> (n: U256)
        ensures
            n == U256::zero_spec(),
    {
        U256 { hi: 0, lo: 0 }
    }
}

impl Default for Address {
    fn default() -> (a: Address)
        ensures
            a == Address::zero_spec(),
    {
        Address { hi: 0, lo: 0 }
    }
}

impl Address {
    /// The all-zero address.
    pub open spec fn zero_spec() -> Address {
        Address { hi: 0, lo: 0 }
    }
}

/// The value of a hexadecimal digit of either case.
pub open spec fn hex_digit(c: char) -> Option<nat> {
    if '0' <= c <= '9' {
        Some((c as nat - '0' as nat) as nat)
    } else if 'a' <= c <= 'f' {
        Some((c as nat - 'a' as nat + 10) as nat)
    } else if 'A' <= c <= 'F' {
        Some((c as nat - 'A' as nat + 10) as nat)
    } else {
        None
    }
}

/// The number that hexadecimal digits denote, most significant first;
/// `None` where a character is no such digit.
pub open spec fn hex_value(digits: Seq<char>) -> Option<nat>
    decreases digits.len(),
{
    if digits.len() == 0 {
        Some(0)
    } else {
        match (hex_value(digits.drop_last()), hex_digit(digits.last())) {
            (Some(high), Some(low)) => Some(16 * high + low),
            _ => None,
        }
    }
}

/// The text without a leading `0x` or `0X`.
pub open spec fn without_hex_prefix(text: Seq<char>) -> Seq<char> {
    if text.len() >= 2 && text[0] == '0' && (text[1] == 'x' || text[1] == 'X') {
        text.skip(2)
    } else {
        text
    }
}

/// The address that a text denotes: forty hexadecimal digits of either
/// case, with or without a leading `0x`.
pub open spec fn address_of_text(text: Seq<char>) -> Option<Address> {
    let digits = without_hex_prefix(text);
    if digits.len() != 40 {
        None
    } else {
        match hex_value(digits) {
            Some(value) => Some(
                Address {
                    hi: (value / 0x1_0000_0000_0000_0000_0000_0000_0000_0000nat) as u32,
                    lo: (value % 0x1_0000_0000_0000_0000_0000_0000_0000_0000nat) as u128,
                },
            ),
            None => None,
        }
    }
}

/// `Address::from_str` of `alloy_primitives`: the text is forty hexadecimal
/// digits of either case after an optional `0x`, and the address is the
/// number that they denote; any other text is refused.
#[verifier::external_body]
fn address_from_str(text: &str) -> (address: Option<Address>)
    ensures
        address == address_of_text(text@),
{
    match alloy_primitives::Address::from_str(text) {
        Ok(parsed) => {
            let bytes = parsed.into_array();
            let (head, tail) = bytes.split_at(4);
            Some(Address {
                hi: u32::from_be_bytes(head.try_into().unwrap()),
                lo: u128::from_be_bytes(tail.try_into().unwrap()),
            })
        },
        Err(_) => None,
    }
}

impl Address {
    /// The address that a text denotes, if it denotes one.
    pub fn parse(text: &str) -> (address: Option<Address>)
        ensures
            address == address_of_text(text@),
    {
        address_from_str(text)
    }
}

/// Wrapped ether.
pub open spec fn weth() -> Address {
    Address { hi: 0xC02aaA39, lo: 0xb223FE8D0A0e5C4F27eAD9083C756Cc2 }
}

/// USD Coin.
pub open spec fn usdc() -> Address {
    Address { hi: 0xA0b86991, lo: 0xc6218b36c1d19D4a2e9Eb0cE3606eB48 }
}

/// Tether USD.
pub open spec fn usdt() -> Address {
    Address { hi: 0xdAC17F95, lo: 0x8D2ee523a2206206994597C13D831ec7 }
}

/// Dai stablecoin.
pub open spec fn dai() -> Address {
    Address { hi: 0x6B175474, lo: 0xE89094C44Da98b954EedeAC495271d0F }
}

pub fn weth_address() -> (a: Address)
    ensures
        a == weth(),
{
    Address { hi: 0xC02aaA39, lo: 0xb223FE8D0A0e5C4F27eAD9083C756Cc2 }
}

pub fn usdc_address() -> (a: Address)
    ensures
        a == usdc(),
{
    Address { hi: 0xA0b86991, lo: 0xc6218b36c1d19D4a2e9Eb0cE3606eB48 }
}

pub fn usdt_address() -> (a: Address)
    ensures
        a == usdt(),
{
    Address { hi: 0xdAC17F95, lo: 0x8D2ee523a2206206994597C13D831ec7 }
}

pub fn dai_address() -> (a: Address)
    ensures
        a == dai(),
{
    Address { hi: 0x6B175474, lo: 0xE89094C44Da98b954EedeAC495271d0F }
}

} // verus!
