//! The rules by which one 32-byte word of a log stands for a value.
//!
//! A word of the data payload is held to its type: the bytes that the type
//! does not use must be the extension of the value, or the word is rejected.
//! A topic is not: the bytes that the type uses are taken and the rest is
//! ignored.

use crate::primitives::{two_pow_128, Address, B256, I256, U160, U256};
use vstd::prelude::*;

verus! {

/// The largest limb, sixteen bytes of `0xff`.
pub const LIMB_MAX: u128 = 0xffff_ffff_ffff_ffff_ffff_ffff_ffff_ffff;

/// The low limb of the smallest 24-bit negative number, `-2^23`, in two's complement.
pub const INT24_MIN_LIMB: u128 = 0xffff_ffff_ffff_ffff_ffff_ffff_ff80_0000;

/// What a payload word holds as an `address`: the first twelve bytes must be zero.
pub open spec fn address_word(word: B256) -> Option<Address> {
    if word.hi <= 0xffff_ffff {
        Some(Address { hi: word.hi as u32, lo: word.lo })
    } else {
        None
    }
}

/// What a payload word holds as a `uint160`: the first twelve bytes must be zero.
pub open spec fn uint160_word(word: B256) -> Option<U160> {
    if word.hi <= 0xffff_ffff {
        Some(U160 { hi: word.hi as u32, lo: word.lo })
    } else {
        None
    }
}

/// What a payload word holds as a `uint128`: the first sixteen bytes must be zero.
pub open spec fn uint128_word(word: B256) -> Option<u128> {
    if word.hi == 0 {
        Some(word.lo)
    } else {
        None
    }
}

/// What a payload word holds as a `uint16`: the first thirty bytes must be zero.
pub open spec fn uint16_word(word: B256) -> Option<u16> {
    if word.hi == 0 && word.lo <= 0xffff {
        Some(word.lo as u16)
    } else {
        None
    }
}

/// What a payload word holds as a `uint8`: the first thirty-one bytes must be zero.
pub open spec fn uint8_word(word: B256) -> Option<u8> {
    if word.hi == 0 && word.lo <= 0xff {
        Some(word.lo as u8)
    } else {
        None
    }
}

/// What a payload word holds as a `bool`: the first thirty-one bytes must be
/// zero, and any last byte but zero counts as true.
pub open spec fn bool_word(word: B256) -> Option<bool> {
    if word.hi == 0 && word.lo <= 0xff {
        Some(word.lo != 0)
    } else {
        None
    }
}

/// What a payload word holds as an `int24`: the first twenty-nine bytes must
/// repeat the sign of the last three.
pub open spec fn int24_word(word: B256) -> Option<i32> {
    if word.hi == 0 && word.lo < 0x80_0000 {
        Some(word.lo as i32)
    } else if word.hi == LIMB_MAX && word.lo >= INT24_MIN_LIMB {
        Some((word.lo as int - two_pow_128() as int) as i32)
    } else {
        None
    }
}

/// What a payload word holds as a `uint256`: every word is one.
pub open spec fn uint256_word(word: B256) -> U256 {
    U256 { hi: word.hi, lo: word.lo }
}

/// What a payload word holds as an `int256`: every word is one.
pub open spec fn int256_word(word: B256) -> I256 {
    I256 { hi: word.hi, lo: word.lo }
}

/// The address in a topic: its last twenty bytes.
pub open spec fn address_topic(topic: B256) -> Address {
    Address { hi: (topic.hi % 0x1_0000_0000) as u32, lo: topic.lo }
}

/// The `uint16` in a topic: its last two bytes.
pub open spec fn uint16_topic(topic: B256) -> u16 {
    (topic.lo % 0x1_0000) as u16
}

/// Reads a payload word as an `address`; `None` where the first twelve
/// bytes are not zero.
pub fn decode_address(word: B256) -> (r: Option<Address>)
    ensures
        r == address_word(word),
        r is Some <==> word.value() < 0x1_0000_0000 * two_pow_128(),
        r matches Some(a) ==> a.value() == word.value(),
{
    if word.hi <= 0xffff_ffff {
        Some(Address { hi: word.hi as u32, lo: word.lo })
    } else {
        None
    }
}

/// Reads a payload word as a `uint160`; `None` where the value does not fit.
pub fn decode_uint160(word: B256) -> (r: Option<U160>)
    ensures
        r == uint160_word(word),
        r is Some <==> word.value() < 0x1_0000_0000 * two_pow_128(),
        r matches Some(v) ==> v.value() == word.value(),
{
    if word.hi <= 0xffff_ffff {
        Some(U160 { hi: word.hi as u32, lo: word.lo })
    } else {
        None
    }
}

/// Reads a payload word as a `uint128`; `None` where the value does not fit.
pub fn decode_uint128(word: B256) -> (r: Option<u128>)
    ensures
        r == uint128_word(word),
        r is Some <==> word.value() < two_pow_128(),
        r matches Some(v) ==> v as nat == word.value(),
{
    if word.hi == 0 {
        Some(word.lo)
    } else {
        None
    }
}

/// Reads a payload word as a `uint16`; `None` where the value does not fit.
pub fn decode_uint16(word: B256) -> (r: Option<u16>)
    ensures
        r == uint16_word(word),
        r is Some <==> word.value() < 0x1_0000,
        r matches Some(v) ==> v as nat == word.value(),
{
    if word.hi == 0 && word.lo <= 0xffff {
        Some(word.lo as u16)
    } else {
        None
    }
}

/// Reads a payload word as a `uint8`; `None` where the value does not fit.
pub fn decode_uint8(word: B256) -> (r: Option<u8>)
    ensures
        r == uint8_word(word),
        r is Some <==> word.value() < 0x100,
        r matches Some(v) ==> v as nat == word.value(),
{
    if word.hi == 0 && word.lo <= 0xff {
        Some(word.lo as u8)
    } else {
        None
    }
}

/// Reads a payload word as a `bool`; `None` where the word is wider than a byte.
pub fn decode_bool(word: B256) -> (r: Option<bool>)
    ensures
        r == bool_word(word),
        r is Some <==> word.value() < 0x100,
        r matches Some(v) ==> v == (word.value() != 0),
{
    if word.hi == 0 && word.lo <= 0xff {
        Some(word.lo != 0)
    } else {
        None
    }
}

/// Reads a payload word as an `int24`; `None` where the value does not fit.
pub fn decode_int24(word: B256) -> (r: Option<i32>)
    ensures
        r == int24_word(word),
        r is Some <==> -0x80_0000 <= int256_word(word).value() < 0x80_0000,
        r matches Some(v) ==> v as int == int256_word(word).value(),
{
    if word.hi == 0 && word.lo < 0x80_0000 {
        Some(word.lo as i32)
    } else if word.hi == LIMB_MAX && word.lo >= INT24_MIN_LIMB {
        let above: u128 = word.lo - INT24_MIN_LIMB;
        Some(above as i32 - 0x80_0000)
    } else {
        None
    }
}

/// Reads a word as a `uint256`.
pub fn decode_uint256(word: B256) -> (r: U256)
    ensures
        r == uint256_word(word),
        r.value() == word.value(),
{
    U256 { hi: word.hi, lo: word.lo }
}

/// Reads a word as an `int256`.
pub fn decode_int256(word: B256) -> (r: I256)
    ensures
        r == int256_word(word),
{
    I256 { hi: word.hi, lo: word.lo }
}

/// Takes the address out of a topic, whatever the first twelve bytes hold.
pub fn address_from_topic(topic: B256) -> (r: Address)
    ensures
        r == address_topic(topic),
        r.value() == topic.value() % (0x1_0000_0000 * two_pow_128()),
{
    let hi: u128 = topic.hi % 0x1_0000_0000;
    proof {
        let w = two_pow_128() as int;
        let q = (topic.hi / 0x1_0000_0000) as int;
        let kept = hi as int * w + topic.lo as int;
        assert(topic.value() == q * (0x1_0000_0000 * w) + kept) by (nonlinear_arith)
            requires
                topic.value() == topic.hi as int * w + topic.lo as int,
                topic.hi as int == q * 0x1_0000_0000 + hi as int,
                kept == hi as int * w + topic.lo as int,
        ;
        assert(0 <= kept < 0x1_0000_0000 * w);
        vstd::arithmetic::div_mod::lemma_fundamental_div_mod_converse(
            topic.value() as int,
            0x1_0000_0000 * w,
            q,
            kept,
        );
    }
    Address { hi: hi as u32, lo: topic.lo }
}

/// Takes the `uint16` out of a topic, whatever the first thirty bytes hold.
pub fn uint16_from_topic(topic: B256) -> (r: u16)
    ensures
        r == uint16_topic(topic),
        r as nat == topic.value() % 0x1_0000,
{
    let low: u128 = topic.lo % 0x1_0000;
    proof {
        let w = two_pow_128() as int;
        let part = 0x1_0000_0000_0000_0000_0000_0000_0000int;
        let hi = topic.hi as int;
        let lo_q = (topic.lo / 0x1_0000) as int;
        let q = hi * part + lo_q;
        assert(w == part * 0x1_0000);
        assert(hi * w + (lo_q * 0x1_0000 + low as int) == (hi * part + lo_q) * 0x1_0000
            + low as int) by (nonlinear_arith)
            requires
                w == part * 0x1_0000,
        ;
        assert(topic.value() == q * 0x1_0000 + low as int);
        vstd::arithmetic::div_mod::lemma_fundamental_div_mod_converse(
            topic.value() as int,
            0x1_0000,
            q,
            low as int,
        );
    }
    low as u16
}

} // verus!
