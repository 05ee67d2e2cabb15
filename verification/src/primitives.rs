//! Fixed-width values as they appear in logs: 32-byte words, 20-byte
//! addresses and the 256-bit integers of event payloads.
//!
//! Every value is held as big-endian limbs: `hi` holds the leading bytes and
//! `lo` the last sixteen.

use vstd::prelude::*;

verus! {

/// `256^n`.
pub open spec fn pow256(n: nat) -> nat
    decreases n,
{
    if n == 0 {
        1
    } else {
        256 * pow256((n - 1) as nat)
    }
}

/// The number that a byte string denotes when read big-endian.
pub open spec fn be_value(bytes: Seq<u8>) -> nat
    decreases bytes.len(),
{
    if bytes.len() == 0 {
        0
    } else {
        be_value(bytes.drop_last()) * 256 + bytes.last() as nat
    }
}

/// `2^128`, the weight of the high limb of a word.
pub open spec fn two_pow_128() -> nat {
    0x1_0000_0000_0000_0000_0000_0000_0000_0000nat
}

/// The powers of 256 that the limbs go by.
pub proof fn lemma_pow256_values()
    ensures
        pow256(0) == 1,
        pow256(4) == 0x1_0000_0000,
        pow256(15) == 0x100_0000_0000_0000_0000_0000_0000_0000,
        pow256(16) == two_pow_128(),
{
    reveal_with_fuel(pow256, 17);
}

/// The powers of 256 are positive and grow with the exponent.
pub proof fn lemma_pow256_monotonic(a: nat, b: nat)
    requires
        a <= b,
    ensures
        pow256(a) <= pow256(b),
        pow256(a) >= 1,
    decreases b,
{
    if a < b {
        lemma_pow256_monotonic(a, (b - 1) as nat);
    } else if a > 0 {
        lemma_pow256_monotonic((a - 1) as nat, (a - 1) as nat);
    }
}

/// A big-endian byte string of length `n` denotes a number below `256^n`.
pub proof fn lemma_be_value_bound(bytes: Seq<u8>)
    ensures
        be_value(bytes) < pow256(bytes.len()),
    decreases bytes.len(),
{
    if bytes.len() > 0 {
        lemma_be_value_bound(bytes.drop_last());
    }
}

/// Putting a byte in front of a byte string adds that byte times `256^len`.
pub proof fn lemma_be_value_prepend(first: u8, rest: Seq<u8>)
    ensures
        be_value(seq![first] + rest) == first as nat * pow256(rest.len()) + be_value(rest),
    decreases rest.len(),
{
    let all = seq![first] + rest;
    if rest.len() == 0 {
        assert(all.drop_last() =~= Seq::<u8>::empty());
        assert(be_value(all.drop_last()) == 0);
        assert(all.last() == first);
        let unit = pow256(0);
        assert(unit == 1);
        assert(first as nat * unit == first as nat) by (nonlinear_arith)
            requires
                unit == 1,
        ;
    } else {
        assert(all.drop_last() =~= seq![first] + rest.drop_last());
        assert(all.last() == rest.last());
        lemma_be_value_prepend(first, rest.drop_last());
        let p = pow256((rest.len() - 1) as nat);
        assert(pow256(rest.len()) == 256 * p);
        assert((first as nat * p + be_value(rest.drop_last())) * 256 == first as nat * (256 * p)
            + be_value(rest.drop_last()) * 256) by (nonlinear_arith);
    }
}

/// The `len` bytes that spell `value` big-endian (the low `len` bytes of it,
/// where it needs more).
pub open spec fn be_bytes(value: nat, len: nat) -> Seq<u8>
    decreases len,
{
    if len == 0 {
        Seq::empty()
    } else {
        be_bytes(value / 256, (len - 1) as nat).push((value % 256) as u8)
    }
}

/// A byte string is the big-endian spelling of the number it denotes.
pub proof fn lemma_be_bytes_of_value(bytes: Seq<u8>)
    ensures
        be_bytes(be_value(bytes), bytes.len()) == bytes,
    decreases bytes.len(),
{
    if bytes.len() > 0 {
        lemma_be_bytes_of_value(bytes.drop_last());
        let v = be_value(bytes);
        let head = be_value(bytes.drop_last());
        assert(v == head * 256 + bytes.last() as nat);
        assert(v / 256 == head && v % 256 == bytes.last() as nat) by {
            vstd::arithmetic::div_mod::lemma_fundamental_div_mod_converse(
                v as int,
                256,
                head as int,
                bytes.last() as int,
            );
        }
        assert(be_bytes(v, bytes.len()) =~= bytes);
    } else {
        assert(be_bytes(be_value(bytes), 0) =~= bytes);
    }
}

/// The spelling of a number has the length asked for.
pub proof fn lemma_be_bytes_len(value: nat, len: nat)
    ensures
        be_bytes(value, len).len() == len,
    decreases len,
{
    if len > 0 {
        lemma_be_bytes_len(value / 256, (len - 1) as nat);
    }
}

/// Reads `len` bytes of `bytes`, starting at `offset`, as one big-endian number.
pub fn read_be(bytes: &[u8], offset: usize, len: usize) -> (r: u128)
    requires
        len <= 16,
        offset + len <= bytes.len(),
    ensures
        r as nat == be_value(bytes@.subrange(offset as int, offset + len)),
        (r as nat) < pow256(len as nat),
{
    let mut acc: u128 = 0;
    let mut i: usize = 0;
    while i < len
        invariant
            i <= len <= 16,
            offset + len <= bytes.len(),
            acc as nat == be_value(bytes@.subrange(offset as int, offset + i)),
        decreases len - i,
    {
        let ghost prefix = bytes@.subrange(offset as int, offset + i);
        let ghost next = bytes@.subrange(offset as int, offset + i + 1);
        proof {
            assert(next.drop_last() =~= prefix);
            lemma_be_value_bound(prefix);
            lemma_pow256_monotonic(i as nat, 15);
            lemma_pow256_values();
        }
        acc = acc * 256 + bytes[offset + i] as u128;
        i = i + 1;
    }
    proof {
        lemma_be_value_bound(bytes@.subrange(offset as int, offset + len));
    }
    acc
}

/// Writes `value` big-endian into the `len` bytes of `out` that start at
/// `start`, and leaves the other bytes as they were.
pub fn store_be<const N: usize>(out: &mut [u8; N], start: usize, len: usize, value: u128)
    requires
        len <= 16,
        start + len <= N,
        (value as nat) < pow256(len as nat),
    ensures
        be_value(final(out)@.subrange(start as int, start + len)) == value as nat,
        forall|j: int| 0 <= j < N && !(start <= j < start + len) ==> final(out)@[j] == old(out)@[j],
{
    let ghost before = out@;
    let mut rest: u128 = value;
    let mut k: usize = 0;
    proof {
        let unit = pow256(0);
        assert(unit == 1);
        assert(rest as nat * unit == rest as nat) by (nonlinear_arith)
            requires
                unit == 1,
        ;
        assert(out@.subrange(start + len, start + len) =~= Seq::<u8>::empty());
    }
    while k < len
        invariant
            k <= len <= 16,
            start + len <= N,
            out@.len() == N,
            before.len() == N,
            value as nat == rest as nat * pow256(k as nat) + be_value(
                out@.subrange(start + len - k, start + len),
            ),
            forall|j: int| 0 <= j < N && !(start <= j < start + len) ==> out@[j] == before[j],
        decreases len - k,
    {
        let ghost written = out@.subrange(start + len - k, start + len);
        let low: u8 = (rest % 256) as u8;
        out[start + len - 1 - k] = low;
        proof {
            let now = out@.subrange(start + len - k - 1, start + len);
            assert(now =~= seq![low] + written);
            lemma_be_value_prepend(low, written);
            let p = pow256(k as nat);
            let q = (rest / 256) as nat;
            assert(rest as nat == q * 256 + low as nat);
            assert((q * 256 + low as nat) * p == q * (256 * p) + low as nat * p)
                by (nonlinear_arith);
        }
        rest = rest / 256;
        k = k + 1;
    }
    proof {
        let p = pow256(len as nat);
        assert(rest as nat * p == 0 || rest as nat * p >= p) by (nonlinear_arith);
        assert(rest == 0) by {
            if rest as nat * p >= p {
                assert(false);
            } else {
                lemma_pow256_monotonic(0, len as nat);
                assert(rest as nat * p == 0 && p >= 1 ==> rest == 0) by (nonlinear_arith);
            }
        }
        assert(rest as nat * p == 0) by (nonlinear_arith)
            requires
                rest == 0,
        ;
    }
}

/// A 32-byte word: a topic, a hash or one slot of an event payload.
#[derive(Clone, Copy, Debug, PartialEq, Eq, Hash, Structural)]
pub struct B256 {
    /// The first sixteen bytes, big-endian.
    pub hi: u128,
    /// The last sixteen bytes, big-endian.
    pub lo: u128,
}

impl B256 {
    /// The word read as one unsigned big-endian number.
    pub open spec fn value(self) -> nat {
        self.hi as nat * two_pow_128() + self.lo as nat
    }

    /// The word that 32 bytes spell out.
    pub open spec fn of_bytes(bytes: Seq<u8>) -> B256 {
        B256 {
            hi: be_value(bytes.subrange(0, 16)) as u128,
            lo: be_value(bytes.subrange(16, 32)) as u128,
        }
    }

    /// The 32 bytes of the word.
    pub open spec fn bytes(self) -> Seq<u8> {
        be_bytes(self.hi as nat, 16) + be_bytes(self.lo as nat, 16)
    }

    /// The all-zero word.
    pub fn zero() -> (r: B256)
        ensures
            r == (B256 { hi: 0, lo: 0 }),
    {
        B256 { hi: 0, lo: 0 }
    }

    /// Builds a word from its two limbs.
    pub fn new(hi: u128, lo: u128) -> (r: B256)
        ensures
            r == (B256 { hi, lo }),
    {
        B256 { hi, lo }
    }

    /// Reads a word from its 32 bytes.
    pub fn from_be_bytes(bytes: &[u8; 32]) -> (r: B256)
        ensures
            r == B256::of_bytes(bytes@),
    {
        let hi = read_be(bytes.as_slice(), 0, 16);
        let lo = read_be(bytes.as_slice(), 16, 16);
        B256 { hi, lo }
    }

    /// Spells the word out as its 32 bytes.
    pub fn to_be_bytes(&self) -> (r: [u8; 32])
        ensures
            r@ == self.bytes(),
            B256::of_bytes(r@) == *self,
    {
        let mut out = [0u8; 32];
        proof {
            lemma_pow256_values();
        }
        store_be(&mut out, 0, 16, self.hi);
        let ghost half = out@;
        store_be(&mut out, 16, 16, self.lo);
        proof {
            assert(out@.subrange(0, 16) =~= half.subrange(0, 16));
            lemma_be_bytes_of_value(out@.subrange(0, 16));
            lemma_be_bytes_of_value(out@.subrange(16, 32));
            assert(out@ =~= out@.subrange(0, 16) + out@.subrange(16, 32));
        }
        out
    }
}

/// A 20-byte account or contract address.
#[derive(Clone, Copy, Debug, PartialEq, Eq, Hash, Structural)]
pub struct Address {
    /// The first four bytes, big-endian.
    pub hi: u32,
    /// The last sixteen bytes, big-endian.
    pub lo: u128,
}

impl Address {
    /// The address read as one unsigned big-endian number, below `2^160`.
    pub open spec fn value(self) -> nat {
        self.hi as nat * two_pow_128() + self.lo as nat
    }

    /// The address that 20 bytes spell out.
    pub open spec fn of_bytes(bytes: Seq<u8>) -> Address {
        Address {
            hi: be_value(bytes.subrange(0, 4)) as u32,
            lo: be_value(bytes.subrange(4, 20)) as u128,
        }
    }

    /// The 20 bytes of the address.
    pub open spec fn bytes(self) -> Seq<u8> {
        be_bytes(self.hi as nat, 4) + be_bytes(self.lo as nat, 16)
    }

    /// Builds an address from its two limbs.
    pub fn new(hi: u32, lo: u128) -> (r: Address)
        ensures
            r == (Address { hi, lo }),
    {
        Address { hi, lo }
    }

    /// Reads an address from its 20 bytes.
    pub fn from_be_bytes(bytes: &[u8; 20]) -> (r: Address)
        ensures
            r == Address::of_bytes(bytes@),
    {
        proof {
            lemma_pow256_values();
        }
        let hi = read_be(bytes.as_slice(), 0, 4);
        let lo = read_be(bytes.as_slice(), 4, 16);
        Address { hi: hi as u32, lo }
    }

    /// Spells the address out as its 20 bytes.
    pub fn to_be_bytes(&self) -> (r: [u8; 20])
        ensures
            r@ == self.bytes(),
            Address::of_bytes(r@) == *self,
    {
        let mut out = [0u8; 20];
        proof {
            lemma_pow256_values();
        }
        store_be(&mut out, 0, 4, self.hi as u128);
        let ghost head = out@;
        store_be(&mut out, 4, 16, self.lo);
        proof {
            assert(out@.subrange(0, 4) =~= head.subrange(0, 4));
            lemma_be_bytes_of_value(out@.subrange(0, 4));
            lemma_be_bytes_of_value(out@.subrange(4, 20));
            assert(out@ =~= out@.subrange(0, 4) + out@.subrange(4, 20));
        }
        out
    }
}

/// An unsigned 160-bit integer.
#[derive(Clone, Copy, Debug, PartialEq, Eq, Hash, Structural)]
pub struct U160 {
    /// Bits 128 to 159.
    pub hi: u32,
    /// Bits 0 to 127.
    pub lo: u128,
}

impl U160 {
    /// The integer that the limbs denote.
    pub open spec fn value(self) -> nat {
        self.hi as nat * two_pow_128() + self.lo as nat
    }
}

/// An unsigned 256-bit integer.
#[derive(Clone, Copy, Debug, PartialEq, Eq, Hash, Structural)]
pub struct U256 {
    /// Bits 128 to 255.
    pub hi: u128,
    /// Bits 0 to 127.
    pub lo: u128,
}

impl U256 {
    /// The integer that the limbs denote.
    pub open spec fn value(self) -> nat {
        self.hi as nat * two_pow_128() + self.lo as nat
    }

    /// The integer whose big-endian encoding is `word`.
    pub fn from_word(word: B256) -> (r: U256)
        ensures
            r == (U256 { hi: word.hi, lo: word.lo }),
            r.value() == word.value(),
    {
        U256 { hi: word.hi, lo: word.lo }
    }

    /// The big-endian encoding of the integer.
    pub fn to_word(&self) -> (r: B256)
        ensures
            r == (B256 { hi: self.hi, lo: self.lo }),
            r.value() == self.value(),
    {
        B256 { hi: self.hi, lo: self.lo }
    }
}

/// A signed 256-bit integer in two's complement.
#[derive(Clone, Copy, Debug, PartialEq, Eq, Hash, Structural)]
pub struct I256 {
    /// Bits 128 to 255; the topmost is the sign.
    pub hi: u128,
    /// Bits 0 to 127.
    pub lo: u128,
}

impl I256 {
    /// Whether the sign bit is set.
    pub open spec fn is_negative(self) -> bool {
        self.hi >= 0x8000_0000_0000_0000_0000_0000_0000_0000u128
    }

    /// The integer that the limbs denote in two's complement.
    pub open spec fn value(self) -> int {
        let raw = self.hi as int * two_pow_128() as int + self.lo as int;
        if self.is_negative() {
            raw - two_pow_128() as int * two_pow_128() as int
        } else {
            raw
        }
    }

    /// The integer whose two's complement encoding is `word`.
    pub fn from_word(word: B256) -> (r: I256)
        ensures
            r == (I256 { hi: word.hi, lo: word.lo }),
    {
        I256 { hi: word.hi, lo: word.lo }
    }

    /// The two's complement encoding of the integer.
    pub fn to_word(&self) -> (r: B256)
        ensures
            r == (B256 { hi: self.hi, lo: self.lo }),
    {
        B256 { hi: self.hi, lo: self.lo }
    }

    /// Whether the integer is below zero.
    pub fn negative(&self) -> (r: bool)
        ensures
            r == self.is_negative(),
            r == (self.value() < 0),
    {
        proof {
            let hi = self.hi as int;
            let lo = self.lo as int;
            let w = two_pow_128() as int;
            assert(0 <= hi * w + lo && hi * w + lo < w * w) by (nonlinear_arith)
                requires
                    0 <= hi < w,
                    0 <= lo < w,
            ;
        }
        self.hi >= 0x8000_0000_0000_0000_0000_0000_0000_0000u128
    }
}

/// The bytes of a word spell that word, and 32 bytes are the bytes of the
/// word that they spell: words and 32-byte strings stand for one another.
pub proof fn lemma_word_bytes_round_trip(word: B256, bytes: Seq<u8>)
    ensures
        word.bytes().len() == 32,
        B256::of_bytes(word.bytes()) == word,
        bytes.len() == 32 ==> B256::of_bytes(bytes).bytes() == bytes,
{
    lemma_pow256_values();
    let hi = be_bytes(word.hi as nat, 16);
    let lo = be_bytes(word.lo as nat, 16);
    lemma_be_bytes_len(word.hi as nat, 16);
    lemma_be_bytes_len(word.lo as nat, 16);
    lemma_be_value_of_bytes(word.hi as nat, 16);
    lemma_be_value_of_bytes(word.lo as nat, 16);
    assert(word.bytes().subrange(0, 16) =~= hi);
    assert(word.bytes().subrange(16, 32) =~= lo);
    if bytes.len() == 32 {
        let head = bytes.subrange(0, 16);
        let tail = bytes.subrange(16, 32);
        lemma_be_value_bound(head);
        lemma_be_value_bound(tail);
        lemma_be_bytes_of_value(head);
        lemma_be_bytes_of_value(tail);
        assert(head + tail =~= bytes);
    }
}

/// The spelling of a number that fits its length denotes that number.
pub proof fn lemma_be_value_of_bytes(value: nat, len: nat)
    requires
        value < pow256(len),
    ensures
        be_value(be_bytes(value, len)) == value,
    decreases len,
{
    if len > 0 {
        let rest = be_bytes(value / 256, (len - 1) as nat);
        assert(be_bytes(value, len).drop_last() =~= rest);
        assert(value / 256 < pow256((len - 1) as nat)) by {
            let p = pow256((len - 1) as nat);
            assert(pow256(len) == 256 * p);
            if value / 256 >= p {
                assert(value >= 256 * (value / 256));
                assert(256 * (value / 256) >= 256 * p) by (nonlinear_arith)
                    requires
                        value / 256 >= p,
                ;
            }
        }
        lemma_be_value_of_bytes(value / 256, (len - 1) as nat);
    } else {
        assert(pow256(0) == 1);
    }
}

} // verus!
