//! The 2048-bit log bloom of a receipt, and the test that tells whether a
//! signature hash may be among what was put into it.
//!
//! The filter never misses what was put in; it may report what was not.

use crate::primitives::B256;
use vstd::prelude::*;

verus! {

/// The number of bytes of a log bloom.
pub const BLOOM_SIZE_BYTES: usize = 256;

/// The `k`-th of the three bit positions that a hash sets: the low eleven
/// bits of its `k`-th pair of bytes, read big-endian.
pub open spec fn bit_index(hash: Seq<u8>, k: int) -> int {
    (hash[2 * k] as int * 256 + hash[2 * k + 1] as int) % 2048
}

/// The bit that position `k` of `hash` sets within byte `j` of a bloom, or 0
/// where that position falls into another byte. Bit 0 is the lowest bit of
/// the last byte.
pub open spec fn bit_mask(hash: Seq<u8>, k: int, j: int) -> u8 {
    let bit = bit_index(hash, k);
    if 255 - bit / 8 == j {
        1u8 << ((bit % 8) as u8)
    } else {
        0u8
    }
}

/// The bits that `hash` sets within byte `j` of a bloom.
pub open spec fn hash_mask(hash: Seq<u8>, j: int) -> u8 {
    bit_mask(hash, 0, j) | bit_mask(hash, 1, j) | bit_mask(hash, 2, j)
}

/// The bloom after `hash` was put in: the three bits of the hash are set and
/// no other bit changes.
pub open spec fn accrued(bloom: Seq<u8>, hash: Seq<u8>) -> Seq<u8> {
    Seq::new(256, |j: int| bloom[j] | hash_mask(hash, j))
}

/// Whether the three bits of `hash` are all set in `bloom`.
pub open spec fn covers(bloom: Seq<u8>, hash: Seq<u8>) -> bool {
    forall|j: int| 0 <= j < 256 ==> (#[trigger] bloom[j]) & hash_mask(hash, j) == hash_mask(hash, j)
}

/// A log bloom: 256 bytes, of which each hash that was put in set three bits.
#[derive(Clone, Copy, Debug, PartialEq, Eq)]
pub struct Bloom {
    pub bytes: [u8; 256],
}

impl View for Bloom {
    type V = Seq<u8>;

    open spec fn view(&self) -> Seq<u8> {
        self.bytes@
    }
}

/// `Bloom::contains_input` of alloy-primitives, asked with an input that is
/// already a hash: the bloom of the hash alone is built, and the answer is
/// whether every bit of it is set in `bloom` too.
#[verifier::external_body]
fn bloom_contains_hash(bloom: &[u8; 256], hash: &[u8; 32]) -> (r: bool)
    ensures
        r == covers(bloom@, hash@),
{
    let input = alloy_primitives::BloomInput::Hash(alloy_primitives::B256::new(*hash));
    alloy_primitives::Bloom::new(*bloom).contains_input(input)
}

/// `Bloom::accrue` of alloy-primitives, given an input that is already a
/// hash: each of the first three byte pairs of the hash picks one of the
/// 2048 bits, counted from the end of the filter, and that bit is set.
#[verifier::external_body]
fn bloom_accrue_hash(bloom: &mut [u8; 256], hash: &[u8; 32])
    ensures
        final(bloom)@ == accrued(old(bloom)@, hash@),
{
    let mut filter = alloy_primitives::Bloom::new(*bloom);
    filter.accrue(alloy_primitives::BloomInput::Hash(alloy_primitives::B256::new(*hash)));
    *bloom = *filter.data();
}

impl Bloom {
    /// Whether `hash` may have been put into the bloom.
    pub open spec fn may_contain(self, hash: B256) -> bool {
        covers(self@, hash.bytes())
    }

    /// The bloom with `hash` put in.
    pub open spec fn with_hash(self, hash: B256) -> Seq<u8> {
        accrued(self@, hash.bytes())
    }

    /// The bloom that holds nothing.
    pub fn empty() -> (r: Bloom)
        ensures
            r@ == Seq::new(256, |j: int| 0u8),
    {
        let r = Bloom { bytes: [0u8; 256] };
        assert(r@ =~= Seq::new(256, |j: int| 0u8));
        r
    }

    /// The bloom with the given bytes.
    pub fn new(bytes: [u8; 256]) -> (r: Bloom)
        ensures
            r.bytes == bytes,
    {
        Bloom { bytes }
    }

    /// Tells whether `hash` may have been put into the bloom. `false` means
    /// that it certainly was not.
    pub fn contains_hash(&self, hash: &B256) -> (r: bool)
        ensures
            r == self.may_contain(*hash),
    {
        let bytes = hash.to_be_bytes();
        bloom_contains_hash(&self.bytes, &bytes)
    }

    /// Puts `hash` into the bloom.
    pub fn accrue_hash(&mut self, hash: &B256)
        ensures
            final(self)@ == old(self).with_hash(*hash),
            final(self).may_contain(*hash),
    {
        let bytes = hash.to_be_bytes();
        bloom_accrue_hash(&mut self.bytes, &bytes);
        proof {
            lemma_accrued_covers(old(self)@, hash.bytes());
        }
    }
}

/// What was put in is found: a bloom covers every hash that it accrued.
pub proof fn lemma_accrued_covers(bloom: Seq<u8>, hash: Seq<u8>)
    ensures
        covers(accrued(bloom, hash), hash),
{
    let after = accrued(bloom, hash);
    assert forall|j: int| 0 <= j < 256 implies (#[trigger] after[j]) & hash_mask(hash, j)
        == hash_mask(hash, j) by {
        let x = bloom[j];
        let m = hash_mask(hash, j);
        assert((x | m) & m == m) by (bit_vector);
    }
}

/// Putting more in hides nothing: what a bloom covered it still covers
/// after any other hash was accrued.
pub proof fn lemma_accrue_keeps_covered(bloom: Seq<u8>, hash: Seq<u8>, earlier: Seq<u8>)
    requires
        bloom.len() == 256,
        covers(bloom, earlier),
    ensures
        covers(accrued(bloom, hash), earlier),
{
    let after = accrued(bloom, hash);
    assert forall|j: int| 0 <= j < 256 implies (#[trigger] after[j]) & hash_mask(earlier, j)
        == hash_mask(earlier, j) by {
        let x = bloom[j];
        let m = hash_mask(hash, j);
        let e = hash_mask(earlier, j);
        assert(x & e == e);
        assert((x | m) & e == e) by (bit_vector)
            requires
                x & e == e,
        ;
    }
}

/// The bloom that holds exactly the given hashes, put in one after the other.
pub open spec fn bloom_of(hashes: Seq<Seq<u8>>) -> Seq<u8>
    decreases hashes.len(),
{
    if hashes.len() == 0 {
        Seq::new(256, |j: int| 0u8)
    } else {
        accrued(bloom_of(hashes.drop_last()), hashes.last())
    }
}

/// The filter has no false negatives: a bloom that was built by putting
/// hashes in covers each of them.
pub proof fn lemma_bloom_covers_what_it_holds(hashes: Seq<Seq<u8>>, i: int)
    requires
        0 <= i < hashes.len(),
    ensures
        covers(bloom_of(hashes), hashes[i]),
    decreases hashes.len(),
{
    let before = bloom_of(hashes.drop_last());
    if i == hashes.len() - 1 {
        lemma_accrued_covers(before, hashes.last());
    } else {
        lemma_bloom_covers_what_it_holds(hashes.drop_last(), i);
        lemma_bloom_of_len(hashes.drop_last());
        lemma_accrue_keeps_covered(before, hashes.last(), hashes[i]);
    }
}

/// A bloom has 256 bytes, whatever was put into it.
pub proof fn lemma_bloom_of_len(hashes: Seq<Seq<u8>>)
    ensures
        bloom_of(hashes).len() == 256,
    decreases hashes.len(),
{
    if hashes.len() > 0 {
        lemma_bloom_of_len(hashes.drop_last());
    }
}

} // verus!
