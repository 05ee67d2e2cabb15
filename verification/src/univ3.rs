//! Uniswap V3 pool events: the prefilter flags, the decoded `Swap` and the
//! pool state that follows from it.

use crate::abi::{
    address_from_topic,
    address_topic,
    decode_int24,
    decode_int256,
    decode_uint128,
    decode_uint160,
    int24_word,
    int256_word,
    uint128_word,
    uint160_word,
};
use crate::bloom::{lemma_accrue_keeps_covered, lemma_accrued_covers, Bloom};
use crate::log::{decode_all, extract_events, LogEvent, ReceiptLog};
use crate::primitives::{Address, B256, I256, U160};
use crate::signature::EventKind;
use vstd::prelude::*;

verus! {

/// Which Uniswap V3 events the bloom of a receipt admits.
#[derive(Clone, Copy, Debug, PartialEq, Eq, Structural)]
pub struct UniV3Events {
    pub may_have_mint: bool,
    pub may_have_collect: bool,
    pub may_have_burn: bool,
    pub may_have_swap: bool,
    pub may_have_flash: bool,
}

impl UniV3Events {
    /// What `bloom` admits: a flag is set exactly where the bloom may contain
    /// the signature hash of the flag's event.
    pub open spec fn of_bloom(bloom: Bloom) -> UniV3Events {
        UniV3Events {
            may_have_mint: bloom.may_contain(EventKind::UniV3Mint.hash()),
            may_have_collect: bloom.may_contain(EventKind::UniV3Collect.hash()),
            may_have_burn: bloom.may_contain(EventKind::UniV3Burn.hash()),
            may_have_swap: bloom.may_contain(EventKind::UniV3Swap.hash()),
            may_have_flash: bloom.may_contain(EventKind::UniV3Flash.hash()),
        }
    }

    /// Whether any flag is set.
    pub open spec fn any_set(self) -> bool {
        self.may_have_mint
        || self.may_have_collect
        || self.may_have_burn
        || self.may_have_swap
        || self.may_have_flash
    }

    /// Whether `kind` is one of the events that these flags are about.
    pub open spec fn watches(kind: EventKind) -> bool {
        kind == EventKind::UniV3Mint
        || kind == EventKind::UniV3Collect
        || kind == EventKind::UniV3Burn
        || kind == EventKind::UniV3Swap
        || kind == EventKind::UniV3Flash
    }

    /// The flag of `kind`; `false` for a kind that these flags are not about.
    pub open spec fn admits(self, kind: EventKind) -> bool {
        match kind {
            EventKind::UniV3Mint => self.may_have_mint,
            EventKind::UniV3Collect => self.may_have_collect,
            EventKind::UniV3Burn => self.may_have_burn,
            EventKind::UniV3Swap => self.may_have_swap,
            EventKind::UniV3Flash => self.may_have_flash,
            _ => false,
        }
    }

    /// Asks the bloom of a receipt which Uniswap V3 events the receipt may hold.
    /// A flag that is not set means that the receipt holds no such event.
    pub fn from_bloom(bloom: &Bloom) -> (r: UniV3Events)
        ensures
            r == Self::of_bloom(*bloom),
    {
        UniV3Events {
            may_have_mint: bloom.contains_hash(&EventKind::UniV3Mint.signature_hash()),
            may_have_collect: bloom.contains_hash(&EventKind::UniV3Collect.signature_hash()),
            may_have_burn: bloom.contains_hash(&EventKind::UniV3Burn.signature_hash()),
            may_have_swap: bloom.contains_hash(&EventKind::UniV3Swap.signature_hash()),
            may_have_flash: bloom.contains_hash(&EventKind::UniV3Flash.signature_hash()),
        }
    }

    /// Tells whether any Uniswap V3 event may be present.
    pub fn any(&self) -> (r: bool)
        ensures
            r == self.any_set(),
    {
        self.may_have_mint
            || self.may_have_collect
            || self.may_have_burn
            || self.may_have_swap
            || self.may_have_flash
    }
}

/// The prefilter has no false negatives: once the signature hash of a kind
/// was put into a bloom, the flag of that kind is set.
pub proof fn lemma_inserted_kind_is_flagged(before: Bloom, after: Bloom, kind: EventKind)
    requires
        UniV3Events::watches(kind),
        after@ == before.with_hash(kind.hash()),
    ensures
        UniV3Events::of_bloom(after).admits(kind),
        UniV3Events::of_bloom(after).any_set(),
{
    lemma_accrued_covers(before@, kind.hash().bytes());
}

/// A flag that is set stays set, whatever else is put into the bloom.
pub proof fn lemma_flags_stay_set(before: Bloom, after: Bloom, hash: B256, kind: EventKind)
    requires
        after@ == before.with_hash(hash),
        UniV3Events::of_bloom(before).admits(kind),
    ensures
        UniV3Events::of_bloom(after).admits(kind),
{
    lemma_accrue_keeps_covered(before@, hash.bytes(), kind.hash().bytes());
}

impl Default for UniV3Events {
    /// No flag set.
    fn default() -> (r: UniV3Events)
        ensures
            !r.any_set(),
    {
        UniV3Events {
            may_have_mint: false,
            may_have_collect: false,
            may_have_burn: false,
            may_have_swap: false,
            may_have_flash: false,
        }
    }
}

/// The part of a pool's `slot0` that a swap reveals.
#[derive(Clone, Copy, Debug, PartialEq, Eq, Structural)]
pub struct Slot0Partial {
    /// The square root of the price, as a Q64.96 fixed-point number.
    pub sqrt_price_x96: U160,
    /// The current tick.
    pub tick: i32,
}

/// The state of a pool right after a swap.
#[derive(Clone, Copy, Debug, PartialEq, Eq, Structural)]
pub struct PoolState {
    /// The square root of the price of token0 in token1, as a Q64.96
    /// fixed-point number: the price is `(sqrt_price_x96 / 2^96)^2`.
    pub sqrt_price_x96: U160,
    /// The current tick.
    pub tick: i32,
    /// The liquidity in range.
    pub liquidity: u128,
}

impl PoolState {
    /// The `slot0` part of the state: the price and the tick.
    pub fn slot0(&self) -> (r: Slot0Partial)
        ensures
            r == (Slot0Partial { sqrt_price_x96: self.sqrt_price_x96, tick: self.tick }),
    {
        Slot0Partial { sqrt_price_x96: self.sqrt_price_x96, tick: self.tick }
    }
}

/// A decoded Uniswap V3 `Swap` event, with the pool that emitted it.
#[derive(Clone, Copy, Debug, PartialEq, Eq, Structural)]
pub struct ParsedSwap {
    /// The pool contract that emitted the event.
    pub pool: Address,
    /// The address that initiated the swap.
    pub sender: Address,
    /// The address that received the output.
    pub recipient: Address,
    /// The change of the pool's balance of token0: positive where the pool received.
    pub amount0: I256,
    /// The change of the pool's balance of token1: positive where the pool received.
    pub amount1: I256,
    /// The square root of the price after the swap, as a Q64.96 fixed-point number.
    pub sqrt_price_x96: U160,
    /// The liquidity in range after the swap.
    pub liquidity: u128,
    /// The tick after the swap.
    pub tick: i32,
}

impl ParsedSwap {
    /// The event that `log` holds: `log` must have the outline of `Swap`,
    /// and each word of its payload must be a valid value of its type.
    pub open spec fn decoded(log: ReceiptLog) -> Option<ParsedSwap> {
        if log.has_shape(EventKind::UniV3Swap) {
            match (
                uint160_word(log.data_word(2)),
                uint128_word(log.data_word(3)),
                int24_word(log.data_word(4)),
            ) {
                (Some(sqrt_price_x96), Some(liquidity), Some(tick)) => Some(
                    ParsedSwap {
                        pool: log.address,
                        sender: address_topic(log.topics@[1]),
                        recipient: address_topic(log.topics@[2]),
                        amount0: int256_word(log.data_word(0)),
                        amount1: int256_word(log.data_word(1)),
                        sqrt_price_x96,
                        liquidity,
                        tick,
                    },
                ),
                _ => None,
            }
        } else {
            None
        }
    }

    /// Decodes `log` as a `Swap` event; `None` where it is not one.
    pub fn from_log(log: &ReceiptLog) -> (r: Option<ParsedSwap>)
        ensures
            r == Self::decoded(*log),
    {
        if !log.matches_shape(EventKind::UniV3Swap) {
            return None;
        }
        let sqrt_price_x96 = match decode_uint160(log.word(2)) {
            Some(value) => value,
            None => {
                return None;
            },
        };
        let liquidity = match decode_uint128(log.word(3)) {
            Some(value) => value,
            None => {
                return None;
            },
        };
        let tick = match decode_int24(log.word(4)) {
            Some(value) => value,
            None => {
                return None;
            },
        };
        Some(
            ParsedSwap {
                pool: log.address,
                sender: address_from_topic(log.topics[1]),
                recipient: address_from_topic(log.topics[2]),
                amount0: decode_int256(log.word(0)),
                amount1: decode_int256(log.word(1)),
                sqrt_price_x96,
                liquidity,
                tick,
            },
        )
    }

    /// Decodes every `Swap` event among `logs`, in their order.
    pub fn extract_all(logs: &[ReceiptLog]) -> (r: Vec<ParsedSwap>)
        ensures
            r@ == decode_all::<ParsedSwap>(logs@),
    {
        extract_events::<ParsedSwap>(logs)
    }

    /// The state of the pool after this swap.
    pub fn pool_state(&self) -> (r: PoolState)
        ensures
            r == (PoolState {
                sqrt_price_x96: self.sqrt_price_x96,
                tick: self.tick,
                liquidity: self.liquidity,
            }),
    {
        PoolState { sqrt_price_x96: self.sqrt_price_x96, tick: self.tick, liquidity: self.liquidity }
    }
}

impl LogEvent for ParsedSwap {
    open spec fn kind() -> EventKind {
        EventKind::UniV3Swap
    }

    open spec fn decode(log: ReceiptLog) -> Option<ParsedSwap> {
        ParsedSwap::decoded(log)
    }

    fn event_kind() -> (r: EventKind) {
        EventKind::UniV3Swap
    }

    fn try_decode(log: &ReceiptLog) -> (r: Option<ParsedSwap>) {
        ParsedSwap::from_log(log)
    }

    proof fn lemma_decode_shape(log: ReceiptLog) {
    }
}
} // verus!
