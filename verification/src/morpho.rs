//! Morpho Blue events: the prefilter flags, the decoded events and the bundle
//! that groups them.

use crate::abi::{
    address_from_topic,
    address_topic,
    address_word,
    decode_address,
    decode_uint256,
    uint256_word,
};
use crate::bloom::{lemma_accrue_keeps_covered, lemma_accrued_covers, Bloom};
use crate::log::{decode_all, extract_events, LogEvent, ReceiptLog};
use crate::primitives::{Address, B256, U256};
use crate::signature::EventKind;
use vstd::prelude::*;

verus! {

/// Which Morpho events the bloom of a receipt admits.
#[derive(Clone, Copy, Debug, PartialEq, Eq, Structural)]
pub struct MorphoEvents {
    pub may_have_supply: bool,
    pub may_have_withdraw: bool,
    pub may_have_borrow: bool,
    pub may_have_repay: bool,
    pub may_have_supply_collateral: bool,
    pub may_have_withdraw_collateral: bool,
    pub may_have_liquidation: bool,
    pub may_have_create_market: bool,
}

impl MorphoEvents {
    /// What `bloom` admits: a flag is set exactly where the bloom may contain
    /// the signature hash of the flag's event.
    pub open spec fn of_bloom(bloom: Bloom) -> MorphoEvents {
        MorphoEvents {
            may_have_supply: bloom.may_contain(EventKind::MorphoSupply.hash()),
            may_have_withdraw: bloom.may_contain(EventKind::MorphoWithdraw.hash()),
            may_have_borrow: bloom.may_contain(EventKind::MorphoBorrow.hash()),
            may_have_repay: bloom.may_contain(EventKind::MorphoRepay.hash()),
            may_have_supply_collateral: bloom.may_contain(EventKind::MorphoSupplyCollateral.hash()),
            may_have_withdraw_collateral: bloom.may_contain(EventKind::MorphoWithdrawCollateral.hash()),
            may_have_liquidation: bloom.may_contain(EventKind::MorphoLiquidate.hash()),
            may_have_create_market: bloom.may_contain(EventKind::MorphoCreateMarket.hash()),
        }
    }

    /// Whether any flag is set.
    pub open spec fn any_set(self) -> bool {
        self.may_have_supply
        || self.may_have_withdraw
        || self.may_have_borrow
        || self.may_have_repay
        || self.may_have_supply_collateral
        || self.may_have_withdraw_collateral
        || self.may_have_liquidation
        || self.may_have_create_market
    }

    /// Whether `kind` is one of the events that these flags are about.
    pub open spec fn watches(kind: EventKind) -> bool {
        kind == EventKind::MorphoSupply
        || kind == EventKind::MorphoWithdraw
        || kind == EventKind::MorphoBorrow
        || kind == EventKind::MorphoRepay
        || kind == EventKind::MorphoSupplyCollateral
        || kind == EventKind::MorphoWithdrawCollateral
        || kind == EventKind::MorphoLiquidate
        || kind == EventKind::MorphoCreateMarket
    }

    /// The flag of `kind`; `false` for a kind that these flags are not about.
    pub open spec fn admits(self, kind: EventKind) -> bool {
        match kind {
            EventKind::MorphoSupply => self.may_have_supply,
            EventKind::MorphoWithdraw => self.may_have_withdraw,
            EventKind::MorphoBorrow => self.may_have_borrow,
            EventKind::MorphoRepay => self.may_have_repay,
            EventKind::MorphoSupplyCollateral => self.may_have_supply_collateral,
            EventKind::MorphoWithdrawCollateral => self.may_have_withdraw_collateral,
            EventKind::MorphoLiquidate => self.may_have_liquidation,
            EventKind::MorphoCreateMarket => self.may_have_create_market,
            _ => false,
        }
    }

    /// Asks the bloom of a receipt which Morpho events the receipt may hold.
    /// A flag that is not set means that the receipt holds no such event.
    pub fn from_bloom(bloom: &Bloom) -> (r: MorphoEvents)
        ensures
            r == Self::of_bloom(*bloom),
    {
        MorphoEvents {
            may_have_supply: bloom.contains_hash(&EventKind::MorphoSupply.signature_hash()),
            may_have_withdraw: bloom.contains_hash(&EventKind::MorphoWithdraw.signature_hash()),
            may_have_borrow: bloom.contains_hash(&EventKind::MorphoBorrow.signature_hash()),
            may_have_repay: bloom.contains_hash(&EventKind::MorphoRepay.signature_hash()),
            may_have_supply_collateral: bloom.contains_hash(&EventKind::MorphoSupplyCollateral.signature_hash()),
            may_have_withdraw_collateral: bloom.contains_hash(&EventKind::MorphoWithdrawCollateral.signature_hash()),
            may_have_liquidation: bloom.contains_hash(&EventKind::MorphoLiquidate.signature_hash()),
            may_have_create_market: bloom.contains_hash(&EventKind::MorphoCreateMarket.signature_hash()),
        }
    }

    /// Tells whether any Morpho event may be present.
    pub fn any(&self) -> (r: bool)
        ensures
            r == self.any_set(),
    {
        self.may_have_supply
            || self.may_have_withdraw
            || self.may_have_borrow
            || self.may_have_repay
            || self.may_have_supply_collateral
            || self.may_have_withdraw_collateral
            || self.may_have_liquidation
            || self.may_have_create_market
    }
}

/// The prefilter has no false negatives: once the signature hash of a kind
/// was put into a bloom, the flag of that kind is set.
pub proof fn lemma_inserted_kind_is_flagged(before: Bloom, after: Bloom, kind: EventKind)
    requires
        MorphoEvents::watches(kind),
        after@ == before.with_hash(kind.hash()),
    ensures
        MorphoEvents::of_bloom(after).admits(kind),
        MorphoEvents::of_bloom(after).any_set(),
{
    lemma_accrued_covers(before@, kind.hash().bytes());
}

/// A flag that is set stays set, whatever else is put into the bloom.
pub proof fn lemma_flags_stay_set(before: Bloom, after: Bloom, hash: B256, kind: EventKind)
    requires
        after@ == before.with_hash(hash),
        MorphoEvents::of_bloom(before).admits(kind),
    ensures
        MorphoEvents::of_bloom(after).admits(kind),
{
    lemma_accrue_keeps_covered(before@, hash.bytes(), kind.hash().bytes());
}

impl Default for MorphoEvents {
    /// No flag set.
    fn default() -> (r: MorphoEvents)
        ensures
            !r.any_set(),
    {
        MorphoEvents {
            may_have_supply: false,
            may_have_withdraw: false,
            may_have_borrow: false,
            may_have_repay: false,
            may_have_supply_collateral: false,
            may_have_withdraw_collateral: false,
            may_have_liquidation: false,
            may_have_create_market: false,
        }
    }
}

/// A decoded Morpho `Supply` event, with the contract that emitted it.
#[derive(Clone, Copy, Debug, PartialEq, Eq, Structural)]
pub struct ParsedMorphoSupply {
    /// The Morpho contract that emitted the event.
    pub morpho: Address,
    /// The market.
    pub market_id: B256,
    /// The address that supplied.
    pub caller: Address,
    /// The owner of the position.
    pub on_behalf_of: Address,
    /// The amount of assets supplied.
    pub assets: U256,
    /// The amount of shares minted.
    pub shares: U256,
}

impl ParsedMorphoSupply {
    /// The event that `log` holds: `log` must have the outline of `Supply`,
    /// and each word of its payload must be a valid value of its type.
    pub open spec fn decoded(log: ReceiptLog) -> Option<ParsedMorphoSupply> {
        if log.has_shape(EventKind::MorphoSupply) {
            Some(
                ParsedMorphoSupply {
                    morpho: log.address,
                    market_id: log.topics@[1],
                    caller: address_topic(log.topics@[2]),
                    on_behalf_of: address_topic(log.topics@[3]),
                    assets: uint256_word(log.data_word(0)),
                    shares: uint256_word(log.data_word(1)),
                },
            )
        } else {
            None
        }
    }

    /// Decodes `log` as a `Supply` event; `None` where it is not one.
    pub fn try_from_log(log: &ReceiptLog) -> (r: Option<ParsedMorphoSupply>)
        ensures
            r == Self::decoded(*log),
    {
        if !log.matches_shape(EventKind::MorphoSupply) {
            return None;
        }
        Some(
            ParsedMorphoSupply {
                morpho: log.address,
                market_id: log.topics[1],
                caller: address_from_topic(log.topics[2]),
                on_behalf_of: address_from_topic(log.topics[3]),
                assets: decode_uint256(log.word(0)),
                shares: decode_uint256(log.word(1)),
            },
        )
    }

    /// Decodes every `Supply` event among `logs`, in their order.
    pub fn extract_all(logs: &[ReceiptLog]) -> (r: Vec<ParsedMorphoSupply>)
        ensures
            r@ == decode_all::<ParsedMorphoSupply>(logs@),
    {
        extract_events::<ParsedMorphoSupply>(logs)
    }
}

impl LogEvent for ParsedMorphoSupply {
    open spec fn kind() -> EventKind {
        EventKind::MorphoSupply
    }

    open spec fn decode(log: ReceiptLog) -> Option<ParsedMorphoSupply> {
        ParsedMorphoSupply::decoded(log)
    }

    fn event_kind() -> (r: EventKind) {
        EventKind::MorphoSupply
    }

    fn try_decode(log: &ReceiptLog) -> (r: Option<ParsedMorphoSupply>) {
        ParsedMorphoSupply::try_from_log(log)
    }

    proof fn lemma_decode_shape(log: ReceiptLog) {
    }
}

/// A decoded Morpho `Withdraw` event, with the contract that emitted it.
#[derive(Clone, Copy, Debug, PartialEq, Eq, Structural)]
pub struct ParsedMorphoWithdraw {
    /// The Morpho contract that emitted the event.
    pub morpho: Address,
    /// The market.
    pub market_id: B256,
    /// The address that withdrew.
    pub caller: Address,
    /// The owner of the position.
    pub on_behalf_of: Address,
    /// The address that receives the assets.
    pub receiver: Address,
    /// The amount of assets withdrawn.
    pub assets: U256,
    /// The amount of shares burned.
    pub shares: U256,
}

impl ParsedMorphoWithdraw {
    /// The event that `log` holds: `log` must have the outline of `Withdraw`,
    /// and each word of its payload must be a valid value of its type.
    pub open spec fn decoded(log: ReceiptLog) -> Option<ParsedMorphoWithdraw> {
        if log.has_shape(EventKind::MorphoWithdraw) {
            match address_word(log.data_word(0)) {
                Some(caller) => Some(
                    ParsedMorphoWithdraw {
                        morpho: log.address,
                        market_id: log.topics@[1],
                        caller,
                        on_behalf_of: address_topic(log.topics@[2]),
                        receiver: address_topic(log.topics@[3]),
                        assets: uint256_word(log.data_word(1)),
                        shares: uint256_word(log.data_word(2)),
                    },
                ),
                None => None,
            }
        } else {
            None
        }
    }

    /// Decodes `log` as a `Withdraw` event; `None` where it is not one.
    pub fn try_from_log(log: &ReceiptLog) -> (r: Option<ParsedMorphoWithdraw>)
        ensures
            r == Self::decoded(*log),
    {
        if !log.matches_shape(EventKind::MorphoWithdraw) {
            return None;
        }
        let caller = match decode_address(log.word(0)) {
            Some(value) => value,
            None => {
                return None;
            },
        };
        Some(
            ParsedMorphoWithdraw {
                morpho: log.address,
                market_id: log.topics[1],
                caller,
                on_behalf_of: address_from_topic(log.topics[2]),
                receiver: address_from_topic(log.topics[3]),
                assets: decode_uint256(log.word(1)),
                shares: decode_uint256(log.word(2)),
            },
        )
    }

    /// Decodes every `Withdraw` event among `logs`, in their order.
    pub fn extract_all(logs: &[ReceiptLog]) -> (r: Vec<ParsedMorphoWithdraw>)
        ensures
            r@ == decode_all::<ParsedMorphoWithdraw>(logs@),
    {
        extract_events::<ParsedMorphoWithdraw>(logs)
    }
}

impl LogEvent for ParsedMorphoWithdraw {
    open spec fn kind() -> EventKind {
        EventKind::MorphoWithdraw
    }

    open spec fn decode(log: ReceiptLog) -> Option<ParsedMorphoWithdraw> {
        ParsedMorphoWithdraw::decoded(log)
    }

    fn event_kind() -> (r: EventKind) {
        EventKind::MorphoWithdraw
    }

    fn try_decode(log: &ReceiptLog) -> (r: Option<ParsedMorphoWithdraw>) {
        ParsedMorphoWithdraw::try_from_log(log)
    }

    proof fn lemma_decode_shape(log: ReceiptLog) {
    }
}

/// A decoded Morpho `Borrow` event, with the contract that emitted it.
#[derive(Clone, Copy, Debug, PartialEq, Eq, Structural)]
pub struct ParsedMorphoBorrow {
    /// The Morpho contract that emitted the event.
    pub morpho: Address,
    /// The market.
    pub market_id: B256,
    /// The address that borrowed.
    pub caller: Address,
    /// The owner of the position.
    pub on_behalf_of: Address,
    /// The address that receives the assets.
    pub receiver: Address,
    /// The amount of assets borrowed.
    pub assets: U256,
    /// The amount of debt shares minted.
    pub shares: U256,
}

impl ParsedMorphoBorrow {
    /// The event that `log` holds: `log` must have the outline of `Borrow`,
    /// and each word of its payload must be a valid value of its type.
    pub open spec fn decoded(log: ReceiptLog) -> Option<ParsedMorphoBorrow> {
        if log.has_shape(EventKind::MorphoBorrow) {
            match address_word(log.data_word(0)) {
                Some(caller) => Some(
                    ParsedMorphoBorrow {
                        morpho: log.address,
                        market_id: log.topics@[1],
                        caller,
                        on_behalf_of: address_topic(log.topics@[2]),
                        receiver: address_topic(log.topics@[3]),
                        assets: uint256_word(log.data_word(1)),
                        shares: uint256_word(log.data_word(2)),
                    },
                ),
                None => None,
            }
        } else {
            None
        }
    }

    /// Decodes `log` as a `Borrow` event; `None` where it is not one.
    pub fn try_from_log(log: &ReceiptLog) -> (r: Option<ParsedMorphoBorrow>)
        ensures
            r == Self::decoded(*log),
    {
        if !log.matches_shape(EventKind::MorphoBorrow) {
            return None;
        }
        let caller = match decode_address(log.word(0)) {
            Some(value) => value,
            None => {
                return None;
            },
        };
        Some(
            ParsedMorphoBorrow {
                morpho: log.address,
                market_id: log.topics[1],
                caller,
                on_behalf_of: address_from_topic(log.topics[2]),
                receiver: address_from_topic(log.topics[3]),
                assets: decode_uint256(log.word(1)),
                shares: decode_uint256(log.word(2)),
            },
        )
    }

    /// Decodes every `Borrow` event among `logs`, in their order.
    pub fn extract_all(logs: &[ReceiptLog]) -> (r: Vec<ParsedMorphoBorrow>)
        ensures
            r@ == decode_all::<ParsedMorphoBorrow>(logs@),
    {
        extract_events::<ParsedMorphoBorrow>(logs)
    }
}

impl LogEvent for ParsedMorphoBorrow {
    open spec fn kind() -> EventKind {
        EventKind::MorphoBorrow
    }

    open spec fn decode(log: ReceiptLog) -> Option<ParsedMorphoBorrow> {
        ParsedMorphoBorrow::decoded(log)
    }

    fn event_kind() -> (r: EventKind) {
        EventKind::MorphoBorrow
    }

    fn try_decode(log: &ReceiptLog) -> (r: Option<ParsedMorphoBorrow>) {
        ParsedMorphoBorrow::try_from_log(log)
    }

    proof fn lemma_decode_shape(log: ReceiptLog) {
    }
}

/// A decoded Morpho `Repay` event, with the contract that emitted it.
#[derive(Clone, Copy, Debug, PartialEq, Eq, Structural)]
pub struct ParsedMorphoRepay {
    /// The Morpho contract that emitted the event.
    pub morpho: Address,
    /// The market.
    pub market_id: B256,
    /// The address that repaid.
    pub caller: Address,
    /// The owner of the position.
    pub on_behalf_of: Address,
    /// The amount of assets repaid.
    pub assets: U256,
    /// The amount of debt shares burned.
    pub shares: U256,
}

impl ParsedMorphoRepay {
    /// The event that `log` holds: `log` must have the outline of `Repay`,
    /// and each word of its payload must be a valid value of its type.
    pub open spec fn decoded(log: ReceiptLog) -> Option<ParsedMorphoRepay> {
        if log.has_shape(EventKind::MorphoRepay) {
            Some(
                ParsedMorphoRepay {
                    morpho: log.address,
                    market_id: log.topics@[1],
                    caller: address_topic(log.topics@[2]),
                    on_behalf_of: address_topic(log.topics@[3]),
                    assets: uint256_word(log.data_word(0)),
                    shares: uint256_word(log.data_word(1)),
                },
            )
        } else {
            None
        }
    }

    /// Decodes `log` as a `Repay` event; `None` where it is not one.
    pub fn try_from_log(log: &ReceiptLog) -> (r: Option<ParsedMorphoRepay>)
        ensures
            r == Self::decoded(*log),
    {
        if !log.matches_shape(EventKind::MorphoRepay) {
            return None;
        }
        Some(
            ParsedMorphoRepay {
                morpho: log.address,
                market_id: log.topics[1],
                caller: address_from_topic(log.topics[2]),
                on_behalf_of: address_from_topic(log.topics[3]),
                assets: decode_uint256(log.word(0)),
                shares: decode_uint256(log.word(1)),
            },
        )
    }

    /// Decodes every `Repay` event among `logs`, in their order.
    pub fn extract_all(logs: &[ReceiptLog]) -> (r: Vec<ParsedMorphoRepay>)
        ensures
            r@ == decode_all::<ParsedMorphoRepay>(logs@),
    {
        extract_events::<ParsedMorphoRepay>(logs)
    }
}

impl LogEvent for ParsedMorphoRepay {
    open spec fn kind() -> EventKind {
        EventKind::MorphoRepay
    }

    open spec fn decode(log: ReceiptLog) -> Option<ParsedMorphoRepay> {
        ParsedMorphoRepay::decoded(log)
    }

    fn event_kind() -> (r: EventKind) {
        EventKind::MorphoRepay
    }

    fn try_decode(log: &ReceiptLog) -> (r: Option<ParsedMorphoRepay>) {
        ParsedMorphoRepay::try_from_log(log)
    }

    proof fn lemma_decode_shape(log: ReceiptLog) {
    }
}

/// A decoded Morpho `SupplyCollateral` event, with the contract that emitted it.
#[derive(Clone, Copy, Debug, PartialEq, Eq, Structural)]
pub struct ParsedMorphoSupplyCollateral {
    /// The Morpho contract that emitted the event.
    pub morpho: Address,
    /// The market.
    pub market_id: B256,
    /// The address that supplied the collateral.
    pub caller: Address,
    /// The owner of the position.
    pub on_behalf_of: Address,
    /// The amount of collateral supplied.
    pub assets: U256,
}

impl ParsedMorphoSupplyCollateral {
    /// The event that `log` holds: `log` must have the outline of `SupplyCollateral`,
    /// and each word of its payload must be a valid value of its type.
    pub open spec fn decoded(log: ReceiptLog) -> Option<ParsedMorphoSupplyCollateral> {
        if log.has_shape(EventKind::MorphoSupplyCollateral) {
            Some(
                ParsedMorphoSupplyCollateral {
                    morpho: log.address,
                    market_id: log.topics@[1],
                    caller: address_topic(log.topics@[2]),
                    on_behalf_of: address_topic(log.topics@[3]),
                    assets: uint256_word(log.data_word(0)),
                },
            )
        } else {
            None
        }
    }

    /// Decodes `log` as a `SupplyCollateral` event; `None` where it is not one.
    pub fn try_from_log(log: &ReceiptLog) -> (r: Option<ParsedMorphoSupplyCollateral>)
        ensures
            r == Self::decoded(*log),
    {
        if !log.matches_shape(EventKind::MorphoSupplyCollateral) {
            return None;
        }
        Some(
            ParsedMorphoSupplyCollateral {
                morpho: log.address,
                market_id: log.topics[1],
                caller: address_from_topic(log.topics[2]),
                on_behalf_of: address_from_topic(log.topics[3]),
                assets: decode_uint256(log.word(0)),
            },
        )
    }

    /// Decodes every `SupplyCollateral` event among `logs`, in their order.
    pub fn extract_all(logs: &[ReceiptLog]) -> (r: Vec<ParsedMorphoSupplyCollateral>)
        ensures
            r@ == decode_all::<ParsedMorphoSupplyCollateral>(logs@),
    {
        extract_events::<ParsedMorphoSupplyCollateral>(logs)
    }
}

impl LogEvent for ParsedMorphoSupplyCollateral {
    open spec fn kind() -> EventKind {
        EventKind::MorphoSupplyCollateral
    }

    open spec fn decode(log: ReceiptLog) -> Option<ParsedMorphoSupplyCollateral> {
        ParsedMorphoSupplyCollateral::decoded(log)
    }

    fn event_kind() -> (r: EventKind) {
        EventKind::MorphoSupplyCollateral
    }

    fn try_decode(log: &ReceiptLog) -> (r: Option<ParsedMorphoSupplyCollateral>) {
        ParsedMorphoSupplyCollateral::try_from_log(log)
    }

    proof fn lemma_decode_shape(log: ReceiptLog) {
    }
}

/// A decoded Morpho `WithdrawCollateral` event, with the contract that emitted it.
#[derive(Clone, Copy, Debug, PartialEq, Eq, Structural)]
pub struct ParsedMorphoWithdrawCollateral {
    /// The Morpho contract that emitted the event.
    pub morpho: Address,
    /// The market.
    pub market_id: B256,
    /// The address that withdrew the collateral.
    pub caller: Address,
    /// The owner of the position.
    pub on_behalf_of: Address,
    /// The address that receives the collateral.
    pub receiver: Address,
    /// The amount of collateral withdrawn.
    pub assets: U256,
}

impl ParsedMorphoWithdrawCollateral {
    /// The event that `log` holds: `log` must have the outline of `WithdrawCollateral`,
    /// and each word of its payload must be a valid value of its type.
    pub open spec fn decoded(log: ReceiptLog) -> Option<ParsedMorphoWithdrawCollateral> {
        if log.has_shape(EventKind::MorphoWithdrawCollateral) {
            match address_word(log.data_word(0)) {
                Some(caller) => Some(
                    ParsedMorphoWithdrawCollateral {
                        morpho: log.address,
                        market_id: log.topics@[1],
                        caller,
                        on_behalf_of: address_topic(log.topics@[2]),
                        receiver: address_topic(log.topics@[3]),
                        assets: uint256_word(log.data_word(1)),
                    },
                ),
                None => None,
            }
        } else {
            None
        }
    }

    /// Decodes `log` as a `WithdrawCollateral` event; `None` where it is not one.
    pub fn try_from_log(log: &ReceiptLog) -> (r: Option<ParsedMorphoWithdrawCollateral>)
        ensures
            r == Self::decoded(*log),
    {
        if !log.matches_shape(EventKind::MorphoWithdrawCollateral) {
            return None;
        }
        let caller = match decode_address(log.word(0)) {
            Some(value) => value,
            None => {
                return None;
            },
        };
        Some(
            ParsedMorphoWithdrawCollateral {
                morpho: log.address,
                market_id: log.topics[1],
                caller,
                on_behalf_of: address_from_topic(log.topics[2]),
                receiver: address_from_topic(log.topics[3]),
                assets: decode_uint256(log.word(1)),
            },
        )
    }

    /// Decodes every `WithdrawCollateral` event among `logs`, in their order.
    pub fn extract_all(logs: &[ReceiptLog]) -> (r: Vec<ParsedMorphoWithdrawCollateral>)
        ensures
            r@ == decode_all::<ParsedMorphoWithdrawCollateral>(logs@),
    {
        extract_events::<ParsedMorphoWithdrawCollateral>(logs)
    }
}

impl LogEvent for ParsedMorphoWithdrawCollateral {
    open spec fn kind() -> EventKind {
        EventKind::MorphoWithdrawCollateral
    }

    open spec fn decode(log: ReceiptLog) -> Option<ParsedMorphoWithdrawCollateral> {
        ParsedMorphoWithdrawCollateral::decoded(log)
    }

    fn event_kind() -> (r: EventKind) {
        EventKind::MorphoWithdrawCollateral
    }

    fn try_decode(log: &ReceiptLog) -> (r: Option<ParsedMorphoWithdrawCollateral>) {
        ParsedMorphoWithdrawCollateral::try_from_log(log)
    }

    proof fn lemma_decode_shape(log: ReceiptLog) {
    }
}

/// A decoded Morpho `Liquidate` event, with the contract that emitted it.
#[derive(Clone, Copy, Debug, PartialEq, Eq, Structural)]
pub struct ParsedMorphoLiquidation {
    /// The Morpho contract that emitted the event.
    pub morpho: Address,
    /// The market.
    pub market_id: B256,
    /// The address that liquidated.
    pub caller: Address,
    /// The address that was liquidated.
    pub borrower: Address,
    /// The amount of assets that the liquidator repaid.
    pub repaid_assets: U256,
    /// The amount of debt shares burned.
    pub repaid_shares: U256,
    /// The amount of collateral seized.
    pub seized_assets: U256,
    /// The assets written off as bad debt.
    pub bad_debt_assets: U256,
    /// The shares written off as bad debt.
    pub bad_debt_shares: U256,
}

impl ParsedMorphoLiquidation {
    /// The event that `log` holds: `log` must have the outline of `Liquidate`,
    /// and each word of its payload must be a valid value of its type.
    pub open spec fn decoded(log: ReceiptLog) -> Option<ParsedMorphoLiquidation> {
        if log.has_shape(EventKind::MorphoLiquidate) {
            Some(
                ParsedMorphoLiquidation {
                    morpho: log.address,
                    market_id: log.topics@[1],
                    caller: address_topic(log.topics@[2]),
                    borrower: address_topic(log.topics@[3]),
                    repaid_assets: uint256_word(log.data_word(0)),
                    repaid_shares: uint256_word(log.data_word(1)),
                    seized_assets: uint256_word(log.data_word(2)),
                    bad_debt_assets: uint256_word(log.data_word(3)),
                    bad_debt_shares: uint256_word(log.data_word(4)),
                },
            )
        } else {
            None
        }
    }

    /// Decodes `log` as a `Liquidate` event; `None` where it is not one.
    pub fn try_from_log(log: &ReceiptLog) -> (r: Option<ParsedMorphoLiquidation>)
        ensures
            r == Self::decoded(*log),
    {
        if !log.matches_shape(EventKind::MorphoLiquidate) {
            return None;
        }
        Some(
            ParsedMorphoLiquidation {
                morpho: log.address,
                market_id: log.topics[1],
                caller: address_from_topic(log.topics[2]),
                borrower: address_from_topic(log.topics[3]),
                repaid_assets: decode_uint256(log.word(0)),
                repaid_shares: decode_uint256(log.word(1)),
                seized_assets: decode_uint256(log.word(2)),
                bad_debt_assets: decode_uint256(log.word(3)),
                bad_debt_shares: decode_uint256(log.word(4)),
            },
        )
    }

    /// Decodes every `Liquidate` event among `logs`, in their order.
    pub fn extract_all(logs: &[ReceiptLog]) -> (r: Vec<ParsedMorphoLiquidation>)
        ensures
            r@ == decode_all::<ParsedMorphoLiquidation>(logs@),
    {
        extract_events::<ParsedMorphoLiquidation>(logs)
    }
}

impl LogEvent for ParsedMorphoLiquidation {
    open spec fn kind() -> EventKind {
        EventKind::MorphoLiquidate
    }

    open spec fn decode(log: ReceiptLog) -> Option<ParsedMorphoLiquidation> {
        ParsedMorphoLiquidation::decoded(log)
    }

    fn event_kind() -> (r: EventKind) {
        EventKind::MorphoLiquidate
    }

    fn try_decode(log: &ReceiptLog) -> (r: Option<ParsedMorphoLiquidation>) {
        ParsedMorphoLiquidation::try_from_log(log)
    }

    proof fn lemma_decode_shape(log: ReceiptLog) {
    }
}

/// A decoded Morpho `CreateMarket` event, with the contract that emitted it.
#[derive(Clone, Copy, Debug, PartialEq, Eq, Structural)]
pub struct ParsedMorphoCreateMarket {
    /// The Morpho contract that emitted the event.
    pub morpho: Address,
    /// The market.
    pub market_id: B256,
    /// The token that the market lends.
    pub loan_token: Address,
    /// The token that the market takes as collateral.
    pub collateral_token: Address,
    /// The oracle of the market.
    pub oracle: Address,
    /// The interest rate model of the market.
    pub irm: Address,
    /// The liquidation loan-to-value ratio.
    pub lltv: U256,
}

impl ParsedMorphoCreateMarket {
    /// The event that `log` holds: `log` must have the outline of `CreateMarket`,
    /// and each word of its payload must be a valid value of its type.
    pub open spec fn decoded(log: ReceiptLog) -> Option<ParsedMorphoCreateMarket> {
        if log.has_shape(EventKind::MorphoCreateMarket) {
            match (
                address_word(log.data_word(0)),
                address_word(log.data_word(1)),
                address_word(log.data_word(2)),
                address_word(log.data_word(3)),
            ) {
                (Some(loan_token), Some(collateral_token), Some(oracle), Some(irm)) => Some(
                    ParsedMorphoCreateMarket {
                        morpho: log.address,
                        market_id: log.topics@[1],
                        loan_token,
                        collateral_token,
                        oracle,
                        irm,
                        lltv: uint256_word(log.data_word(4)),
                    },
                ),
                _ => None,
            }
        } else {
            None
        }
    }

    /// Decodes `log` as a `CreateMarket` event; `None` where it is not one.
    pub fn try_from_log(log: &ReceiptLog) -> (r: Option<ParsedMorphoCreateMarket>)
        ensures
            r == Self::decoded(*log),
    {
        if !log.matches_shape(EventKind::MorphoCreateMarket) {
            return None;
        }
        let loan_token = match decode_address(log.word(0)) {
            Some(value) => value,
            None => {
                return None;
            },
        };
        let collateral_token = match decode_address(log.word(1)) {
            Some(value) => value,
            None => {
                return None;
            },
        };
        let oracle = match decode_address(log.word(2)) {
            Some(value) => value,
            None => {
                return None;
            },
        };
        let irm = match decode_address(log.word(3)) {
            Some(value) => value,
            None => {
                return None;
            },
        };
        Some(
            ParsedMorphoCreateMarket {
                morpho: log.address,
                market_id: log.topics[1],
                loan_token,
                collateral_token,
                oracle,
                irm,
                lltv: decode_uint256(log.word(4)),
            },
        )
    }

    /// Decodes every `CreateMarket` event among `logs`, in their order.
    pub fn extract_all(logs: &[ReceiptLog]) -> (r: Vec<ParsedMorphoCreateMarket>)
        ensures
            r@ == decode_all::<ParsedMorphoCreateMarket>(logs@),
    {
        extract_events::<ParsedMorphoCreateMarket>(logs)
    }
}

impl LogEvent for ParsedMorphoCreateMarket {
    open spec fn kind() -> EventKind {
        EventKind::MorphoCreateMarket
    }

    open spec fn decode(log: ReceiptLog) -> Option<ParsedMorphoCreateMarket> {
        ParsedMorphoCreateMarket::decoded(log)
    }

    fn event_kind() -> (r: EventKind) {
        EventKind::MorphoCreateMarket
    }

    fn try_decode(log: &ReceiptLog) -> (r: Option<ParsedMorphoCreateMarket>) {
        ParsedMorphoCreateMarket::try_from_log(log)
    }

    proof fn lemma_decode_shape(log: ReceiptLog) {
    }
}

/// The Morpho events found in a list of logs, one list for each kind.
#[derive(Clone, Debug)]
pub struct MorphoUpdates {
    pub supplies: Vec<ParsedMorphoSupply>,
    pub withdraws: Vec<ParsedMorphoWithdraw>,
    pub borrows: Vec<ParsedMorphoBorrow>,
    pub repays: Vec<ParsedMorphoRepay>,
    pub supply_collaterals: Vec<ParsedMorphoSupplyCollateral>,
    pub withdraw_collaterals: Vec<ParsedMorphoWithdrawCollateral>,
    pub liquidations: Vec<ParsedMorphoLiquidation>,
    pub create_markets: Vec<ParsedMorphoCreateMarket>,
}

impl MorphoUpdates {
    /// The number of events of all kinds together.
    pub open spec fn count(self) -> nat {
        self.supplies@.len()
        + self.withdraws@.len()
        + self.borrows@.len()
        + self.repays@.len()
        + self.supply_collaterals@.len()
        + self.withdraw_collaterals@.len()
        + self.liquidations@.len()
        + self.create_markets@.len()
    }

    /// Whether every list of the bundle is empty.
    pub open spec fn has_no_events(self) -> bool {
        self.supplies@.len() == 0
        && self.withdraws@.len() == 0
        && self.borrows@.len() == 0
        && self.repays@.len() == 0
        && self.supply_collaterals@.len() == 0
        && self.withdraw_collaterals@.len() == 0
        && self.liquidations@.len() == 0
        && self.create_markets@.len() == 0
    }

    /// Whether the bundle holds exactly what `logs` decode to, kind by kind.
    pub open spec fn holds_events_of(self, logs: Seq<ReceiptLog>) -> bool {
        &&& self.supplies@ == decode_all::<ParsedMorphoSupply>(logs)
        &&& self.withdraws@ == decode_all::<ParsedMorphoWithdraw>(logs)
        &&& self.borrows@ == decode_all::<ParsedMorphoBorrow>(logs)
        &&& self.repays@ == decode_all::<ParsedMorphoRepay>(logs)
        &&& self.supply_collaterals@ == decode_all::<ParsedMorphoSupplyCollateral>(logs)
        &&& self.withdraw_collaterals@ == decode_all::<ParsedMorphoWithdrawCollateral>(logs)
        &&& self.liquidations@ == decode_all::<ParsedMorphoLiquidation>(logs)
        &&& self.create_markets@ == decode_all::<ParsedMorphoCreateMarket>(logs)
    }

    /// The bundle without events.
    pub fn new() -> (r: MorphoUpdates)
        ensures
            r.count() == 0,
            r.supplies@ == Seq::<ParsedMorphoSupply>::empty(),
            r.withdraws@ == Seq::<ParsedMorphoWithdraw>::empty(),
            r.borrows@ == Seq::<ParsedMorphoBorrow>::empty(),
            r.repays@ == Seq::<ParsedMorphoRepay>::empty(),
            r.supply_collaterals@ == Seq::<ParsedMorphoSupplyCollateral>::empty(),
            r.withdraw_collaterals@ == Seq::<ParsedMorphoWithdrawCollateral>::empty(),
            r.liquidations@ == Seq::<ParsedMorphoLiquidation>::empty(),
            r.create_markets@ == Seq::<ParsedMorphoCreateMarket>::empty(),
    {
        MorphoUpdates {
            supplies: Vec::new(),
            withdraws: Vec::new(),
            borrows: Vec::new(),
            repays: Vec::new(),
            supply_collaterals: Vec::new(),
            withdraw_collaterals: Vec::new(),
            liquidations: Vec::new(),
            create_markets: Vec::new(),
        }
    }

    /// Decodes every Morpho event among `logs`, each kind into its own list.
    pub fn extract_all(logs: &[ReceiptLog]) -> (r: MorphoUpdates)
        ensures
            r.holds_events_of(logs@),
    {
        MorphoUpdates {
            supplies: ParsedMorphoSupply::extract_all(logs),
            withdraws: ParsedMorphoWithdraw::extract_all(logs),
            borrows: ParsedMorphoBorrow::extract_all(logs),
            repays: ParsedMorphoRepay::extract_all(logs),
            supply_collaterals: ParsedMorphoSupplyCollateral::extract_all(logs),
            withdraw_collaterals: ParsedMorphoWithdrawCollateral::extract_all(logs),
            liquidations: ParsedMorphoLiquidation::extract_all(logs),
            create_markets: ParsedMorphoCreateMarket::extract_all(logs),
        }
    }

    /// Tells whether the bundle holds no event of any kind.
    pub fn is_empty(&self) -> (r: bool)
        ensures
            r == self.has_no_events(),
            r == (self.count() == 0),
    {
        self.supplies.is_empty()
            && self.withdraws.is_empty()
            && self.borrows.is_empty()
            && self.repays.is_empty()
            && self.supply_collaterals.is_empty()
            && self.withdraw_collaterals.is_empty()
            && self.liquidations.is_empty()
            && self.create_markets.is_empty()
    }

    /// The number of events of all kinds together. The lists are counted
    /// as they are, however the bundle was put together.
    pub fn total_count(&self) -> (r: usize)
        requires
            self.count() <= usize::MAX,
        ensures
            r == self.count(),
            r == self.supplies@.len()
                + self.withdraws@.len()
                + self.borrows@.len()
                + self.repays@.len()
                + self.supply_collaterals@.len()
                + self.withdraw_collaterals@.len()
                + self.liquidations@.len()
                + self.create_markets@.len(),
            (r == 0) == self.has_no_events(),
    {
        self.supplies.len()
            + self.withdraws.len()
            + self.borrows.len()
            + self.repays.len()
            + self.supply_collaterals.len()
            + self.withdraw_collaterals.len()
            + self.liquidations.len()
            + self.create_markets.len()
    }

    /// The number of events of all kinds together, for any bundle:
    /// `None` where the number does not fit the machine's word.
    pub fn checked_total_count(&self) -> (r: Option<usize>)
        ensures
            r is Some <==> self.count() <= usize::MAX,
            r matches Some(total) ==> total == self.count(),
    {
        let mut total: usize = self.supplies.len();
        total = match total.checked_add(self.withdraws.len()) {
            Some(sum) => sum,
            None => {
                return None;
            },
        };
        total = match total.checked_add(self.borrows.len()) {
            Some(sum) => sum,
            None => {
                return None;
            },
        };
        total = match total.checked_add(self.repays.len()) {
            Some(sum) => sum,
            None => {
                return None;
            },
        };
        total = match total.checked_add(self.supply_collaterals.len()) {
            Some(sum) => sum,
            None => {
                return None;
            },
        };
        total = match total.checked_add(self.withdraw_collaterals.len()) {
            Some(sum) => sum,
            None => {
                return None;
            },
        };
        total = match total.checked_add(self.liquidations.len()) {
            Some(sum) => sum,
            None => {
                return None;
            },
        };
        total = match total.checked_add(self.create_markets.len()) {
            Some(sum) => sum,
            None => {
                return None;
            },
        };
        Some(total)
    }
}

/// The total of a bundle is the sum of the lengths of its lists, and it is
/// zero exactly for the bundle without events. This holds of every bundle,
/// also of one that was put together list by list.
pub proof fn lemma_total_is_sum_of_kinds(bundle: MorphoUpdates)
    ensures
        bundle.count() == bundle.supplies@.len()
            + bundle.withdraws@.len()
            + bundle.borrows@.len()
            + bundle.repays@.len()
            + bundle.supply_collaterals@.len()
            + bundle.withdraw_collaterals@.len()
            + bundle.liquidations@.len()
            + bundle.create_markets@.len(),
        bundle.count() == 0 <==> bundle.has_no_events(),
{
}

impl Default for MorphoUpdates {
    /// The bundle without events.
    fn default() -> (r: MorphoUpdates)
        ensures
            r.count() == 0,
    {
        MorphoUpdates::new()
    }
}
} // verus!
