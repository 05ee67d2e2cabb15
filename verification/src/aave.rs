//! Aave V3 pool events: the prefilter flags, the decoded events and the
//! bundle that groups them.

use crate::abi::{
    address_from_topic,
    address_topic,
    address_word,
    bool_word,
    decode_address,
    decode_bool,
    decode_uint256,
    decode_uint8,
    uint16_from_topic,
    uint16_topic,
    uint256_word,
    uint8_word,
};
use crate::bloom::{lemma_accrue_keeps_covered, lemma_accrued_covers, Bloom};
use crate::log::{decode_all, extract_events, LogEvent, ReceiptLog};
use crate::primitives::{Address, B256, U256};
use crate::signature::EventKind;
use vstd::prelude::*;

verus! {

/// Which Aave events the bloom of a receipt admits.
#[derive(Clone, Copy, Debug, PartialEq, Eq, Structural)]
pub struct AaveEvents {
    pub may_have_supply: bool,
    pub may_have_withdraw: bool,
    pub may_have_borrow: bool,
    pub may_have_repay: bool,
    pub may_have_liquidation: bool,
}

impl AaveEvents {
    /// What `bloom` admits: a flag is set exactly where the bloom may contain
    /// the signature hash of the flag's event.
    pub open spec fn of_bloom(bloom: Bloom) -> AaveEvents {
        AaveEvents {
            may_have_supply: bloom.may_contain(EventKind::AaveSupply.hash()),
            may_have_withdraw: bloom.may_contain(EventKind::AaveWithdraw.hash()),
            may_have_borrow: bloom.may_contain(EventKind::AaveBorrow.hash()),
            may_have_repay: bloom.may_contain(EventKind::AaveRepay.hash()),
            may_have_liquidation: bloom.may_contain(EventKind::AaveLiquidationCall.hash()),
        }
    }

    /// Whether any flag is set.
    pub open spec fn any_set(self) -> bool {
        self.may_have_supply
        || self.may_have_withdraw
        || self.may_have_borrow
        || self.may_have_repay
        || self.may_have_liquidation
    }

    /// Whether `kind` is one of the events that these flags are about.
    pub open spec fn watches(kind: EventKind) -> bool {
        kind == EventKind::AaveSupply
        || kind == EventKind::AaveWithdraw
        || kind == EventKind::AaveBorrow
        || kind == EventKind::AaveRepay
        || kind == EventKind::AaveLiquidationCall
    }

    /// The flag of `kind`; `false` for a kind that these flags are not about.
    pub open spec fn admits(self, kind: EventKind) -> bool {
        match kind {
            EventKind::AaveSupply => self.may_have_supply,
            EventKind::AaveWithdraw => self.may_have_withdraw,
            EventKind::AaveBorrow => self.may_have_borrow,
            EventKind::AaveRepay => self.may_have_repay,
            EventKind::AaveLiquidationCall => self.may_have_liquidation,
            _ => false,
        }
    }

    /// Asks the bloom of a receipt which Aave events the receipt may hold.
    /// A flag that is not set means that the receipt holds no such event.
    pub fn from_bloom(bloom: &Bloom) -> (r: AaveEvents)
        ensures
            r == Self::of_bloom(*bloom),
    {
        AaveEvents {
            may_have_supply: bloom.contains_hash(&EventKind::AaveSupply.signature_hash()),
            may_have_withdraw: bloom.contains_hash(&EventKind::AaveWithdraw.signature_hash()),
            may_have_borrow: bloom.contains_hash(&EventKind::AaveBorrow.signature_hash()),
            may_have_repay: bloom.contains_hash(&EventKind::AaveRepay.signature_hash()),
            may_have_liquidation: bloom.contains_hash(&EventKind::AaveLiquidationCall.signature_hash()),
        }
    }

    /// Tells whether any Aave event may be present.
    pub fn any(&self) -> (r: bool)
        ensures
            r == self.any_set(),
    {
        self.may_have_supply
            || self.may_have_withdraw
            || self.may_have_borrow
            || self.may_have_repay
            || self.may_have_liquidation
    }
}

/// The prefilter has no false negatives: once the signature hash of a kind
/// was put into a bloom, the flag of that kind is set.
pub proof fn lemma_inserted_kind_is_flagged(before: Bloom, after: Bloom, kind: EventKind)
    requires
        AaveEvents::watches(kind),
        after@ == before.with_hash(kind.hash()),
    ensures
        AaveEvents::of_bloom(after).admits(kind),
        AaveEvents::of_bloom(after).any_set(),
{
    lemma_accrued_covers(before@, kind.hash().bytes());
}

/// A flag that is set stays set, whatever else is put into the bloom.
pub proof fn lemma_flags_stay_set(before: Bloom, after: Bloom, hash: B256, kind: EventKind)
    requires
        after@ == before.with_hash(hash),
        AaveEvents::of_bloom(before).admits(kind),
    ensures
        AaveEvents::of_bloom(after).admits(kind),
{
    lemma_accrue_keeps_covered(before@, hash.bytes(), kind.hash().bytes());
}

impl Default for AaveEvents {
    /// No flag set.
    fn default() -> (r: AaveEvents)
        ensures
            !r.any_set(),
    {
        AaveEvents {
            may_have_supply: false,
            may_have_withdraw: false,
            may_have_borrow: false,
            may_have_repay: false,
            may_have_liquidation: false,
        }
    }
}

/// A decoded Aave `Supply` event, with the pool that emitted it.
#[derive(Clone, Copy, Debug, PartialEq, Eq, Structural)]
pub struct ParsedSupply {
    /// The pool contract that emitted the event.
    pub pool: Address,
    /// The asset that was supplied.
    pub reserve: Address,
    /// The address that supplied.
    pub user: Address,
    /// The address that receives the aTokens.
    pub on_behalf_of: Address,
    /// The amount supplied.
    pub amount: U256,
    /// The referral code.
    pub referral_code: u16,
}

impl ParsedSupply {
    /// The event that `log` holds: `log` must have the outline of `Supply`,
    /// and each word of its payload must be a valid value of its type.
    pub open spec fn decoded(log: ReceiptLog) -> Option<ParsedSupply> {
        if log.has_shape(EventKind::AaveSupply) {
            match address_word(log.data_word(0)) {
                Some(user) => Some(
                    ParsedSupply {
                        pool: log.address,
                        reserve: address_topic(log.topics@[1]),
                        user,
                        on_behalf_of: address_topic(log.topics@[2]),
                        amount: uint256_word(log.data_word(1)),
                        referral_code: uint16_topic(log.topics@[3]),
                    },
                ),
                None => None,
            }
        } else {
            None
        }
    }

    /// Decodes `log` as a `Supply` event; `None` where it is not one.
    pub fn try_from_log(log: &ReceiptLog) -> (r: Option<ParsedSupply>)
        ensures
            r == Self::decoded(*log),
    {
        if !log.matches_shape(EventKind::AaveSupply) {
            return None;
        }
        let user = match decode_address(log.word(0)) {
            Some(value) => value,
            None => {
                return None;
            },
        };
        Some(
            ParsedSupply {
                pool: log.address,
                reserve: address_from_topic(log.topics[1]),
                user,
                on_behalf_of: address_from_topic(log.topics[2]),
                amount: decode_uint256(log.word(1)),
                referral_code: uint16_from_topic(log.topics[3]),
            },
        )
    }

    /// Decodes every `Supply` event among `logs`, in their order.
    pub fn extract_all(logs: &[ReceiptLog]) -> (r: Vec<ParsedSupply>)
        ensures
            r@ == decode_all::<ParsedSupply>(logs@),
    {
        extract_events::<ParsedSupply>(logs)
    }
}

impl LogEvent for ParsedSupply {
    open spec fn kind() -> EventKind {
        EventKind::AaveSupply
    }

    open spec fn decode(log: ReceiptLog) -> Option<ParsedSupply> {
        ParsedSupply::decoded(log)
    }

    fn event_kind() -> (r: EventKind) {
        EventKind::AaveSupply
    }

    fn try_decode(log: &ReceiptLog) -> (r: Option<ParsedSupply>) {
        ParsedSupply::try_from_log(log)
    }

    proof fn lemma_decode_shape(log: ReceiptLog) {
    }
}

/// A decoded Aave `Withdraw` event, with the pool that emitted it.
#[derive(Clone, Copy, Debug, PartialEq, Eq, Structural)]
pub struct ParsedWithdraw {
    /// The pool contract that emitted the event.
    pub pool: Address,
    /// The asset that was withdrawn.
    pub reserve: Address,
    /// The address that withdrew.
    pub user: Address,
    /// The address that receives the asset.
    pub to: Address,
    /// The amount withdrawn.
    pub amount: U256,
}

impl ParsedWithdraw {
    /// The event that `log` holds: `log` must have the outline of `Withdraw`,
    /// and each word of its payload must be a valid value of its type.
    pub open spec fn decoded(log: ReceiptLog) -> Option<ParsedWithdraw> {
        if log.has_shape(EventKind::AaveWithdraw) {
            Some(
                ParsedWithdraw {
                    pool: log.address,
                    reserve: address_topic(log.topics@[1]),
                    user: address_topic(log.topics@[2]),
                    to: address_topic(log.topics@[3]),
                    amount: uint256_word(log.data_word(0)),
                },
            )
        } else {
            None
        }
    }

    /// Decodes `log` as a `Withdraw` event; `None` where it is not one.
    pub fn try_from_log(log: &ReceiptLog) -> (r: Option<ParsedWithdraw>)
        ensures
            r == Self::decoded(*log),
    {
        if !log.matches_shape(EventKind::AaveWithdraw) {
            return None;
        }
        Some(
            ParsedWithdraw {
                pool: log.address,
                reserve: address_from_topic(log.topics[1]),
                user: address_from_topic(log.topics[2]),
                to: address_from_topic(log.topics[3]),
                amount: decode_uint256(log.word(0)),
            },
        )
    }

    /// Decodes every `Withdraw` event among `logs`, in their order.
    pub fn extract_all(logs: &[ReceiptLog]) -> (r: Vec<ParsedWithdraw>)
        ensures
            r@ == decode_all::<ParsedWithdraw>(logs@),
    {
        extract_events::<ParsedWithdraw>(logs)
    }
}

impl LogEvent for ParsedWithdraw {
    open spec fn kind() -> EventKind {
        EventKind::AaveWithdraw
    }

    open spec fn decode(log: ReceiptLog) -> Option<ParsedWithdraw> {
        ParsedWithdraw::decoded(log)
    }

    fn event_kind() -> (r: EventKind) {
        EventKind::AaveWithdraw
    }

    fn try_decode(log: &ReceiptLog) -> (r: Option<ParsedWithdraw>) {
        ParsedWithdraw::try_from_log(log)
    }

    proof fn lemma_decode_shape(log: ReceiptLog) {
    }
}

/// A decoded Aave `Borrow` event, with the pool that emitted it.
#[derive(Clone, Copy, Debug, PartialEq, Eq, Structural)]
pub struct ParsedBorrow {
    /// The pool contract that emitted the event.
    pub pool: Address,
    /// The asset that was borrowed.
    pub reserve: Address,
    /// The address that borrowed.
    pub user: Address,
    /// The address that takes on the debt.
    pub on_behalf_of: Address,
    /// The amount borrowed.
    pub amount: U256,
    /// The interest rate mode: 1 is stable, 2 is variable.
    pub interest_rate_mode: u8,
    /// The borrow rate.
    pub borrow_rate: U256,
    /// The referral code.
    pub referral_code: u16,
}

impl ParsedBorrow {
    /// The event that `log` holds: `log` must have the outline of `Borrow`,
    /// and each word of its payload must be a valid value of its type.
    pub open spec fn decoded(log: ReceiptLog) -> Option<ParsedBorrow> {
        if log.has_shape(EventKind::AaveBorrow) {
            match (
                address_word(log.data_word(0)),
                uint8_word(log.data_word(2)),
            ) {
                (Some(user), Some(interest_rate_mode)) => Some(
                    ParsedBorrow {
                        pool: log.address,
                        reserve: address_topic(log.topics@[1]),
                        user,
                        on_behalf_of: address_topic(log.topics@[2]),
                        amount: uint256_word(log.data_word(1)),
                        interest_rate_mode,
                        borrow_rate: uint256_word(log.data_word(3)),
                        referral_code: uint16_topic(log.topics@[3]),
                    },
                ),
                _ => None,
            }
        } else {
            None
        }
    }

    /// Decodes `log` as a `Borrow` event; `None` where it is not one.
    pub fn try_from_log(log: &ReceiptLog) -> (r: Option<ParsedBorrow>)
        ensures
            r == Self::decoded(*log),
    {
        if !log.matches_shape(EventKind::AaveBorrow) {
            return None;
        }
        let user = match decode_address(log.word(0)) {
            Some(value) => value,
            None => {
                return None;
            },
        };
        let interest_rate_mode = match decode_uint8(log.word(2)) {
            Some(value) => value,
            None => {
                return None;
            },
        };
        Some(
            ParsedBorrow {
                pool: log.address,
                reserve: address_from_topic(log.topics[1]),
                user,
                on_behalf_of: address_from_topic(log.topics[2]),
                amount: decode_uint256(log.word(1)),
                interest_rate_mode,
                borrow_rate: decode_uint256(log.word(3)),
                referral_code: uint16_from_topic(log.topics[3]),
            },
        )
    }

    /// Decodes every `Borrow` event among `logs`, in their order.
    pub fn extract_all(logs: &[ReceiptLog]) -> (r: Vec<ParsedBorrow>)
        ensures
            r@ == decode_all::<ParsedBorrow>(logs@),
    {
        extract_events::<ParsedBorrow>(logs)
    }
}

impl LogEvent for ParsedBorrow {
    open spec fn kind() -> EventKind {
        EventKind::AaveBorrow
    }

    open spec fn decode(log: ReceiptLog) -> Option<ParsedBorrow> {
        ParsedBorrow::decoded(log)
    }

    fn event_kind() -> (r: EventKind) {
        EventKind::AaveBorrow
    }

    fn try_decode(log: &ReceiptLog) -> (r: Option<ParsedBorrow>) {
        ParsedBorrow::try_from_log(log)
    }

    proof fn lemma_decode_shape(log: ReceiptLog) {
    }
}

/// A decoded Aave `Repay` event, with the pool that emitted it.
#[derive(Clone, Copy, Debug, PartialEq, Eq, Structural)]
pub struct ParsedRepay {
    /// The pool contract that emitted the event.
    pub pool: Address,
    /// The asset that was repaid.
    pub reserve: Address,
    /// The address whose debt was repaid.
    pub user: Address,
    /// The address that repaid.
    pub repayer: Address,
    /// The amount repaid.
    pub amount: U256,
    /// Whether aTokens were used to repay.
    pub use_a_tokens: bool,
}

impl ParsedRepay {
    /// The event that `log` holds: `log` must have the outline of `Repay`,
    /// and each word of its payload must be a valid value of its type.
    pub open spec fn decoded(log: ReceiptLog) -> Option<ParsedRepay> {
        if log.has_shape(EventKind::AaveRepay) {
            match bool_word(log.data_word(1)) {
                Some(use_a_tokens) => Some(
                    ParsedRepay {
                        pool: log.address,
                        reserve: address_topic(log.topics@[1]),
                        user: address_topic(log.topics@[2]),
                        repayer: address_topic(log.topics@[3]),
                        amount: uint256_word(log.data_word(0)),
                        use_a_tokens,
                    },
                ),
                None => None,
            }
        } else {
            None
        }
    }

    /// Decodes `log` as a `Repay` event; `None` where it is not one.
    pub fn try_from_log(log: &ReceiptLog) -> (r: Option<ParsedRepay>)
        ensures
            r == Self::decoded(*log),
    {
        if !log.matches_shape(EventKind::AaveRepay) {
            return None;
        }
        let use_a_tokens = match decode_bool(log.word(1)) {
            Some(value) => value,
            None => {
                return None;
            },
        };
        Some(
            ParsedRepay {
                pool: log.address,
                reserve: address_from_topic(log.topics[1]),
                user: address_from_topic(log.topics[2]),
                repayer: address_from_topic(log.topics[3]),
                amount: decode_uint256(log.word(0)),
                use_a_tokens,
            },
        )
    }

    /// Decodes every `Repay` event among `logs`, in their order.
    pub fn extract_all(logs: &[ReceiptLog]) -> (r: Vec<ParsedRepay>)
        ensures
            r@ == decode_all::<ParsedRepay>(logs@),
    {
        extract_events::<ParsedRepay>(logs)
    }
}

impl LogEvent for ParsedRepay {
    open spec fn kind() -> EventKind {
        EventKind::AaveRepay
    }

    open spec fn decode(log: ReceiptLog) -> Option<ParsedRepay> {
        ParsedRepay::decoded(log)
    }

    fn event_kind() -> (r: EventKind) {
        EventKind::AaveRepay
    }

    fn try_decode(log: &ReceiptLog) -> (r: Option<ParsedRepay>) {
        ParsedRepay::try_from_log(log)
    }

    proof fn lemma_decode_shape(log: ReceiptLog) {
    }
}

/// A decoded Aave `LiquidationCall` event, with the pool that emitted it.
#[derive(Clone, Copy, Debug, PartialEq, Eq, Structural)]
pub struct ParsedLiquidation {
    /// The pool contract that emitted the event.
    pub pool: Address,
    /// The collateral asset that was seized.
    pub collateral_asset: Address,
    /// The debt asset that was repaid.
    pub debt_asset: Address,
    /// The address that was liquidated.
    pub user: Address,
    /// The amount of debt that was covered.
    pub debt_to_cover: U256,
    /// The amount of collateral that was seized.
    pub liquidated_collateral_amount: U256,
    /// The address that liquidated.
    pub liquidator: Address,
    /// Whether the liquidator receives aTokens.
    pub receive_a_token: bool,
}

impl ParsedLiquidation {
    /// The event that `log` holds: `log` must have the outline of `LiquidationCall`,
    /// and each word of its payload must be a valid value of its type.
    pub open spec fn decoded(log: ReceiptLog) -> Option<ParsedLiquidation> {
        if log.has_shape(EventKind::AaveLiquidationCall) {
            match (
                address_word(log.data_word(2)),
                bool_word(log.data_word(3)),
            ) {
                (Some(liquidator), Some(receive_a_token)) => Some(
                    ParsedLiquidation {
                        pool: log.address,
                        collateral_asset: address_topic(log.topics@[1]),
                        debt_asset: address_topic(log.topics@[2]),
                        user: address_topic(log.topics@[3]),
                        debt_to_cover: uint256_word(log.data_word(0)),
                        liquidated_collateral_amount: uint256_word(log.data_word(1)),
                        liquidator,
                        receive_a_token,
                    },
                ),
                _ => None,
            }
        } else {
            None
        }
    }

    /// Decodes `log` as a `LiquidationCall` event; `None` where it is not one.
    pub fn try_from_log(log: &ReceiptLog) -> (r: Option<ParsedLiquidation>)
        ensures
            r == Self::decoded(*log),
    {
        if !log.matches_shape(EventKind::AaveLiquidationCall) {
            return None;
        }
        let liquidator = match decode_address(log.word(2)) {
            Some(value) => value,
            None => {
                return None;
            },
        };
        let receive_a_token = match decode_bool(log.word(3)) {
            Some(value) => value,
            None => {
                return None;
            },
        };
        Some(
            ParsedLiquidation {
                pool: log.address,
                collateral_asset: address_from_topic(log.topics[1]),
                debt_asset: address_from_topic(log.topics[2]),
                user: address_from_topic(log.topics[3]),
                debt_to_cover: decode_uint256(log.word(0)),
                liquidated_collateral_amount: decode_uint256(log.word(1)),
                liquidator,
                receive_a_token,
            },
        )
    }

    /// Decodes every `LiquidationCall` event among `logs`, in their order.
    pub fn extract_all(logs: &[ReceiptLog]) -> (r: Vec<ParsedLiquidation>)
        ensures
            r@ == decode_all::<ParsedLiquidation>(logs@),
    {
        extract_events::<ParsedLiquidation>(logs)
    }
}

impl LogEvent for ParsedLiquidation {
    open spec fn kind() -> EventKind {
        EventKind::AaveLiquidationCall
    }

    open spec fn decode(log: ReceiptLog) -> Option<ParsedLiquidation> {
        ParsedLiquidation::decoded(log)
    }

    fn event_kind() -> (r: EventKind) {
        EventKind::AaveLiquidationCall
    }

    fn try_decode(log: &ReceiptLog) -> (r: Option<ParsedLiquidation>) {
        ParsedLiquidation::try_from_log(log)
    }

    proof fn lemma_decode_shape(log: ReceiptLog) {
    }
}

/// The Aave events found in a list of logs, one list for each kind.
#[derive(Clone, Debug)]
pub struct AaveUserUpdates {
    pub supplies: Vec<ParsedSupply>,
    pub withdraws: Vec<ParsedWithdraw>,
    pub borrows: Vec<ParsedBorrow>,
    pub repays: Vec<ParsedRepay>,
    pub liquidations: Vec<ParsedLiquidation>,
}

impl AaveUserUpdates {
    /// The number of events of all kinds together.
    pub open spec fn count(self) -> nat {
        self.supplies@.len()
        + self.withdraws@.len()
        + self.borrows@.len()
        + self.repays@.len()
        + self.liquidations@.len()
    }

    /// Whether every list of the bundle is empty.
    pub open spec fn has_no_events(self) -> bool {
        self.supplies@.len() == 0
        && self.withdraws@.len() == 0
        && self.borrows@.len() == 0
        && self.repays@.len() == 0
        && self.liquidations@.len() == 0
    }

    /// Whether the bundle holds exactly what `logs` decode to, kind by kind.
    pub open spec fn holds_events_of(self, logs: Seq<ReceiptLog>) -> bool {
        &&& self.supplies@ == decode_all::<ParsedSupply>(logs)
        &&& self.withdraws@ == decode_all::<ParsedWithdraw>(logs)
        &&& self.borrows@ == decode_all::<ParsedBorrow>(logs)
        &&& self.repays@ == decode_all::<ParsedRepay>(logs)
        &&& self.liquidations@ == decode_all::<ParsedLiquidation>(logs)
    }

    /// The bundle without events.
    pub fn new() -> (r: AaveUserUpdates)
        ensures
            r.count() == 0,
            r.supplies@ == Seq::<ParsedSupply>::empty(),
            r.withdraws@ == Seq::<ParsedWithdraw>::empty(),
            r.borrows@ == Seq::<ParsedBorrow>::empty(),
            r.repays@ == Seq::<ParsedRepay>::empty(),
            r.liquidations@ == Seq::<ParsedLiquidation>::empty(),
    {
        AaveUserUpdates {
            supplies: Vec::new(),
            withdraws: Vec::new(),
            borrows: Vec::new(),
            repays: Vec::new(),
            liquidations: Vec::new(),
        }
    }

    /// Decodes every Aave event among `logs`, each kind into its own list.
    pub fn extract_all(logs: &[ReceiptLog]) -> (r: AaveUserUpdates)
        ensures
            r.holds_events_of(logs@),
    {
        AaveUserUpdates {
            supplies: ParsedSupply::extract_all(logs),
            withdraws: ParsedWithdraw::extract_all(logs),
            borrows: ParsedBorrow::extract_all(logs),
            repays: ParsedRepay::extract_all(logs),
            liquidations: ParsedLiquidation::extract_all(logs),
        }
    }

    /// Tells whether the bundle holds no event of any kind.
    pub fn is_empty(&self) -> (r: bool)
        ensures
            r == self.has_no_events(),
            r == (self.count() == 0),
    {
        self.supplies.is_empty()
            && self.withdraws.is_empty()
            && self.borrows.is_empty()
            && self.repays.is_empty()
            && self.liquidations.is_empty()
    }

    /// The number of events of all kinds together. The lists are counted
    /// as they are, however the bundle was put together.
    pub fn total_count(&self) -> (r: usize)
        requires
            self.count() <= usize::MAX,
        ensures
            r == self.count(),
            r == self.supplies@.len()
                + self.withdraws@.len()
                + self.borrows@.len()
                + self.repays@.len()
                + self.liquidations@.len(),
            (r == 0) == self.has_no_events(),
    {
        self.supplies.len()
            + self.withdraws.len()
            + self.borrows.len()
            + self.repays.len()
            + self.liquidations.len()
    }

    /// The number of events of all kinds together, for any bundle:
    /// `None` where the number does not fit the machine's word.
    pub fn checked_total_count(&self) -> (r: Option<usize>)
        ensures
            r is Some <==> self.count() <= usize::MAX,
            r matches Some(total) ==> total == self.count(),
    {
        let mut total: usize = self.supplies.len();
        total = match total.checked_add(self.withdraws.len()) {
            Some(sum) => sum,
            None => {
                return None;
            },
        };
        total = match total.checked_add(self.borrows.len()) {
            Some(sum) => sum,
            None => {
                return None;
            },
        };
        total = match total.checked_add(self.repays.len()) {
            Some(sum) => sum,
            None => {
                return None;
            },
        };
        total = match total.checked_add(self.liquidations.len()) {
            Some(sum) => sum,
            None => {
                return None;
            },
        };
        Some(total)
    }
}

/// The total of a bundle is the sum of the lengths of its lists, and it is
/// zero exactly for the bundle without events. This holds of every bundle,
/// also of one that was put together list by list.
pub proof fn lemma_total_is_sum_of_kinds(bundle: AaveUserUpdates)
    ensures
        bundle.count() == bundle.supplies@.len()
            + bundle.withdraws@.len()
            + bundle.borrows@.len()
            + bundle.repays@.len()
            + bundle.liquidations@.len(),
        bundle.count() == 0 <==> bundle.has_no_events(),
{
}

impl Default for AaveUserUpdates {
    /// The bundle without events.
    fn default() -> (r: AaveUserUpdates)
        ensures
            r.count() == 0,
    {
        AaveUserUpdates::new()
    }
}
} // verus!
