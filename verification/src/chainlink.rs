//! Chainlink aggregator events: the prefilter flags and the decoded events.

use crate::abi::{
    address_from_topic,
    address_topic,
    decode_int256,
    decode_uint256,
    int256_word,
    uint256_word,
};
use crate::bloom::{lemma_accrue_keeps_covered, lemma_accrued_covers, Bloom};
use crate::log::{decode_all, extract_events, LogEvent, ReceiptLog};
use crate::primitives::{Address, B256, I256, U256};
use crate::signature::EventKind;
use vstd::prelude::*;

verus! {

/// Which Chainlink events the bloom of a receipt admits.
#[derive(Clone, Copy, Debug, PartialEq, Eq, Structural)]
pub struct ChainlinkEvents {
    pub may_have_answer_updated: bool,
    pub may_have_new_round: bool,
}

impl ChainlinkEvents {
    /// What `bloom` admits: a flag is set exactly where the bloom may contain
    /// the signature hash of the flag's event.
    pub open spec fn of_bloom(bloom: Bloom) -> ChainlinkEvents {
        ChainlinkEvents {
            may_have_answer_updated: bloom.may_contain(EventKind::ChainlinkAnswerUpdated.hash()),
            may_have_new_round: bloom.may_contain(EventKind::ChainlinkNewRound.hash()),
        }
    }

    /// Whether any flag is set.
    pub open spec fn any_set(self) -> bool {
        self.may_have_answer_updated
        || self.may_have_new_round
    }

    /// Whether `kind` is one of the events that these flags are about.
    pub open spec fn watches(kind: EventKind) -> bool {
        kind == EventKind::ChainlinkAnswerUpdated
        || kind == EventKind::ChainlinkNewRound
    }

    /// The flag of `kind`; `false` for a kind that these flags are not about.
    pub open spec fn admits(self, kind: EventKind) -> bool {
        match kind {
            EventKind::ChainlinkAnswerUpdated => self.may_have_answer_updated,
            EventKind::ChainlinkNewRound => self.may_have_new_round,
            _ => false,
        }
    }

    /// Asks the bloom of a receipt which Chainlink events the receipt may hold.
    /// A flag that is not set means that the receipt holds no such event.
    pub fn from_bloom(bloom: &Bloom) -> (r: ChainlinkEvents)
        ensures
            r == Self::of_bloom(*bloom),
    {
        ChainlinkEvents {
            may_have_answer_updated: bloom.contains_hash(&EventKind::ChainlinkAnswerUpdated.signature_hash()),
            may_have_new_round: bloom.contains_hash(&EventKind::ChainlinkNewRound.signature_hash()),
        }
    }

    /// Tells whether any Chainlink event may be present.
    pub fn any(&self) -> (r: bool)
        ensures
            r == self.any_set(),
    {
        self.may_have_answer_updated
            || self.may_have_new_round
    }
}

/// The prefilter has no false negatives: once the signature hash of a kind
/// was put into a bloom, the flag of that kind is set.
pub proof fn lemma_inserted_kind_is_flagged(before: Bloom, after: Bloom, kind: EventKind)
    requires
        ChainlinkEvents::watches(kind),
        after@ == before.with_hash(kind.hash()),
    ensures
        ChainlinkEvents::of_bloom(after).admits(kind),
        ChainlinkEvents::of_bloom(after).any_set(),
{
    lemma_accrued_covers(before@, kind.hash().bytes());
}

/// A flag that is set stays set, whatever else is put into the bloom.
pub proof fn lemma_flags_stay_set(before: Bloom, after: Bloom, hash: B256, kind: EventKind)
    requires
        after@ == before.with_hash(hash),
        ChainlinkEvents::of_bloom(before).admits(kind),
    ensures
        ChainlinkEvents::of_bloom(after).admits(kind),
{
    lemma_accrue_keeps_covered(before@, hash.bytes(), kind.hash().bytes());
}

impl Default for ChainlinkEvents {
    /// No flag set.
    fn default() -> (r: ChainlinkEvents)
        ensures
            !r.any_set(),
    {
        ChainlinkEvents {
            may_have_answer_updated: false,
            may_have_new_round: false,
        }
    }
}

/// A decoded Chainlink `AnswerUpdated` event, with the feed that emitted it.
#[derive(Clone, Copy, Debug, PartialEq, Eq, Structural)]
pub struct ParsedAnswerUpdated {
    /// The aggregator that emitted the event.
    pub feed: Address,
    /// The new answer: a price scaled by the feed's decimals.
    pub answer: I256,
    /// The round of the update.
    pub round_id: U256,
    /// The time of the update, in seconds.
    pub updated_at: U256,
}

impl ParsedAnswerUpdated {
    /// The event that `log` holds: `log` must have the outline of `AnswerUpdated`,
    /// and each word of its payload must be a valid value of its type.
    pub open spec fn decoded(log: ReceiptLog) -> Option<ParsedAnswerUpdated> {
        if log.has_shape(EventKind::ChainlinkAnswerUpdated) {
            Some(
                ParsedAnswerUpdated {
                    feed: log.address,
                    answer: int256_word(log.topics@[1]),
                    round_id: uint256_word(log.topics@[2]),
                    updated_at: uint256_word(log.data_word(0)),
                },
            )
        } else {
            None
        }
    }

    /// Decodes `log` as a `AnswerUpdated` event; `None` where it is not one.
    pub fn try_from_log(log: &ReceiptLog) -> (r: Option<ParsedAnswerUpdated>)
        ensures
            r == Self::decoded(*log),
    {
        if !log.matches_shape(EventKind::ChainlinkAnswerUpdated) {
            return None;
        }
        Some(
            ParsedAnswerUpdated {
                feed: log.address,
                answer: decode_int256(log.topics[1]),
                round_id: decode_uint256(log.topics[2]),
                updated_at: decode_uint256(log.word(0)),
            },
        )
    }

    /// Decodes every `AnswerUpdated` event among `logs`, in their order.
    pub fn extract_all(logs: &[ReceiptLog]) -> (r: Vec<ParsedAnswerUpdated>)
        ensures
            r@ == decode_all::<ParsedAnswerUpdated>(logs@),
    {
        extract_events::<ParsedAnswerUpdated>(logs)
    }
}

impl LogEvent for ParsedAnswerUpdated {
    open spec fn kind() -> EventKind {
        EventKind::ChainlinkAnswerUpdated
    }

    open spec fn decode(log: ReceiptLog) -> Option<ParsedAnswerUpdated> {
        ParsedAnswerUpdated::decoded(log)
    }

    fn event_kind() -> (r: EventKind) {
        EventKind::ChainlinkAnswerUpdated
    }

    fn try_decode(log: &ReceiptLog) -> (r: Option<ParsedAnswerUpdated>) {
        ParsedAnswerUpdated::try_from_log(log)
    }

    proof fn lemma_decode_shape(log: ReceiptLog) {
    }
}

/// A decoded Chainlink `NewRound` event, with the feed that emitted it.
#[derive(Clone, Copy, Debug, PartialEq, Eq, Structural)]
pub struct ParsedNewRound {
    /// The aggregator that emitted the event.
    pub feed: Address,
    /// The round that was started.
    pub round_id: U256,
    /// The address that started the round.
    pub started_by: Address,
    /// The time at which the round started, in seconds.
    pub started_at: U256,
}

impl ParsedNewRound {
    /// The event that `log` holds: `log` must have the outline of `NewRound`,
    /// and each word of its payload must be a valid value of its type.
    pub open spec fn decoded(log: ReceiptLog) -> Option<ParsedNewRound> {
        if log.has_shape(EventKind::ChainlinkNewRound) {
            Some(
                ParsedNewRound {
                    feed: log.address,
                    round_id: uint256_word(log.topics@[1]),
                    started_by: address_topic(log.topics@[2]),
                    started_at: uint256_word(log.data_word(0)),
                },
            )
        } else {
            None
        }
    }

    /// Decodes `log` as a `NewRound` event; `None` where it is not one.
    pub fn try_from_log(log: &ReceiptLog) -> (r: Option<ParsedNewRound>)
        ensures
            r == Self::decoded(*log),
    {
        if !log.matches_shape(EventKind::ChainlinkNewRound) {
            return None;
        }
        Some(
            ParsedNewRound {
                feed: log.address,
                round_id: decode_uint256(log.topics[1]),
                started_by: address_from_topic(log.topics[2]),
                started_at: decode_uint256(log.word(0)),
            },
        )
    }

    /// Decodes every `NewRound` event among `logs`, in their order.
    pub fn extract_all(logs: &[ReceiptLog]) -> (r: Vec<ParsedNewRound>)
        ensures
            r@ == decode_all::<ParsedNewRound>(logs@),
    {
        extract_events::<ParsedNewRound>(logs)
    }
}

impl LogEvent for ParsedNewRound {
    open spec fn kind() -> EventKind {
        EventKind::ChainlinkNewRound
    }

    open spec fn decode(log: ReceiptLog) -> Option<ParsedNewRound> {
        ParsedNewRound::decoded(log)
    }

    fn event_kind() -> (r: EventKind) {
        EventKind::ChainlinkNewRound
    }

    fn try_decode(log: &ReceiptLog) -> (r: Option<ParsedNewRound>) {
        ParsedNewRound::try_from_log(log)
    }

    proof fn lemma_decode_shape(log: ReceiptLog) {
    }
}
} // verus!
