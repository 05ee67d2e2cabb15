//! Decoded events of any kind, each with the label under which it is
//! published.

use crate::aave::{ParsedBorrow, ParsedLiquidation, ParsedRepay, ParsedSupply, ParsedWithdraw};
use crate::chainlink::{ParsedAnswerUpdated, ParsedNewRound};
use crate::envelope::needs_no_escape;
use crate::log::LogEvent;
use crate::morpho::{
    ParsedMorphoBorrow,
    ParsedMorphoCreateMarket,
    ParsedMorphoLiquidation,
    ParsedMorphoRepay,
    ParsedMorphoSupply,
    ParsedMorphoSupplyCollateral,
    ParsedMorphoWithdraw,
    ParsedMorphoWithdrawCollateral,
};
use crate::signature::EventKind;
use crate::univ3::ParsedSwap;
use vstd::prelude::*;

verus! {

/// An event of any of the kinds that the decoders know.
#[derive(Clone, Copy, Debug, PartialEq, Eq, Structural)]
pub enum DecodedEvent {
    Swap(ParsedSwap),
    AnswerUpdated(ParsedAnswerUpdated),
    NewRound(ParsedNewRound),
    AaveSupply(ParsedSupply),
    AaveWithdraw(ParsedWithdraw),
    AaveBorrow(ParsedBorrow),
    AaveRepay(ParsedRepay),
    AaveLiquidation(ParsedLiquidation),
    MorphoSupply(ParsedMorphoSupply),
    MorphoWithdraw(ParsedMorphoWithdraw),
    MorphoBorrow(ParsedMorphoBorrow),
    MorphoRepay(ParsedMorphoRepay),
    MorphoSupplyCollateral(ParsedMorphoSupplyCollateral),
    MorphoWithdrawCollateral(ParsedMorphoWithdrawCollateral),
    MorphoLiquidation(ParsedMorphoLiquidation),
    MorphoCreateMarket(ParsedMorphoCreateMarket),
}

impl DecodedEvent {
    /// The row of the signature table that the event was decoded by.
    pub open spec fn kind_of(self) -> EventKind {
        match self {
            DecodedEvent::Swap(_) => EventKind::UniV3Swap,
            DecodedEvent::AnswerUpdated(_) => EventKind::ChainlinkAnswerUpdated,
            DecodedEvent::NewRound(_) => EventKind::ChainlinkNewRound,
            DecodedEvent::AaveSupply(_) => EventKind::AaveSupply,
            DecodedEvent::AaveWithdraw(_) => EventKind::AaveWithdraw,
            DecodedEvent::AaveBorrow(_) => EventKind::AaveBorrow,
            DecodedEvent::AaveRepay(_) => EventKind::AaveRepay,
            DecodedEvent::AaveLiquidation(_) => EventKind::AaveLiquidationCall,
            DecodedEvent::MorphoSupply(_) => EventKind::MorphoSupply,
            DecodedEvent::MorphoWithdraw(_) => EventKind::MorphoWithdraw,
            DecodedEvent::MorphoBorrow(_) => EventKind::MorphoBorrow,
            DecodedEvent::MorphoRepay(_) => EventKind::MorphoRepay,
            DecodedEvent::MorphoSupplyCollateral(_) => EventKind::MorphoSupplyCollateral,
            DecodedEvent::MorphoWithdrawCollateral(_) => EventKind::MorphoWithdrawCollateral,
            DecodedEvent::MorphoLiquidation(_) => EventKind::MorphoLiquidate,
            DecodedEvent::MorphoCreateMarket(_) => EventKind::MorphoCreateMarket,
        }
    }

    /// The label under which the event is published: the protocol, an
    /// underscore and the kind.
    pub open spec fn label_text(self) -> Seq<char> {
        match self {
            DecodedEvent::Swap(_) => "UniV3_swap"@,
            DecodedEvent::AnswerUpdated(_) => "Chainlink_answer_updated"@,
            DecodedEvent::NewRound(_) => "Chainlink_new_round"@,
            DecodedEvent::AaveSupply(_) => "Aave_supply"@,
            DecodedEvent::AaveWithdraw(_) => "Aave_withdraw"@,
            DecodedEvent::AaveBorrow(_) => "Aave_borrow"@,
            DecodedEvent::AaveRepay(_) => "Aave_repay"@,
            DecodedEvent::AaveLiquidation(_) => "Aave_liquidation"@,
            DecodedEvent::MorphoSupply(_) => "Morpho_supply"@,
            DecodedEvent::MorphoWithdraw(_) => "Morpho_withdraw"@,
            DecodedEvent::MorphoBorrow(_) => "Morpho_borrow"@,
            DecodedEvent::MorphoRepay(_) => "Morpho_repay"@,
            DecodedEvent::MorphoSupplyCollateral(_) => "Morpho_supply_collateral"@,
            DecodedEvent::MorphoWithdrawCollateral(_) => "Morpho_withdraw_collateral"@,
            DecodedEvent::MorphoLiquidation(_) => "Morpho_liquidation"@,
            DecodedEvent::MorphoCreateMarket(_) => "Morpho_create_market"@,
        }
    }

    /// The row of the signature table that the event was decoded by.
    pub fn kind(&self) -> (r: EventKind)
        ensures
            r == self.kind_of(),
    {
        match self {
            DecodedEvent::Swap(_) => EventKind::UniV3Swap,
            DecodedEvent::AnswerUpdated(_) => EventKind::ChainlinkAnswerUpdated,
            DecodedEvent::NewRound(_) => EventKind::ChainlinkNewRound,
            DecodedEvent::AaveSupply(_) => EventKind::AaveSupply,
            DecodedEvent::AaveWithdraw(_) => EventKind::AaveWithdraw,
            DecodedEvent::AaveBorrow(_) => EventKind::AaveBorrow,
            DecodedEvent::AaveRepay(_) => EventKind::AaveRepay,
            DecodedEvent::AaveLiquidation(_) => EventKind::AaveLiquidationCall,
            DecodedEvent::MorphoSupply(_) => EventKind::MorphoSupply,
            DecodedEvent::MorphoWithdraw(_) => EventKind::MorphoWithdraw,
            DecodedEvent::MorphoBorrow(_) => EventKind::MorphoBorrow,
            DecodedEvent::MorphoRepay(_) => EventKind::MorphoRepay,
            DecodedEvent::MorphoSupplyCollateral(_) => EventKind::MorphoSupplyCollateral,
            DecodedEvent::MorphoWithdrawCollateral(_) => EventKind::MorphoWithdrawCollateral,
            DecodedEvent::MorphoLiquidation(_) => EventKind::MorphoLiquidate,
            DecodedEvent::MorphoCreateMarket(_) => EventKind::MorphoCreateMarket,
        }
    }

    /// The label under which the event is published.
    pub fn label(&self) -> (r: &'static str)
        ensures
            r@ == self.label_text(),
    {
        match self {
            DecodedEvent::Swap(_) => "UniV3_swap",
            DecodedEvent::AnswerUpdated(_) => "Chainlink_answer_updated",
            DecodedEvent::NewRound(_) => "Chainlink_new_round",
            DecodedEvent::AaveSupply(_) => "Aave_supply",
            DecodedEvent::AaveWithdraw(_) => "Aave_withdraw",
            DecodedEvent::AaveBorrow(_) => "Aave_borrow",
            DecodedEvent::AaveRepay(_) => "Aave_repay",
            DecodedEvent::AaveLiquidation(_) => "Aave_liquidation",
            DecodedEvent::MorphoSupply(_) => "Morpho_supply",
            DecodedEvent::MorphoWithdraw(_) => "Morpho_withdraw",
            DecodedEvent::MorphoBorrow(_) => "Morpho_borrow",
            DecodedEvent::MorphoRepay(_) => "Morpho_repay",
            DecodedEvent::MorphoSupplyCollateral(_) => "Morpho_supply_collateral",
            DecodedEvent::MorphoWithdrawCollateral(_) => "Morpho_withdraw_collateral",
            DecodedEvent::MorphoLiquidation(_) => "Morpho_liquidation",
            DecodedEvent::MorphoCreateMarket(_) => "Morpho_create_market",
        }
    }
}

/// No label holds a character that JSON escapes: on the wire each label
/// stands between quotation marks as it is.
pub proof fn lemma_labels_need_no_escape(event: DecodedEvent)
    ensures
        needs_no_escape(event.label_text()),
{
    reveal_strlit("UniV3_swap");
    reveal_strlit("Chainlink_answer_updated");
    reveal_strlit("Chainlink_new_round");
    reveal_strlit("Aave_supply");
    reveal_strlit("Aave_withdraw");
    reveal_strlit("Aave_borrow");
    reveal_strlit("Aave_repay");
    reveal_strlit("Aave_liquidation");
    reveal_strlit("Morpho_supply");
    reveal_strlit("Morpho_withdraw");
    reveal_strlit("Morpho_borrow");
    reveal_strlit("Morpho_repay");
    reveal_strlit("Morpho_supply_collateral");
    reveal_strlit("Morpho_withdraw_collateral");
    reveal_strlit("Morpho_liquidation");
    reveal_strlit("Morpho_create_market");
}

/// A kind of event that has its place among the decoded events.
pub trait Labeled: LogEvent + Copy {
    /// The event as a decoded event of any kind.
    spec fn tagged(self) -> DecodedEvent;

    /// Wraps the event as a decoded event of any kind.
    fn tag(self) -> (r: DecodedEvent)
        ensures
            r == self.tagged(),
    ;

    /// The tag that an event is wrapped in names the kind that it was decoded by.
    proof fn lemma_tag_keeps_kind(self)
        ensures
            self.tagged().kind_of() == Self::kind(),
    ;
}


impl Labeled for ParsedSwap {
    open spec fn tagged(self) -> DecodedEvent {
        DecodedEvent::Swap(self)
    }

    fn tag(self) -> (r: DecodedEvent) {
        DecodedEvent::Swap(self)
    }

    proof fn lemma_tag_keeps_kind(self) {
    }
}

impl Labeled for ParsedAnswerUpdated {
    open spec fn tagged(self) -> DecodedEvent {
        DecodedEvent::AnswerUpdated(self)
    }

    fn tag(self) -> (r: DecodedEvent) {
        DecodedEvent::AnswerUpdated(self)
    }

    proof fn lemma_tag_keeps_kind(self) {
    }
}

impl Labeled for ParsedNewRound {
    open spec fn tagged(self) -> DecodedEvent {
        DecodedEvent::NewRound(self)
    }

    fn tag(self) -> (r: DecodedEvent) {
        DecodedEvent::NewRound(self)
    }

    proof fn lemma_tag_keeps_kind(self) {
    }
}

impl Labeled for ParsedSupply {
    open spec fn tagged(self) -> DecodedEvent {
        DecodedEvent::AaveSupply(self)
    }

    fn tag(self) -> (r: DecodedEvent) {
        DecodedEvent::AaveSupply(self)
    }

    proof fn lemma_tag_keeps_kind(self) {
    }
}

impl Labeled for ParsedWithdraw {
    open spec fn tagged(self) -> DecodedEvent {
        DecodedEvent::AaveWithdraw(self)
    }

    fn tag(self) -> (r: DecodedEvent) {
        DecodedEvent::AaveWithdraw(self)
    }

    proof fn lemma_tag_keeps_kind(self) {
    }
}

impl Labeled for ParsedBorrow {
    open spec fn tagged(self) -> DecodedEvent {
        DecodedEvent::AaveBorrow(self)
    }

    fn tag(self) -> (r: DecodedEvent) {
        DecodedEvent::AaveBorrow(self)
    }

    proof fn lemma_tag_keeps_kind(self) {
    }
}

impl Labeled for ParsedRepay {
    open spec fn tagged(self) -> DecodedEvent {
        DecodedEvent::AaveRepay(self)
    }

    fn tag(self) -> (r: DecodedEvent) {
        DecodedEvent::AaveRepay(self)
    }

    proof fn lemma_tag_keeps_kind(self) {
    }
}

impl Labeled for ParsedLiquidation {
    open spec fn tagged(self) -> DecodedEvent {
        DecodedEvent::AaveLiquidation(self)
    }

    fn tag(self) -> (r: DecodedEvent) {
        DecodedEvent::AaveLiquidation(self)
    }

    proof fn lemma_tag_keeps_kind(self) {
    }
}

impl Labeled for ParsedMorphoSupply {
    open spec fn tagged(self) -> DecodedEvent {
        DecodedEvent::MorphoSupply(self)
    }

    fn tag(self) -> (r: DecodedEvent) {
        DecodedEvent::MorphoSupply(self)
    }

    proof fn lemma_tag_keeps_kind(self) {
    }
}

impl Labeled for ParsedMorphoWithdraw {
    open spec fn tagged(self) -> DecodedEvent {
        DecodedEvent::MorphoWithdraw(self)
    }

    fn tag(self) -> (r: DecodedEvent) {
        DecodedEvent::MorphoWithdraw(self)
    }

    proof fn lemma_tag_keeps_kind(self) {
    }
}

impl Labeled for ParsedMorphoBorrow {
    open spec fn tagged(self) -> DecodedEvent {
        DecodedEvent::MorphoBorrow(self)
    }

    fn tag(self) -> (r: DecodedEvent) {
        DecodedEvent::MorphoBorrow(self)
    }

    proof fn lemma_tag_keeps_kind(self) {
    }
}

impl Labeled for ParsedMorphoRepay {
    open spec fn tagged(self) -> DecodedEvent {
        DecodedEvent::MorphoRepay(self)
    }

    fn tag(self) -> (r: DecodedEvent) {
        DecodedEvent::MorphoRepay(self)
    }

    proof fn lemma_tag_keeps_kind(self) {
    }
}

impl Labeled for ParsedMorphoSupplyCollateral {
    open spec fn tagged(self) -> DecodedEvent {
        DecodedEvent::MorphoSupplyCollateral(self)
    }

    fn tag(self) -> (r: DecodedEvent) {
        DecodedEvent::MorphoSupplyCollateral(self)
    }

    proof fn lemma_tag_keeps_kind(self) {
    }
}

impl Labeled for ParsedMorphoWithdrawCollateral {
    open spec fn tagged(self) -> DecodedEvent {
        DecodedEvent::MorphoWithdrawCollateral(self)
    }

    fn tag(self) -> (r: DecodedEvent) {
        DecodedEvent::MorphoWithdrawCollateral(self)
    }

    proof fn lemma_tag_keeps_kind(self) {
    }
}

impl Labeled for ParsedMorphoLiquidation {
    open spec fn tagged(self) -> DecodedEvent {
        DecodedEvent::MorphoLiquidation(self)
    }

    fn tag(self) -> (r: DecodedEvent) {
        DecodedEvent::MorphoLiquidation(self)
    }

    proof fn lemma_tag_keeps_kind(self) {
    }
}

impl Labeled for ParsedMorphoCreateMarket {
    open spec fn tagged(self) -> DecodedEvent {
        DecodedEvent::MorphoCreateMarket(self)
    }

    fn tag(self) -> (r: DecodedEvent) {
        DecodedEvent::MorphoCreateMarket(self)
    }

    proof fn lemma_tag_keeps_kind(self) {
    }
}

/// The events of one kind, each wrapped as a decoded event, in their order.
pub open spec fn tag_all<E: Labeled>(events: Seq<E>) -> Seq<DecodedEvent> {
    events.map_values(|event: E| event.tagged())
}

/// Appends the events of one kind to `out`, each wrapped as a decoded event.
pub fn push_tagged<E: Labeled>(out: &mut Vec<DecodedEvent>, events: &Vec<E>)
    ensures
        final(out)@ == old(out)@ + tag_all(events@),
{
    let ghost before = out@;
    let mut i: usize = 0;
    while i < events.len()
        invariant
            i <= events.len(),
            out@ == before + tag_all(events@.take(i as int)),
        decreases events.len() - i,
    {
        let event: E = events[i];
        out.push(event.tag());
        proof {
            assert(tag_all(events@.take(i + 1)) =~= tag_all(events@.take(i as int)).push(
                event.tagged(),
            ));
            assert(out@ =~= before + tag_all(events@.take(i + 1)));
        }
        i = i + 1;
    }
    proof {
        assert(events@.take(events.len() as int) =~= events@);
    }
}

} // verus!
