//! The protocol handlers: what each of them draws from a flashblock, and the
//! run of all registered handlers over one flashblock.
//!
//! A handler decides what is to be published and in which order. It sends
//! nothing itself: its output is handed to whoever owns the sink.

use crate::aave::{ParsedBorrow, ParsedLiquidation, ParsedRepay, ParsedSupply, ParsedWithdraw};
use crate::chainlink::ParsedAnswerUpdated;
use crate::events::{push_tagged, tag_all, DecodedEvent};
use crate::flashblocks::{events_of, Flashblock};
use crate::morpho::{
    ParsedMorphoBorrow,
    ParsedMorphoCreateMarket,
    ParsedMorphoLiquidation,
    ParsedMorphoRepay,
    ParsedMorphoSupply,
    ParsedMorphoSupplyCollateral,
    ParsedMorphoWithdraw,
    ParsedMorphoWithdrawCollateral,
};
use crate::univ3::ParsedSwap;
use vstd::prelude::*;

verus! {

/// The protocols that have a handler.
#[derive(Clone, Copy, Debug, PartialEq, Eq, Structural)]
pub enum Protocol {
    UniV3,
    Chainlink,
    Aave,
    Morpho,
}

impl Protocol {
    /// What the handler of the protocol publishes for `fb`, in order: the
    /// events of each of its kinds that the receipts of `fb` yield, one kind
    /// after the other.
    pub open spec fn events(self, fb: Flashblock) -> Seq<DecodedEvent> {
        let receipts = fb.receipts();
        match self {
            Protocol::UniV3 => tag_all(events_of::<ParsedSwap>(receipts)),
            Protocol::Chainlink => tag_all(events_of::<ParsedAnswerUpdated>(receipts)),
            Protocol::Aave => tag_all(events_of::<ParsedSupply>(receipts)) + tag_all(
                events_of::<ParsedWithdraw>(receipts),
            ) + tag_all(events_of::<ParsedBorrow>(receipts)) + tag_all(
                events_of::<ParsedRepay>(receipts),
            ) + tag_all(events_of::<ParsedLiquidation>(receipts)),
            Protocol::Morpho => tag_all(events_of::<ParsedMorphoSupply>(receipts)) + tag_all(
                events_of::<ParsedMorphoWithdraw>(receipts),
            ) + tag_all(events_of::<ParsedMorphoBorrow>(receipts)) + tag_all(
                events_of::<ParsedMorphoRepay>(receipts),
            ) + tag_all(events_of::<ParsedMorphoSupplyCollateral>(receipts)) + tag_all(
                events_of::<ParsedMorphoWithdrawCollateral>(receipts),
            ) + tag_all(events_of::<ParsedMorphoLiquidation>(receipts)) + tag_all(
                events_of::<ParsedMorphoCreateMarket>(receipts),
            ),
        }
    }

    /// Runs the handler of the protocol on `fb`.
    pub fn process(self, fb: &Flashblock, block_number: u64) -> (r: HandlerOutput)
        ensures
            r.is_output_of(self, *fb, block_number),
    {
        match self {
            Protocol::UniV3 => UniV3Handler.process(fb, block_number),
            Protocol::Chainlink => ChainlinkHandler.process(fb, block_number),
            Protocol::Aave => AaveHandler.process(fb, block_number),
            Protocol::Morpho => MorphoHandler.process(fb, block_number),
        }
    }
}

/// What one handler found in one flashblock.
#[derive(Clone, Debug)]
pub struct HandlerOutput {
    /// The protocol of the handler.
    pub protocol: Protocol,
    /// The number of the block that the flashblock belongs to.
    pub block_number: u64,
    /// The events to publish, in the order in which they are to be sent.
    pub events: Vec<DecodedEvent>,
}

impl HandlerOutput {
    /// Whether this is what the handler of `protocol` gives for `fb`.
    pub open spec fn is_output_of(self, protocol: Protocol, fb: Flashblock, block_number: u64) -> bool {
        &&& self.protocol == protocol
        &&& self.block_number == block_number
        &&& self.events@ == protocol.events(fb)
    }
}

/// What every handler does: it draws the events of its protocol from a
/// flashblock, in the order in which they are to be published.
pub trait ProtocolHandler {
    /// The protocol that the handler serves.
    spec fn protocol(&self) -> Protocol;

    /// Draws the events of the handler's protocol from `fb`.
    fn process(&self, fb: &Flashblock, block_number: u64) -> (r: HandlerOutput)
        ensures
            r.is_output_of(self.protocol(), *fb, block_number),
    ;
}

/// The handler of Uniswap V3 swaps.
#[derive(Clone, Copy, Debug)]
pub struct UniV3Handler;

/// The handler of Chainlink answer updates.
#[derive(Clone, Copy, Debug)]
pub struct ChainlinkHandler;

/// The handler of Aave user actions.
#[derive(Clone, Copy, Debug)]
pub struct AaveHandler;

/// The handler of Morpho Blue events.
#[derive(Clone, Copy, Debug)]
pub struct MorphoHandler;

impl ProtocolHandler for UniV3Handler {
    open spec fn protocol(&self) -> Protocol {
        Protocol::UniV3
    }

    fn process(&self, fb: &Flashblock, block_number: u64) -> (r: HandlerOutput) {
        let swaps = fb.extract_swaps();
        let mut events: Vec<DecodedEvent> = Vec::new();
        push_tagged(&mut events, &swaps);
        proof {
            assert(events@ =~= tag_all(swaps@));
        }
        HandlerOutput { protocol: Protocol::UniV3, block_number, events }
    }
}

impl ProtocolHandler for ChainlinkHandler {
    open spec fn protocol(&self) -> Protocol {
        Protocol::Chainlink
    }

    fn process(&self, fb: &Flashblock, block_number: u64) -> (r: HandlerOutput) {
        let oracle_updates = fb.extract_answer_updates();
        let mut events: Vec<DecodedEvent> = Vec::new();
        push_tagged(&mut events, &oracle_updates);
        proof {
            assert(events@ =~= tag_all(oracle_updates@));
        }
        HandlerOutput { protocol: Protocol::Chainlink, block_number, events }
    }
}

impl ProtocolHandler for AaveHandler {
    open spec fn protocol(&self) -> Protocol {
        Protocol::Aave
    }

    fn process(&self, fb: &Flashblock, block_number: u64) -> (r: HandlerOutput) {
        let updates = fb.extract_aave_updates();
        let mut events: Vec<DecodedEvent> = Vec::new();
        if updates.is_empty() {
            proof {
                assert(Protocol::Aave.events(*fb) =~= Seq::<DecodedEvent>::empty());
            }
            return HandlerOutput { protocol: Protocol::Aave, block_number, events };
        }
        push_tagged(&mut events, &updates.supplies);
        push_tagged(&mut events, &updates.withdraws);
        push_tagged(&mut events, &updates.borrows);
        push_tagged(&mut events, &updates.repays);
        push_tagged(&mut events, &updates.liquidations);
        proof {
            assert(events@ =~= Protocol::Aave.events(*fb));
        }
        HandlerOutput { protocol: Protocol::Aave, block_number, events }
    }
}

impl ProtocolHandler for MorphoHandler {
    open spec fn protocol(&self) -> Protocol {
        Protocol::Morpho
    }

    fn process(&self, fb: &Flashblock, block_number: u64) -> (r: HandlerOutput) {
        let updates = fb.extract_morpho_updates();
        let mut events: Vec<DecodedEvent> = Vec::new();
        if updates.is_empty() {
            proof {
                assert(Protocol::Morpho.events(*fb) =~= Seq::<DecodedEvent>::empty());
            }
            return HandlerOutput { protocol: Protocol::Morpho, block_number, events };
        }
        push_tagged(&mut events, &updates.supplies);
        push_tagged(&mut events, &updates.withdraws);
        push_tagged(&mut events, &updates.borrows);
        push_tagged(&mut events, &updates.repays);
        push_tagged(&mut events, &updates.supply_collaterals);
        push_tagged(&mut events, &updates.withdraw_collaterals);
        push_tagged(&mut events, &updates.liquidations);
        push_tagged(&mut events, &updates.create_markets);
        proof {
            assert(events@ =~= Protocol::Morpho.events(*fb));
        }
        HandlerOutput { protocol: Protocol::Morpho, block_number, events }
    }
}

/// The handlers that take part in every run, in their order.
pub open spec fn registered() -> Seq<Protocol> {
    seq![Protocol::UniV3, Protocol::Chainlink]
}

/// The handlers that take part in every run, in their order.
pub fn all_handlers() -> (r: Vec<Protocol>)
    ensures
        r@ == registered(),
{
    let mut handlers: Vec<Protocol> = Vec::new();
    handlers.push(Protocol::UniV3);
    handlers.push(Protocol::Chainlink);
    assert(handlers@ =~= registered());
    handlers
}

/// Whether `outputs` holds, for each of `handlers` and in their order, what
/// that handler gives for `fb`.
pub open spec fn is_run_of(
    outputs: Seq<HandlerOutput>,
    handlers: Seq<Protocol>,
    fb: Flashblock,
    block_number: u64,
) -> bool {
    &&& outputs.len() == handlers.len()
    &&& forall|i: int|
        0 <= i < handlers.len() ==> (#[trigger] outputs[i]).is_output_of(
            handlers[i],
            fb,
            block_number,
        )
}

/// Runs each of `handlers` on `fb`. Every handler is run, whatever the
/// others found, and each has an output of its own.
pub fn run_handlers(handlers: &[Protocol], fb: &Flashblock, block_number: u64) -> (r: Vec<
    HandlerOutput,
>)
    ensures
        is_run_of(r@, handlers@, *fb, block_number),
{
    let mut outputs: Vec<HandlerOutput> = Vec::new();
    let mut i: usize = 0;
    while i < handlers.len()
        invariant
            i <= handlers.len(),
            is_run_of(outputs@, handlers@.take(i as int), *fb, block_number),
        decreases handlers.len() - i,
    {
        let output = handlers[i].process(fb, block_number);
        outputs.push(output);
        i = i + 1;
    }
    proof {
        assert(handlers@.take(handlers.len() as int) =~= handlers@);
    }
    outputs
}

/// Runs every registered handler on `fb`.
pub fn process_all_protocols(fb: &Flashblock, block_number: u64) -> (r: Vec<HandlerOutput>)
    ensures
        is_run_of(r@, registered(), *fb, block_number),
{
    let handlers = all_handlers();
    run_handlers(handlers.as_slice(), fb, block_number)
}

} // verus!
