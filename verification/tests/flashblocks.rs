use alloy_primitives::aliases::{I24, U160 as AlloyU160};
use alloy_primitives::{Address as AlloyAddress, I256 as AlloyI256, U256 as AlloyU256};
use alloy_sol_types::SolValue;
use flashblocks_digestor::bloom::Bloom;
use flashblocks_digestor::events::DecodedEvent;
use flashblocks_digestor::flashblocks::{
    collect_events, Flashblock, FlashblockMetadata, FlashblockReceipt, ReceiptInner,
    TransactionReceipt,
};
use flashblocks_digestor::ingest::{
    handle_message, on_frame, plan, Dispatch, FrameStep, Parsed, UpstreamFrame,
};
use flashblocks_digestor::log::ReceiptLog;
use flashblocks_digestor::primitives::{Address, B256};
use flashblocks_digestor::protocols::{
    all_handlers, process_all_protocols, run_handlers, AaveHandler, ChainlinkHandler,
    MorphoHandler, Protocol, ProtocolHandler, UniV3Handler,
};
use flashblocks_digestor::signature::EventKind;
use flashblocks_digestor::univ3::ParsedSwap;

fn addr(byte: u8) -> AlloyAddress {
    AlloyAddress::repeat_byte(byte)
}

fn ours(address: AlloyAddress) -> Address {
    Address::from_be_bytes(&address.0 .0)
}

fn topic_addr(address: AlloyAddress) -> B256 {
    B256::from_be_bytes(&address.into_word().0)
}

fn topic_u64(value: u64) -> B256 {
    B256::new(0, value as u128)
}

const SQRT_PRICE: u128 = 3_543_191_142_285_914_205_922_034_323;

fn swap_log(pool: u8) -> ReceiptLog {
    let data = (
        AlloyI256::try_from(-5_000i64).unwrap(),
        AlloyI256::try_from(12_345i64).unwrap(),
        AlloyU160::from(SQRT_PRICE),
        999u128,
        I24::try_from(-7i32).unwrap(),
    )
        .abi_encode_sequence();
    ReceiptLog::new(
        ours(addr(pool)),
        vec![EventKind::UniV3Swap.signature_hash(), topic_addr(addr(1)), topic_addr(addr(2))],
        data,
    )
}

fn answer_log(feed: u8) -> ReceiptLog {
    ReceiptLog::new(
        ours(addr(feed)),
        vec![EventKind::ChainlinkAnswerUpdated.signature_hash(), topic_u64(2_000), topic_u64(7)],
        (AlloyU256::from(1_700_000_000u64),).abi_encode_sequence(),
    )
}

fn aave_withdraw_log() -> ReceiptLog {
    ReceiptLog::new(
        ours(addr(0xa0)),
        vec![
            EventKind::AaveWithdraw.signature_hash(),
            topic_addr(addr(1)),
            topic_addr(addr(2)),
            topic_addr(addr(3)),
        ],
        (AlloyU256::from(5u8),).abi_encode_sequence(),
    )
}

fn aave_supply_log() -> ReceiptLog {
    ReceiptLog::new(
        ours(addr(0xa0)),
        vec![
            EventKind::AaveSupply.signature_hash(),
            topic_addr(addr(1)),
            topic_addr(addr(2)),
            topic_u64(0),
        ],
        (addr(4), AlloyU256::from(5u8)).abi_encode_sequence(),
    )
}

fn morpho_create_log() -> ReceiptLog {
    ReceiptLog::new(
        ours(addr(0xb0)),
        vec![EventKind::MorphoCreateMarket.signature_hash(), topic_u64(77)],
        (addr(1), addr(2), addr(3), addr(4), AlloyU256::from(5u8)).abi_encode_sequence(),
    )
}

fn morpho_repay_log() -> ReceiptLog {
    ReceiptLog::new(
        ours(addr(0xb0)),
        vec![
            EventKind::MorphoRepay.signature_hash(),
            topic_u64(77),
            topic_addr(addr(1)),
            topic_addr(addr(2)),
        ],
        (AlloyU256::from(5u8), AlloyU256::from(6u8)).abi_encode_sequence(),
    )
}

fn bloom_with(kinds: &[EventKind]) -> Bloom {
    let mut bloom = Bloom::empty();
    for kind in kinds {
        bloom.accrue_hash(&kind.signature_hash());
    }
    bloom
}

fn receipt(tx: &str, logs: Vec<ReceiptLog>, bloom: Option<Bloom>) -> TransactionReceipt {
    TransactionReceipt {
        tx_hash: tx.to_string(),
        receipt: FlashblockReceipt::Eip1559(ReceiptInner {
            logs,
            logs_bloom: bloom,
            status: Some("0x1".to_string()),
            cumulative_gas_used: None,
        }),
    }
}

fn flashblock(receipts: Vec<TransactionReceipt>) -> Flashblock {
    Flashblock {
        payload_id: "0x01".to_string(),
        index: 3,
        metadata: Some(FlashblockMetadata {
            receipts,
            new_account_balances: vec![],
            block_number: 1234,
        }),
    }
}

#[test]
fn every_receipt_type_has_the_same_content() {
    let make = |wrap: fn(ReceiptInner) -> FlashblockReceipt| {
        wrap(ReceiptInner { logs: vec![swap_log(9)], ..ReceiptInner::default() })
    };
    for r in [
        make(FlashblockReceipt::Legacy),
        make(FlashblockReceipt::Eip2930),
        make(FlashblockReceipt::Eip1559),
        make(FlashblockReceipt::Eip4844),
        make(FlashblockReceipt::Eip7702),
        make(FlashblockReceipt::Deposit),
    ] {
        assert_eq!(r.logs().len(), 1);
        assert_eq!(r.inner().logs.len(), 1);
        assert!(r.inner().logs_bloom.is_none());
        assert!(r.may_have_swap());
        assert!(r.may_have_answer_updated());
        assert_eq!(r.extract::<ParsedSwap>().len(), 1);
    }
    let empty = ReceiptInner::default();
    assert!(empty.logs.is_empty() && empty.status.is_none() && empty.cumulative_gas_used.is_none());
}

#[test]
fn a_single_swap_is_extracted_with_its_values() {
    let fb = flashblock(vec![receipt(
        "0xaa",
        vec![swap_log(0x77)],
        Some(bloom_with(&[EventKind::UniV3Swap])),
    )]);
    let swaps = fb.extract_swaps();
    assert_eq!(swaps.len(), 1);
    let swap = swaps[0];
    assert_eq!(swap.pool, ours(addr(0x77)));
    assert_eq!(swap.sender, ours(addr(1)));
    assert_eq!(swap.recipient, ours(addr(2)));
    assert!(swap.amount0.negative());
    assert_eq!(swap.amount1.lo, 12_345);
    assert_eq!((swap.sqrt_price_x96.hi, swap.sqrt_price_x96.lo), (0, SQRT_PRICE));
    assert_eq!(swap.liquidity, 999);
    assert_eq!(swap.tick, -7);

    let state = swap.pool_state();
    let sqrt = state.sqrt_price_x96.lo as f64 / 2f64.powi(96);
    let price = sqrt * sqrt;
    let expected = (SQRT_PRICE as f64 / 79_228_162_514_264_337_593_543_950_336f64).powi(2);
    assert!((price - expected).abs() <= expected * 1e-12);
    assert!(price > 0.0019 && price < 0.0021);
}

#[test]
fn a_bloom_that_rules_everything_out_yields_nothing() {
    let logs = vec![
        swap_log(1),
        answer_log(2),
        aave_withdraw_log(),
        aave_supply_log(),
        morpho_create_log(),
        morpho_repay_log(),
    ];
    let fb = flashblock(vec![receipt("0xaa", logs.clone(), Some(Bloom::empty()))]);
    assert!(fb.extract_swaps().is_empty());
    assert!(fb.extract_answer_updates().is_empty());
    assert!(fb.extract_aave_updates().is_empty());
    assert!(fb.extract_morpho_updates().is_empty());
    for protocol in [Protocol::UniV3, Protocol::Chainlink, Protocol::Aave, Protocol::Morpho] {
        assert!(protocol.process(&fb, 1234).events.is_empty());
    }

    // the decoders themselves find every one of these events
    let open = flashblock(vec![receipt("0xaa", logs, None)]);
    assert_eq!(open.extract_swaps().len(), 1);
    assert_eq!(open.extract_answer_updates().len(), 1);
    assert_eq!(open.extract_aave_updates().total_count(), 2);
    assert_eq!(open.extract_morpho_updates().total_count(), 2);
}

#[test]
fn each_kind_is_asked_for_on_its_own() {
    let fb = flashblock(vec![receipt(
        "0xaa",
        vec![aave_withdraw_log(), aave_supply_log()],
        Some(bloom_with(&[EventKind::AaveWithdraw])),
    )]);
    let updates = fb.extract_aave_updates();
    assert_eq!(updates.withdraws.len(), 1);
    let admits_supply = bloom_with(&[EventKind::AaveWithdraw])
        .contains_hash(&EventKind::AaveSupply.signature_hash());
    assert_eq!(updates.supplies.len(), if admits_supply { 1 } else { 0 });
}

#[test]
fn receipts_are_read_in_their_order() {
    let fb = flashblock(vec![
        receipt("0x01", vec![swap_log(1), swap_log(2)], None),
        receipt("0x02", vec![swap_log(3)], Some(Bloom::empty())),
        receipt("0x03", vec![answer_log(9), swap_log(4)], Some(bloom_with(&[EventKind::UniV3Swap]))),
    ]);
    let pools: Vec<Address> = fb.extract_swaps().iter().map(|s| s.pool).collect();
    assert_eq!(pools, vec![ours(addr(1)), ours(addr(2)), ours(addr(4))]);
    let metadata = fb.metadata.as_ref().unwrap();
    assert_eq!(metadata.extract_swaps(), fb.extract_swaps());
    assert_eq!(collect_events::<ParsedSwap>(&metadata.receipts), fb.extract_swaps());
    assert_eq!(metadata.extract_answer_updates().len(), fb.extract_answer_updates().len());
    assert_eq!(metadata.extract_aave_updates().total_count(), 0);
    assert_eq!(metadata.extract_morpho_updates().total_count(), 0);
}

#[test]
fn a_flashblock_without_metadata_yields_nothing() {
    let fb = Flashblock { payload_id: "0x01".to_string(), index: 0, metadata: None };
    assert_eq!(fb.block_number(), None);
    assert!(fb.extract_swaps().is_empty());
    assert!(fb.extract_answer_updates().is_empty());
    assert!(fb.extract_aave_updates().is_empty());
    assert!(fb.extract_morpho_updates().is_empty());
    assert!(process_all_protocols(&fb, 0).iter().all(|output| output.events.is_empty()));
    let blank = FlashblockMetadata::default();
    assert!(blank.receipts.is_empty() && blank.new_account_balances.is_empty());
    assert_eq!(blank.block_number, 0);
}

#[test]
fn both_registered_protocols_publish_their_events() {
    let fb = flashblock(vec![receipt("0xaa", vec![swap_log(1), answer_log(2)], None)]);
    let outputs = process_all_protocols(&fb, 1234);
    assert_eq!(outputs.len(), 2);
    let labels: Vec<&str> =
        outputs.iter().flat_map(|output| output.events.iter().map(|e| e.label())).collect();
    assert_eq!(labels.iter().filter(|l| **l == "UniV3_swap").count(), 1);
    assert_eq!(labels.iter().filter(|l| **l == "Chainlink_answer_updated").count(), 1);
    assert_eq!(labels.len(), 2);
    assert_eq!(outputs[0].protocol, Protocol::UniV3);
    assert_eq!(outputs[1].protocol, Protocol::Chainlink);
    assert!(outputs.iter().all(|output| output.block_number == 1234));
    assert_eq!(all_handlers(), vec![Protocol::UniV3, Protocol::Chainlink]);
}

#[test]
fn a_handler_publishes_kind_after_kind() {
    let fb = flashblock(vec![
        receipt("0x01", vec![aave_withdraw_log(), aave_supply_log(), morpho_repay_log()], None),
        receipt("0x02", vec![morpho_create_log(), aave_supply_log(), swap_log(5)], None),
    ]);
    let aave = AaveHandler.process(&fb, 9);
    let labels: Vec<&str> = aave.events.iter().map(|e| e.label()).collect();
    assert_eq!(labels, vec!["Aave_supply", "Aave_supply", "Aave_withdraw"]);
    assert_eq!(aave.block_number, 9);
    assert_eq!(aave.protocol, Protocol::Aave);

    let morpho = MorphoHandler.process(&fb, 9);
    let labels: Vec<&str> = morpho.events.iter().map(|e| e.label()).collect();
    assert_eq!(labels, vec!["Morpho_repay", "Morpho_create_market"]);

    let univ3 = UniV3Handler.process(&fb, 9);
    assert_eq!(univ3.events.len(), 1);
    assert!(matches!(univ3.events[0], DecodedEvent::Swap(swap) if swap.pool == ours(addr(5))));
    assert_eq!(univ3.events[0].kind(), EventKind::UniV3Swap);
    assert!(ChainlinkHandler.process(&fb, 9).events.is_empty());

    let all = run_handlers(
        &[Protocol::Morpho, Protocol::Aave, Protocol::Chainlink, Protocol::UniV3],
        &fb,
        9,
    );
    let counts: Vec<usize> = all.iter().map(|output| output.events.len()).collect();
    assert_eq!(counts, vec![2, 3, 0, 1]);
    assert!(run_handlers(&[], &fb, 9).is_empty());
}

#[test]
fn the_loop_stops_only_where_it_must() {
    assert_eq!(on_frame(false, UpstreamFrame::Text), FrameStep::Parse);
    assert_eq!(on_frame(false, UpstreamFrame::Binary), FrameStep::InflateAndParse);
    assert_eq!(on_frame(false, UpstreamFrame::Control), FrameStep::Skip);
    assert_eq!(on_frame(false, UpstreamFrame::Close), FrameStep::Stop);
    assert_eq!(on_frame(false, UpstreamFrame::ReadError), FrameStep::Stop);
    for frame in [
        UpstreamFrame::Text,
        UpstreamFrame::Binary,
        UpstreamFrame::Control,
        UpstreamFrame::Close,
        UpstreamFrame::ReadError,
    ] {
        assert_eq!(on_frame(true, frame), FrameStep::Stop);
    }
}

#[test]
fn only_a_flashblock_with_a_block_number_is_dispatched() {
    let fb = flashblock(vec![receipt("0xaa", vec![swap_log(1)], None)]);
    let outputs = handle_message(&Parsed::Flashblock(fb)).unwrap();
    assert_eq!(outputs.len(), 2);
    assert_eq!(outputs[0].block_number, 1234);
    assert_eq!(outputs[0].events.len(), 1);
    let bare = Flashblock { payload_id: "x".to_string(), index: 1, metadata: None };
    assert!(handle_message(&Parsed::Flashblock(bare)).is_none());
    assert!(handle_message(&Parsed::Malformed).is_none());
}

#[test]
fn a_compressed_frame_inflates_to_its_text() {
    let text = r#"{"payload_id":"0x01","index":0}"#;
    let mut compressed = Vec::new();
    let params = brotli::enc::BrotliEncoderParams::default();
    brotli::BrotliCompress(&mut text.as_bytes(), &mut compressed, &params).unwrap();
    assert_ne!(compressed, text.as_bytes());
    assert_eq!(flashblocks_digestor::utils::decompress_brotli(&compressed), Ok(text.to_string()));
    assert!(flashblocks_digestor::utils::decompress_brotli(text.as_bytes()).is_err());

    let mut not_text = Vec::new();
    brotli::BrotliCompress(&mut &[0xffu8, 0xfe, 0x00][..], &mut not_text, &params).unwrap();
    assert!(flashblocks_digestor::utils::decompress_brotli(&not_text).is_err());
}

#[test]
fn a_transaction_has_one_receipt() {
    let mut metadata = FlashblockMetadata::new(77);
    assert_eq!(metadata.block_number, 77);
    assert_eq!(metadata.find_receipt("0x01"), None);
    let first = receipt("0x01", vec![swap_log(1)], None);
    let second = receipt("0x02", vec![swap_log(2)], None);
    let again = receipt("0x01", vec![swap_log(3), swap_log(4)], None);
    assert!(!metadata.insert_receipt(first.tx_hash, first.receipt));
    assert!(!metadata.insert_receipt(second.tx_hash, second.receipt));
    assert_eq!(metadata.find_receipt("0x01"), Some(0));
    assert_eq!(metadata.find_receipt("0x02"), Some(1));
    assert_eq!(metadata.find_receipt("0x03"), None);
    assert!(metadata.insert_receipt(again.tx_hash, again.receipt));
    assert_eq!(metadata.receipts.len(), 2);
    assert_eq!(metadata.receipts[0].tx_hash, "0x01");
    assert_eq!(metadata.receipts[0].receipt.logs().len(), 2);
    let pools: Vec<Address> = metadata.extract_swaps().iter().map(|s| s.pool).collect();
    assert_eq!(pools, vec![ours(addr(3)), ours(addr(4)), ours(addr(2))]);
}

#[test]
fn the_plan_for_a_message_follows_its_block_number() {
    let fb = flashblock(vec![receipt("0xaa", vec![swap_log(1)], None)]);
    assert_eq!(plan(&Parsed::Flashblock(fb)), Dispatch::Run { block_number: 1234 });
    let bare = Flashblock { payload_id: "x".to_string(), index: 1, metadata: None };
    assert_eq!(plan(&Parsed::Flashblock(bare)), Dispatch::Ignore);
    assert_eq!(plan(&Parsed::Malformed), Dispatch::Drop);
}
