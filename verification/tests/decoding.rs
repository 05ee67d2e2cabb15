use alloy_primitives::aliases::{I24, U160 as AlloyU160};
use alloy_primitives::{Address as AlloyAddress, FixedBytes, I256 as AlloyI256, U256 as AlloyU256};
use alloy_sol_types::SolValue;
use flashblocks_digestor::aave::{
    AaveUserUpdates, ParsedBorrow, ParsedLiquidation, ParsedRepay, ParsedSupply, ParsedWithdraw,
};
use flashblocks_digestor::chainlink::{ParsedAnswerUpdated, ParsedNewRound};
use flashblocks_digestor::log::{extract_events, LogEvent, ReceiptLog};
use flashblocks_digestor::morpho::{
    MorphoUpdates, ParsedMorphoBorrow, ParsedMorphoCreateMarket, ParsedMorphoLiquidation,
    ParsedMorphoRepay, ParsedMorphoSupply, ParsedMorphoSupplyCollateral, ParsedMorphoWithdraw,
    ParsedMorphoWithdrawCollateral,
};
use flashblocks_digestor::primitives::{Address, B256, I256, U160, U256};
use flashblocks_digestor::signature::EventKind;
use flashblocks_digestor::univ3::ParsedSwap;

fn addr(byte: u8) -> AlloyAddress {
    AlloyAddress::repeat_byte(byte)
}

fn ours(address: AlloyAddress) -> Address {
    Address::from_be_bytes(&address.0 .0)
}

fn topic_addr(address: AlloyAddress) -> B256 {
    B256::from_be_bytes(&address.into_word().0)
}

fn topic_u256(value: AlloyU256) -> B256 {
    B256::from_be_bytes(&value.to_be_bytes::<32>())
}

fn u256(value: AlloyU256) -> U256 {
    U256::from_word(topic_u256(value))
}

fn i256(value: AlloyI256) -> I256 {
    I256::from_word(B256::from_be_bytes(&value.to_be_bytes::<32>()))
}

fn u160(value: AlloyU160) -> U160 {
    let bytes = value.to_be_bytes::<20>();
    let a = Address::from_be_bytes(&bytes);
    U160 { hi: a.hi, lo: a.lo }
}

fn log(kind: EventKind, emitter: AlloyAddress, indexed: Vec<B256>, data: Vec<u8>) -> ReceiptLog {
    let mut topics = vec![kind.signature_hash()];
    topics.extend(indexed);
    ReceiptLog::new(ours(emitter), topics, data)
}

fn swap_values() -> (AlloyI256, AlloyI256, AlloyU160, u128, I24) {
    (
        AlloyI256::try_from(-1_500_000_000_000_000_000i128).unwrap(),
        AlloyI256::try_from(3_100_000_000i64).unwrap(),
        AlloyU160::from(3_543_191_142_285_914_205_922_034_323u128),
        7_654_321_000_000u128,
        I24::try_from(-201_234i32).unwrap(),
    )
}

fn swap_log() -> ReceiptLog {
    log(
        EventKind::UniV3Swap,
        addr(0xaa),
        vec![topic_addr(addr(0x01)), topic_addr(addr(0x02))],
        swap_values().abi_encode_sequence(),
    )
}

#[test]
fn a_swap_log_decodes_to_its_values() {
    let values = swap_values();
    let swap = ParsedSwap::from_log(&swap_log()).unwrap();
    assert_eq!(
        swap,
        ParsedSwap {
            pool: ours(addr(0xaa)),
            sender: ours(addr(0x01)),
            recipient: ours(addr(0x02)),
            amount0: i256(values.0),
            amount1: i256(values.1),
            sqrt_price_x96: u160(values.2),
            liquidity: values.3,
            tick: -201_234,
        }
    );
    assert!(swap.amount0.negative());
    assert!(!swap.amount1.negative());
    let state = swap.pool_state();
    assert_eq!(state.tick, -201_234);
    assert_eq!(state.liquidity, 7_654_321_000_000u128);
    assert_eq!(state.sqrt_price_x96, swap.sqrt_price_x96);
    assert_eq!(state.slot0().sqrt_price_x96, swap.sqrt_price_x96);
    assert_eq!(state.slot0().tick, swap.tick);
}

#[test]
fn the_payload_is_read_as_alloy_reads_it() {
    let data = swap_values().abi_encode_sequence();
    let decoded =
        <(AlloyI256, AlloyI256, AlloyU160, u128, I24)>::abi_decode_sequence(&data, true).unwrap();
    let swap = ParsedSwap::from_log(&swap_log()).unwrap();
    assert_eq!(swap.amount0, i256(decoded.0));
    assert_eq!(swap.amount1, i256(decoded.1));
    assert_eq!(swap.sqrt_price_x96, u160(decoded.2));
    assert_eq!(swap.liquidity, decoded.3);
    assert_eq!(swap.tick, decoded.4.as_i32());
}

#[test]
fn a_log_with_another_topic_zero_decodes_as_nothing() {
    let mut log = swap_log();
    log.topics[0] = B256::from_be_bytes(&alloy_primitives::keccak256(b"Transfer(address,address,uint256)").0);
    assert_eq!(ParsedSwap::from_log(&log), None);
    assert_eq!(ParsedAnswerUpdated::try_from_log(&log), None);
    assert_eq!(ParsedNewRound::try_from_log(&log), None);
    assert_eq!(ParsedSupply::try_from_log(&log), None);
    assert_eq!(ParsedWithdraw::try_from_log(&log), None);
    assert_eq!(ParsedBorrow::try_from_log(&log), None);
    assert_eq!(ParsedRepay::try_from_log(&log), None);
    assert_eq!(ParsedLiquidation::try_from_log(&log), None);
    assert_eq!(ParsedMorphoSupply::try_from_log(&log), None);
    assert_eq!(ParsedMorphoWithdraw::try_from_log(&log), None);
    assert_eq!(ParsedMorphoBorrow::try_from_log(&log), None);
    assert_eq!(ParsedMorphoRepay::try_from_log(&log), None);
    assert_eq!(ParsedMorphoSupplyCollateral::try_from_log(&log), None);
    assert_eq!(ParsedMorphoWithdrawCollateral::try_from_log(&log), None);
    assert_eq!(ParsedMorphoLiquidation::try_from_log(&log), None);
    assert_eq!(ParsedMorphoCreateMarket::try_from_log(&log), None);
    assert!(AaveUserUpdates::extract_all(&[log.clone()]).is_empty());
    assert!(MorphoUpdates::extract_all(&[log]).is_empty());
}

#[test]
fn a_log_without_topics_decodes_as_nothing() {
    let log = ReceiptLog::new(ours(addr(1)), vec![], swap_values().abi_encode_sequence());
    assert_eq!(ParsedSwap::from_log(&log), None);
    assert_eq!(ParsedMorphoCreateMarket::try_from_log(&log), None);
}

#[test]
fn a_wrong_topic_count_decodes_as_nothing() {
    let mut more = swap_log();
    more.topics.push(topic_addr(addr(0x03)));
    assert_eq!(ParsedSwap::from_log(&more), None);
    let mut fewer = swap_log();
    fewer.topics.pop();
    assert_eq!(ParsedSwap::from_log(&fewer), None);

    let data = (AlloyU256::from(5u8),).abi_encode_sequence();
    let good = log(
        EventKind::AaveWithdraw,
        addr(9),
        vec![topic_addr(addr(1)), topic_addr(addr(2)), topic_addr(addr(3))],
        data.clone(),
    );
    assert!(ParsedWithdraw::try_from_log(&good).is_some());
    let short = log(
        EventKind::AaveWithdraw,
        addr(9),
        vec![topic_addr(addr(1)), topic_addr(addr(2))],
        data,
    );
    assert_eq!(ParsedWithdraw::try_from_log(&short), None);
}

#[test]
fn a_malformed_payload_decodes_as_nothing() {
    let good = swap_values().abi_encode_sequence();
    assert_eq!(good.len(), 160);

    let mut long = swap_log();
    long.data.push(0);
    assert_eq!(ParsedSwap::from_log(&long), None);
    assert!(<(AlloyI256, AlloyI256, AlloyU160, u128, I24)>::abi_decode_sequence(&long.data, true)
        .is_err());

    let mut short = swap_log();
    short.data.truncate(159);
    assert_eq!(ParsedSwap::from_log(&short), None);

    let mut empty = swap_log();
    empty.data.clear();
    assert_eq!(ParsedSwap::from_log(&empty), None);

    // a price that does not fit 160 bits
    let mut wide_price = swap_log();
    wide_price.data[64] = 1;
    assert_eq!(ParsedSwap::from_log(&wide_price), None);
    assert!(<(AlloyI256, AlloyI256, AlloyU160, u128, I24)>::abi_decode_sequence(
        &wide_price.data,
        true
    )
    .is_err());

    // a liquidity that does not fit 128 bits
    let mut wide_liquidity = swap_log();
    wide_liquidity.data[96 + 15] = 1;
    assert_eq!(ParsedSwap::from_log(&wide_liquidity), None);

    // a tick whose sign is not extended
    let mut bad_tick = swap_log();
    bad_tick.data[128] = 0;
    assert_eq!(ParsedSwap::from_log(&bad_tick), None);
    assert!(<(AlloyI256, AlloyI256, AlloyU160, u128, I24)>::abi_decode_sequence(
        &bad_tick.data,
        true
    )
    .is_err());
}

#[test]
fn topics_are_not_held_to_their_type() {
    let mut log = swap_log();
    let mut dirty = addr(0x01).into_word().0;
    dirty[0] = 0xff;
    log.topics[1] = B256::from_be_bytes(&dirty);
    let swap = ParsedSwap::from_log(&log).unwrap();
    assert_eq!(swap.sender, ours(addr(0x01)));
}

#[test]
fn extraction_keeps_the_order_and_passes_over_the_rest() {
    let first = swap_log();
    let mut second = swap_log();
    second.address = ours(addr(0xbb));
    let mut broken = swap_log();
    broken.data.pop();
    let other = log(
        EventKind::ChainlinkAnswerUpdated,
        addr(0xcc),
        vec![topic_u256(AlloyU256::from(1u8)), topic_u256(AlloyU256::from(2u8))],
        (AlloyU256::from(3u8),).abi_encode_sequence(),
    );
    let logs = vec![other.clone(), first.clone(), broken, second.clone(), first.clone()];
    let swaps = ParsedSwap::extract_all(&logs);
    assert_eq!(swaps.len(), 3);
    assert_eq!(swaps[0].pool, ours(addr(0xaa)));
    assert_eq!(swaps[1].pool, ours(addr(0xbb)));
    assert_eq!(swaps[2], swaps[0]);
    assert_eq!(extract_events::<ParsedSwap>(&logs), swaps);
    assert_eq!(ParsedAnswerUpdated::extract_all(&logs).len(), 1);
    assert_eq!(ParsedNewRound::extract_all(&logs).len(), 0);
    assert!(ParsedSwap::extract_all(&[]).is_empty());
    assert_eq!(<ParsedSwap as LogEvent>::try_decode(&first), ParsedSwap::from_log(&first));
    assert_eq!(<ParsedSwap as LogEvent>::event_kind(), EventKind::UniV3Swap);
}

#[test]
fn chainlink_events_decode() {
    let answer = AlloyI256::try_from(-42_000_000_000i64).unwrap();
    let round = AlloyU256::from(18_446_744_073_709_551_700u128);
    let at = AlloyU256::from(1_700_000_000u64);
    let updated = log(
        EventKind::ChainlinkAnswerUpdated,
        addr(0x0f),
        vec![B256::from_be_bytes(&answer.to_be_bytes::<32>()), topic_u256(round)],
        (at,).abi_encode_sequence(),
    );
    assert_eq!(
        ParsedAnswerUpdated::try_from_log(&updated),
        Some(ParsedAnswerUpdated {
            feed: ours(addr(0x0f)),
            answer: i256(answer),
            round_id: u256(round),
            updated_at: u256(at),
        })
    );
    assert_eq!(ParsedNewRound::try_from_log(&updated), None);

    let started = log(
        EventKind::ChainlinkNewRound,
        addr(0x0f),
        vec![topic_u256(round), topic_addr(addr(0x44))],
        (at,).abi_encode_sequence(),
    );
    assert_eq!(
        ParsedNewRound::try_from_log(&started),
        Some(ParsedNewRound {
            feed: ours(addr(0x0f)),
            round_id: u256(round),
            started_by: ours(addr(0x44)),
            started_at: u256(at),
        })
    );
    assert_eq!(ParsedAnswerUpdated::try_from_log(&started), None);
}

#[test]
fn aave_events_decode() {
    let amount = AlloyU256::from(1_000_000u64);
    let rate = AlloyU256::from(31_415_926u64) << 64usize;
    let referral = topic_u256(AlloyU256::from(513u16));

    let supply = log(
        EventKind::AaveSupply,
        addr(0xa0),
        vec![topic_addr(addr(1)), topic_addr(addr(3)), referral],
        (addr(2), amount).abi_encode_sequence(),
    );
    assert_eq!(
        ParsedSupply::try_from_log(&supply),
        Some(ParsedSupply {
            pool: ours(addr(0xa0)),
            reserve: ours(addr(1)),
            user: ours(addr(2)),
            on_behalf_of: ours(addr(3)),
            amount: u256(amount),
            referral_code: 513,
        })
    );

    let withdraw = log(
        EventKind::AaveWithdraw,
        addr(0xa0),
        vec![topic_addr(addr(1)), topic_addr(addr(2)), topic_addr(addr(3))],
        (amount,).abi_encode_sequence(),
    );
    assert_eq!(
        ParsedWithdraw::try_from_log(&withdraw),
        Some(ParsedWithdraw {
            pool: ours(addr(0xa0)),
            reserve: ours(addr(1)),
            user: ours(addr(2)),
            to: ours(addr(3)),
            amount: u256(amount),
        })
    );

    let borrow = log(
        EventKind::AaveBorrow,
        addr(0xa0),
        vec![topic_addr(addr(1)), topic_addr(addr(3)), referral],
        (addr(2), amount, AlloyU256::from(2u8), rate).abi_encode_sequence(),
    );
    assert_eq!(
        ParsedBorrow::try_from_log(&borrow),
        Some(ParsedBorrow {
            pool: ours(addr(0xa0)),
            reserve: ours(addr(1)),
            user: ours(addr(2)),
            on_behalf_of: ours(addr(3)),
            amount: u256(amount),
            interest_rate_mode: 2,
            borrow_rate: u256(rate),
            referral_code: 513,
        })
    );
    let mut bad_mode = borrow.clone();
    bad_mode.data[64 + 30] = 1;
    assert_eq!(ParsedBorrow::try_from_log(&bad_mode), None);

    let repay = log(
        EventKind::AaveRepay,
        addr(0xa0),
        vec![topic_addr(addr(1)), topic_addr(addr(2)), topic_addr(addr(3))],
        (amount, true).abi_encode_sequence(),
    );
    assert_eq!(
        ParsedRepay::try_from_log(&repay),
        Some(ParsedRepay {
            pool: ours(addr(0xa0)),
            reserve: ours(addr(1)),
            user: ours(addr(2)),
            repayer: ours(addr(3)),
            amount: u256(amount),
            use_a_tokens: true,
        })
    );
    let mut bad_flag = repay.clone();
    bad_flag.data[32] = 1;
    assert_eq!(ParsedRepay::try_from_log(&bad_flag), None);

    let liquidation = log(
        EventKind::AaveLiquidationCall,
        addr(0xa0),
        vec![topic_addr(addr(1)), topic_addr(addr(2)), topic_addr(addr(3))],
        (amount, rate, addr(4), false).abi_encode_sequence(),
    );
    assert_eq!(
        ParsedLiquidation::try_from_log(&liquidation),
        Some(ParsedLiquidation {
            pool: ours(addr(0xa0)),
            collateral_asset: ours(addr(1)),
            debt_asset: ours(addr(2)),
            user: ours(addr(3)),
            debt_to_cover: u256(amount),
            liquidated_collateral_amount: u256(rate),
            liquidator: ours(addr(4)),
            receive_a_token: false,
        })
    );

    let logs = vec![supply, withdraw.clone(), borrow, repay, liquidation, withdraw];
    let updates = AaveUserUpdates::extract_all(&logs);
    assert_eq!(updates.supplies.len(), 1);
    assert_eq!(updates.withdraws.len(), 2);
    assert_eq!(updates.borrows.len(), 1);
    assert_eq!(updates.repays.len(), 1);
    assert_eq!(updates.liquidations.len(), 1);
    assert!(!updates.is_empty());
    assert_eq!(updates.total_count(), 6);
    assert!(MorphoUpdates::extract_all(&logs).is_empty());
}

#[test]
fn morpho_events_decode() {
    let market: FixedBytes<32> = FixedBytes::repeat_byte(0x5a);
    let id = B256::from_be_bytes(&market.0);
    let assets = AlloyU256::from(77u8);
    let shares = AlloyU256::from(88u8) << 130usize;
    let m = addr(0xb0);

    let supply = log(
        EventKind::MorphoSupply,
        m,
        vec![id, topic_addr(addr(1)), topic_addr(addr(2))],
        (assets, shares).abi_encode_sequence(),
    );
    assert_eq!(
        ParsedMorphoSupply::try_from_log(&supply),
        Some(ParsedMorphoSupply {
            morpho: ours(m),
            market_id: id,
            caller: ours(addr(1)),
            on_behalf_of: ours(addr(2)),
            assets: u256(assets),
            shares: u256(shares),
        })
    );
    // the same name with other parameters is another event
    assert_eq!(ParsedSupply::try_from_log(&supply), None);

    let withdraw = log(
        EventKind::MorphoWithdraw,
        m,
        vec![id, topic_addr(addr(2)), topic_addr(addr(3))],
        (addr(1), assets, shares).abi_encode_sequence(),
    );
    assert_eq!(
        ParsedMorphoWithdraw::try_from_log(&withdraw),
        Some(ParsedMorphoWithdraw {
            morpho: ours(m),
            market_id: id,
            caller: ours(addr(1)),
            on_behalf_of: ours(addr(2)),
            receiver: ours(addr(3)),
            assets: u256(assets),
            shares: u256(shares),
        })
    );

    let borrow = log(
        EventKind::MorphoBorrow,
        m,
        vec![id, topic_addr(addr(2)), topic_addr(addr(3))],
        (addr(1), assets, shares).abi_encode_sequence(),
    );
    assert_eq!(
        ParsedMorphoBorrow::try_from_log(&borrow),
        Some(ParsedMorphoBorrow {
            morpho: ours(m),
            market_id: id,
            caller: ours(addr(1)),
            on_behalf_of: ours(addr(2)),
            receiver: ours(addr(3)),
            assets: u256(assets),
            shares: u256(shares),
        })
    );

    let repay = log(
        EventKind::MorphoRepay,
        m,
        vec![id, topic_addr(addr(1)), topic_addr(addr(2))],
        (assets, shares).abi_encode_sequence(),
    );
    assert_eq!(
        ParsedMorphoRepay::try_from_log(&repay),
        Some(ParsedMorphoRepay {
            morpho: ours(m),
            market_id: id,
            caller: ours(addr(1)),
            on_behalf_of: ours(addr(2)),
            assets: u256(assets),
            shares: u256(shares),
        })
    );

    let supply_collateral = log(
        EventKind::MorphoSupplyCollateral,
        m,
        vec![id, topic_addr(addr(1)), topic_addr(addr(2))],
        (assets,).abi_encode_sequence(),
    );
    assert_eq!(
        ParsedMorphoSupplyCollateral::try_from_log(&supply_collateral),
        Some(ParsedMorphoSupplyCollateral {
            morpho: ours(m),
            market_id: id,
            caller: ours(addr(1)),
            on_behalf_of: ours(addr(2)),
            assets: u256(assets),
        })
    );

    let withdraw_collateral = log(
        EventKind::MorphoWithdrawCollateral,
        m,
        vec![id, topic_addr(addr(2)), topic_addr(addr(3))],
        (addr(1), assets).abi_encode_sequence(),
    );
    assert_eq!(
        ParsedMorphoWithdrawCollateral::try_from_log(&withdraw_collateral),
        Some(ParsedMorphoWithdrawCollateral {
            morpho: ours(m),
            market_id: id,
            caller: ours(addr(1)),
            on_behalf_of: ours(addr(2)),
            receiver: ours(addr(3)),
            assets: u256(assets),
        })
    );

    let five = (
        AlloyU256::from(1u8),
        AlloyU256::from(2u8),
        AlloyU256::from(3u8),
        AlloyU256::from(4u8),
        AlloyU256::from(5u8),
    );
    let liquidation = log(
        EventKind::MorphoLiquidate,
        m,
        vec![id, topic_addr(addr(1)), topic_addr(addr(2))],
        five.abi_encode_sequence(),
    );
    assert_eq!(
        ParsedMorphoLiquidation::try_from_log(&liquidation),
        Some(ParsedMorphoLiquidation {
            morpho: ours(m),
            market_id: id,
            caller: ours(addr(1)),
            borrower: ours(addr(2)),
            repaid_assets: u256(five.0),
            repaid_shares: u256(five.1),
            seized_assets: u256(five.2),
            bad_debt_assets: u256(five.3),
            bad_debt_shares: u256(five.4),
        })
    );

    let lltv = AlloyU256::from(860_000_000_000_000_000u64);
    let create = log(
        EventKind::MorphoCreateMarket,
        m,
        vec![id],
        (addr(1), addr(2), addr(3), addr(4), lltv).abi_encode_sequence(),
    );
    assert_eq!(
        ParsedMorphoCreateMarket::try_from_log(&create),
        Some(ParsedMorphoCreateMarket {
            morpho: ours(m),
            market_id: id,
            loan_token: ours(addr(1)),
            collateral_token: ours(addr(2)),
            oracle: ours(addr(3)),
            irm: ours(addr(4)),
            lltv: u256(lltv),
        })
    );
    let mut bad_oracle = create.clone();
    bad_oracle.data[64 + 3] = 9;
    assert_eq!(ParsedMorphoCreateMarket::try_from_log(&bad_oracle), None);

    let logs = vec![
        create,
        liquidation,
        withdraw_collateral,
        supply_collateral,
        repay,
        borrow,
        withdraw,
        supply.clone(),
        supply,
    ];
    let updates = MorphoUpdates::extract_all(&logs);
    assert_eq!(updates.supplies.len(), 2);
    assert_eq!(updates.withdraws.len(), 1);
    assert_eq!(updates.borrows.len(), 1);
    assert_eq!(updates.repays.len(), 1);
    assert_eq!(updates.supply_collaterals.len(), 1);
    assert_eq!(updates.withdraw_collaterals.len(), 1);
    assert_eq!(updates.liquidations.len(), 1);
    assert_eq!(updates.create_markets.len(), 1);
    assert!(!updates.is_empty());
    assert_eq!(updates.total_count(), 9);
}

#[test]
fn test_morpho_updates_empty() {
    let updates = MorphoUpdates::default();
    assert!(updates.is_empty());
    assert_eq!(updates.total_count(), 0);
}

#[test]
fn test_aave_updates_empty() {
    let updates = AaveUserUpdates::default();
    assert!(updates.is_empty());
    assert_eq!(updates.total_count(), 0);
    let fresh = AaveUserUpdates::new();
    assert_eq!(fresh.total_count(), 0);
}

#[test]
fn the_total_is_the_sum_of_the_kinds() {
    let mut updates = MorphoUpdates::new();
    let market = B256::new(1, 2);
    let entry = ParsedMorphoSupplyCollateral {
        morpho: ours(addr(1)),
        market_id: market,
        caller: ours(addr(2)),
        on_behalf_of: ours(addr(3)),
        assets: U256 { hi: 0, lo: 10 },
    };
    updates.supply_collaterals.push(entry);
    updates.supply_collaterals.push(entry);
    updates.repays.push(ParsedMorphoRepay {
        morpho: ours(addr(1)),
        market_id: market,
        caller: ours(addr(2)),
        on_behalf_of: ours(addr(3)),
        assets: U256 { hi: 0, lo: 10 },
        shares: U256 { hi: 0, lo: 11 },
    });
    assert!(!updates.is_empty());
    assert_eq!(updates.total_count(), 3);
}

#[test]
fn the_checked_total_is_the_total() {
    assert_eq!(AaveUserUpdates::new().checked_total_count(), Some(0));
    assert_eq!(MorphoUpdates::new().checked_total_count(), Some(0));
    let mut updates = AaveUserUpdates::new();
    let withdraw = ParsedWithdraw {
        pool: ours(addr(1)),
        reserve: ours(addr(2)),
        user: ours(addr(3)),
        to: ours(addr(4)),
        amount: U256 { hi: 0, lo: 1 },
    };
    updates.withdraws.push(withdraw);
    updates.withdraws.push(withdraw);
    updates.withdraws.push(withdraw);
    assert_eq!(updates.checked_total_count(), Some(3));
    assert_eq!(updates.total_count(), 3);
    assert!(!updates.is_empty());
}
