use brontes::classifier::{
    classify_flash_loan, classify_liquidation_call, AaveV2Call, AaveV2Classifier, Actions,
    FlashLoanCall, LiquidationCall, TraceEntry,
};
use brontes::curve::{extract_curve_stable_pool_immutables, populate_pool_data, CurvePool, PoolData};
use brontes::parser::{
    execute_block, fill_metadata, parse_transaction, receipts_complete, receipts_outcome,
    store_config_data,
    trace_outcome, BlockOutcome, BlockStats, ConfigError, PoolConfig, Protocol,
    TokenInfoWithAddressToml, TraceParseErrorKind, TracerAnswer, TransactionReceipt, TxTrace,
};
use brontes::primitives::{usdc_address, weth_address, Address, B256, U256};
use brontes::stats::{ParserStats, TraceParseError};

fn hash(n: u128) -> B256 {
    B256 { hi: 0, lo: n }
}

fn trace(index: u64) -> TxTrace {
    TxTrace {
        block_number: 18_000_000,
        tx_hash: hash(0x100 + index as u128),
        tx_index: index,
        gas_used: 0,
        effective_price: 0,
        is_success: true,
    }
}

fn receipt(index: u64, gas_used: u128, price: u128) -> TransactionReceipt {
    TransactionReceipt { transaction_index: index, gas_used: Some(gas_used), effective_gas_price: price }
}

fn address(n: u128) -> Address {
    Address { hi: 0, lo: n }
}

#[test]
fn address_is_read_from_forty_hex_digits() {
    assert_eq!(Address::parse("0xA0b86991c6218b36c1d19D4a2e9Eb0cE3606eB48"), Some(usdc_address()));
    assert_eq!(Address::parse("a0b86991c6218b36c1d19d4a2e9eb0ce3606eb48"), Some(usdc_address()));
    assert_eq!(Address::parse("0XC02AAA39B223FE8D0A0E5C4F27EAD9083C756CC2"), Some(weth_address()));
    assert_eq!(
        Address::parse("0x0000000100000000000000000000000000000002"),
        Some(Address { hi: 1, lo: 2 })
    );
    assert_eq!(Address::parse("0x00000000000000000000000000000000000000ff"), Some(address(255)));
    assert_eq!(Address::parse(""), None);
    assert_eq!(Address::parse("0x"), None);
    assert_eq!(Address::parse("0xa0b86991c6218b36c1d19d4a2e9eb0ce3606eb4"), None);
    assert_eq!(Address::parse("0xa0b86991c6218b36c1d19d4a2e9eb0ce3606eb488"), None);
    assert_eq!(Address::parse("0xg0b86991c6218b36c1d19d4a2e9eb0ce3606eb48"), None);
    assert_eq!(Address::parse("0x0xa0b86991c6218b36c1d19d4a2e9eb0ce3606eb"), None);
    assert_eq!(Address::default(), address(0));
}

#[test]
fn traces_get_the_gas_of_their_receipts() {
    let (filled, stats) =
        parse_transaction(trace(3), 18_000_000, hash(0x103), 65_535, 21_000, 45);
    assert_eq!(filled.gas_used, 21_000);
    assert_eq!(filled.effective_price, 45);
    assert_eq!(filled.tx_hash, hash(0x103));
    assert_eq!(filled.tx_index, 3);
    assert_eq!(stats.tx_idx, 65_535);
    assert_eq!(stats.block_num, 18_000_000);
    assert_eq!(stats.tx_hash, hash(0x103));
    assert_eq!(stats.err, None);
}

#[test]
fn traces_and_receipts_are_joined_in_block_order() {
    let traces = vec![trace(0), trace(1), trace(2)];
    let receipts = vec![receipt(0, 21_000, 40), receipt(1, 90_000, 31)];
    let (filled, stats) = fill_metadata(traces, receipts, 18_000_000);
    assert_eq!(filled.len(), 2);
    assert_eq!(filled[0].gas_used, 21_000);
    assert_eq!(filled[1].gas_used, 90_000);
    assert_eq!(filled[1].effective_price, 31);
    assert_eq!(filled[1].tx_hash, hash(0x101));
    assert_eq!(stats.block_num, 18_000_000);
    assert_eq!(stats.err, None);
    assert_eq!(stats.txs.len(), 2);
    assert_eq!(stats.txs[1].tx_idx, 1);
    assert_eq!(stats.txs[1].tx_hash, hash(0x101));
    let (none, empty) = fill_metadata(vec![], vec![receipt(0, 1, 1)], 5);
    assert!(none.is_empty());
    assert!(empty.txs.is_empty());
}

#[test]
fn receipts_are_complete_with_gas_and_a_short_index() {
    assert!(receipts_complete(&vec![]));
    assert!(receipts_complete(&vec![receipt(0, 1, 1), receipt(65_535, 1, 1)]));
    assert!(!receipts_complete(&vec![receipt(0, 1, 1), receipt(65_536, 1, 1)]));
    let without_gas =
        TransactionReceipt { transaction_index: 1, gas_used: None, effective_gas_price: 1 };
    assert!(!receipts_complete(&vec![receipt(0, 1, 1), without_gas]));
}

#[test]
fn missing_traces_or_receipts_skip_the_block() {
    let (traces, trace_stats) = trace_outcome(7, TracerAnswer::Missing);
    assert!(traces.is_none());
    assert_eq!(trace_stats.err, Some(TraceParseErrorKind::TracesMissingBlock));
    assert_eq!(trace_stats.block_num, 7);
    let (failed, failed_stats) = trace_outcome(7, TracerAnswer::Failed);
    assert!(failed.is_none());
    assert_eq!(failed_stats.err, Some(TraceParseErrorKind::TracesError));
    let (found, found_stats) = trace_outcome(7, TracerAnswer::Found(vec![trace(0)]));
    assert_eq!(found, Some(vec![trace(0)]));
    assert_eq!(found_stats.err, None);
    let (receipts, receipt_stats) = receipts_outcome(7, TracerAnswer::Missing);
    assert!(receipts.is_none());
    assert_eq!(receipt_stats.err, Some(TraceParseErrorKind::TracesMissingBlock));
    let (lost, lost_stats) = receipts_outcome(7, TracerAnswer::Failed);
    assert!(lost.is_none());
    assert_eq!(lost_stats.err, Some(TraceParseErrorKind::TracesError));
    assert_eq!(lost_stats.block_num, 7);
    let (got, _) = receipts_outcome(7, TracerAnswer::Found(vec![receipt(0, 1, 1)]));
    assert_eq!(got, Some(vec![receipt(0, 1, 1)]));

    let outcome = execute_block(
        7,
        trace_outcome(7, TracerAnswer::Found(vec![trace(0)])),
        receipts_outcome(7, TracerAnswer::Failed),
    );
    match outcome {
        BlockOutcome::Missing { stats } => {
            assert_eq!(stats.block_num, 7);
            assert_eq!(stats.err, Some(TraceParseErrorKind::TracesError));
            assert!(stats.txs.is_empty());
        }
        _ => panic!("a block without receipts is missing"),
    }
    let outcome = execute_block(
        7,
        trace_outcome(7, TracerAnswer::Found(vec![trace(0)])),
        receipts_outcome(7, TracerAnswer::Missing),
    );
    match outcome {
        BlockOutcome::Missing { stats } => {
            assert_eq!(stats.block_num, 7);
            assert_eq!(stats.err, Some(TraceParseErrorKind::TracesMissingBlock));
        }
        _ => panic!("a block without receipts is missing"),
    }
    let outcome = execute_block(
        7,
        trace_outcome(7, TracerAnswer::Found(vec![trace(0)])),
        (None, BlockStats::new(7, None)),
    );
    match outcome {
        BlockOutcome::Missing { stats } => {
            assert_eq!(stats.err, Some(TraceParseErrorKind::TracesMissingBlock))
        }
        _ => panic!("a block without receipts is missing"),
    }
    let outcome = execute_block(
        7,
        trace_outcome(7, TracerAnswer::Failed),
        receipts_outcome(7, TracerAnswer::Missing),
    );
    match outcome {
        BlockOutcome::Missing { stats } => {
            assert_eq!(stats.err, Some(TraceParseErrorKind::TracesError))
        }
        _ => panic!("a block without traces is missing"),
    }
    let outcome = execute_block(
        7,
        trace_outcome(7, TracerAnswer::Missing),
        receipts_outcome(7, TracerAnswer::Found(vec![receipt(0, 1, 1)])),
    );
    match outcome {
        BlockOutcome::Missing { stats } => {
            assert_eq!(stats.err, Some(TraceParseErrorKind::TracesMissingBlock))
        }
        _ => panic!("a block without traces is missing"),
    }
    let outcome = execute_block(
        7,
        trace_outcome(7, TracerAnswer::Found(vec![trace(0)])),
        receipts_outcome(7, TracerAnswer::Found(vec![receipt(0, 21_000, 40)])),
    );
    match outcome {
        BlockOutcome::Traced { traces, stats } => {
            assert_eq!(traces.len(), 1);
            assert_eq!(traces[0].gas_used, 21_000);
            assert_eq!(stats.txs.len(), 1);
        }
        _ => panic!("a block with traces and receipts is traced"),
    }
    assert!(BlockStats::new(3, None).txs.is_empty());
}

#[test]
fn configuration_names_the_pool_and_its_first_two_tokens() {
    let token = |symbol: &str, n: u128| TokenInfoWithAddressToml {
        symbol: symbol.to_string(),
        decimals: 18,
        address: address(n),
    };
    let mut entry = PoolConfig {
        protocol: "UniswapV3".to_string(),
        address: "0x00000000000000000000000000000000000000aa".to_string(),
        init_block: 12_369_621,
        token_info: vec![token("A", 1), token("B", 2), token("C", 3)],
    };
    let pool = store_config_data(&entry).unwrap();
    assert_eq!(pool.protocol, Protocol::UniswapV3);
    assert_eq!(pool.address, address(0xaa));
    assert_eq!(pool.init_block, 12_369_621);
    assert_eq!((pool.token0, pool.token1), (address(1), address(2)));
    entry.token_info.truncate(1);
    let pool = store_config_data(&entry).unwrap();
    assert_eq!((pool.token0, pool.token1), (address(0), address(0)));
    entry.protocol = "Pancake".to_string();
    assert_eq!(store_config_data(&entry), Err(ConfigError::UnknownProtocol));
    entry.protocol = "AaveV2".to_string();
    entry.address = "aa".to_string();
    assert_eq!(store_config_data(&entry), Err(ConfigError::InvalidAddress));
    assert_eq!(Protocol::parse(&"AaveV2".to_string()), Some(Protocol::AaveV2));
    assert_eq!(Protocol::parse(&"SushiSwapV2".to_string()), Some(Protocol::SushiSwapV2));
    assert_eq!(Protocol::parse(&"aavev2".to_string()), None);
}

#[test]
fn errors_are_counted_by_kind() {
    let mut stats = ParserStats::default();
    stats.record_error(&TraceParseError::TraceMissing);
    stats.record_error(&TraceParseError::NotRecognizedAction(hash(1)));
    stats.record_error(&TraceParseError::NotRecognizedAction(hash(2)));
    stats.record_error(&TraceParseError::EmptyInput(hash(1)));
    stats.record_error(&TraceParseError::EtherscanError(hash(1)));
    stats.record_error(&TraceParseError::AbiParseError(hash(1)));
    stats.record_error(&TraceParseError::InvalidFunctionSelector(hash(1)));
    stats.record_error(&TraceParseError::AbiDecodingFailed(hash(1)));
    assert_eq!(
        stats,
        ParserStats {
            total_tx: 0,
            total_traces: 0,
            successful_parses: 0,
            not_recognized_action_errors: 2,
            empty_input_errors: 1,
            etherscan_errors: 1,
            abi_parse_errors: 2,
            invalid_function_selector_errors: 0,
            abi_decoding_failed_errors: 1,
            trace_missing_errors: 1,
        }
    );
}

#[test]
fn pool_takes_what_the_batch_request_returns() {
    let pool = CurvePool {
        address: address(1),
        base_pool: address(2),
        tokens: vec![],
        token_decimals: vec![],
        fee: U256::zero(),
        a_value: U256::zero(),
        base_virtual_price: U256::zero(),
        reserves: vec![],
    };
    let data = PoolData {
        tokens: vec![address(10), address(11)],
        token_decimals: vec![6, 18],
        fee: U256 { hi: 0, lo: 4_000_000 },
        admin_fee: U256 { hi: 0, lo: 5 },
        a_value: U256 { hi: 0, lo: 2000 },
        base_virtual_price: U256 { hi: 1, lo: 0 },
        reserves: vec![U256 { hi: 0, lo: 7 }, U256 { hi: 0, lo: 9 }],
    };
    let filled = populate_pool_data(pool, data);
    assert_eq!(filled.address, address(1));
    assert_eq!(filled.base_pool, address(2));
    assert_eq!(filled.tokens, vec![address(10), address(11)]);
    assert_eq!(filled.token_decimals, vec![6, 18]);
    assert_eq!(filled.fee, U256 { hi: 0, lo: 4_000_000 });
    assert_eq!(filled.a_value, U256 { hi: 0, lo: 2000 });
    assert_eq!(filled.base_virtual_price, U256 { hi: 1, lo: 0 });
    assert_eq!(filled.reserves, vec![U256 { hi: 0, lo: 7 }, U256 { hi: 0, lo: 9 }]);
}

#[test]
fn base_pool_is_read_from_the_code() {
    let code = "0x6080a0b86991c6218b36c1d19d4a2e9eb0ce3606eb48ffff";
    assert_eq!(extract_curve_stable_pool_immutables(code, 6, 46), Some(usdc_address()));
    assert_eq!(extract_curve_stable_pool_immutables(code, 4, 46), None);
    assert_eq!(extract_curve_stable_pool_immutables(code, 6, 47), None);
    assert_eq!(extract_curve_stable_pool_immutables(code, 46, 6), None);
    assert_eq!(extract_curve_stable_pool_immutables(code, 6, 500), None);
}

#[test]
fn aave_calls_are_told_by_their_selector() {
    let classifier = AaveV2Classifier::new();
    assert_eq!(classifier.liquidation_call, 0x00a718a9);
    assert_eq!(classifier.flash_loan, 0xab9c4b5d);
    let call = LiquidationCall {
        collateral_asset: address(1),
        debt_asset: address(2),
        user: address(3),
        debt_to_cover: U256 { hi: 0, lo: 500 },
        receive_a_token: false,
    };
    let action = classifier.dispatch(
        0x00a718a9,
        4,
        address(20),
        address(30),
        Some(AaveV2Call::LiquidationCall(call)),
        None,
    );
    match action {
        Some(Actions::Liquidation(l)) => {
            assert_eq!(l, classify_liquidation_call(4, address(20), address(30), call));
            assert_eq!(l.trace_index, 4);
            assert_eq!(l.pool, address(30));
            assert_eq!(l.liquidator, address(20));
            assert_eq!(l.debtor, address(3));
            assert_eq!(l.collateral_asset, address(1));
            assert_eq!(l.debt_asset, address(2));
            assert_eq!(l.covered_debt, U256 { hi: 0, lo: 500 });
            assert_eq!(l.liquidated_collateral, U256::zero());
        }
        _ => panic!("a liquidation call makes a liquidation"),
    }
    assert!(classifier
        .dispatch(0xab9c4b5d, 4, address(20), address(30), Some(AaveV2Call::LiquidationCall(call)), None)
        .is_none());
    assert!(classifier.dispatch(0x00a718a9, 4, address(20), address(30), None, None).is_none());
    assert!(classifier
        .dispatch(0x12345678, 4, address(20), address(30), Some(AaveV2Call::LiquidationCall(call)), None)
        .is_none());
}

fn flash_loan_call() -> FlashLoanCall {
    FlashLoanCall {
        receiver_address: address(40),
        assets: vec![address(1), address(2)],
        amounts: vec![U256 { hi: 0, lo: 10 }, U256 { hi: 0, lo: 20 }],
        modes: vec![U256::zero(), U256::zero()],
        on_behalf_of: address(41),
    }
}

#[test]
fn flash_loan_needs_the_tokens_of_its_pool() {
    assert!(classify_flash_loan(9, address(20), address(30), flash_loan_call(), None).is_none());
    let loan = classify_flash_loan(
        9,
        address(20),
        address(30),
        flash_loan_call(),
        Some((address(1), address(2))),
    )
    .unwrap();
    assert_eq!(loan.trace_index, 9);
    assert_eq!(loan.from, address(20));
    assert_eq!(loan.pool, address(30));
    assert_eq!(loan.receiver_contract, address(40));
    assert_eq!(loan.assets, vec![address(1), address(2)]);
    assert_eq!(loan.amounts, vec![U256 { hi: 0, lo: 10 }, U256 { hi: 0, lo: 20 }]);
    assert_eq!(loan.aave_mode, Some((vec![U256::zero(), U256::zero()], address(41))));
    assert!(loan.child_actions.is_empty());
    assert!(loan.repayments.is_empty());
    assert!(loan.fees_paid.is_empty());
}

fn entries() -> Vec<TraceEntry> {
    let call = LiquidationCall {
        collateral_asset: address(1),
        debt_asset: address(2),
        user: address(3),
        debt_to_cover: U256 { hi: 0, lo: 500 },
        receive_a_token: true,
    };
    let entry = |trace_index: u64, protocol, selector, call_data, reverted| TraceEntry {
        trace_index,
        from: address(20),
        to: address(30),
        protocol,
        selector,
        call_data,
        tokens: Some((address(1), address(2))),
        reverted,
    };
    vec![
        entry(0, Some(Protocol::UniswapV2), 0x00a718a9, None, false),
        entry(
            1,
            Some(Protocol::AaveV2),
            0x00a718a9,
            Some(AaveV2Call::LiquidationCall(call)),
            false,
        ),
        entry(2, Some(Protocol::AaveV2), 0xab9c4b5d, Some(AaveV2Call::FlashLoan(flash_loan_call())), false),
        entry(3, Some(Protocol::AaveV2), 0xab9c4b5d, None, false),
        entry(4, Some(Protocol::AaveV2), 0x00a718a9, Some(AaveV2Call::LiquidationCall(call)), true),
        entry(5, None, 0x00a718a9, Some(AaveV2Call::LiquidationCall(call)), false),
    ]
}

fn shape(action: &Actions) -> (&'static str, u64) {
    match action {
        Actions::Liquidation(l) => ("liquidation", l.trace_index),
        Actions::FlashLoan(f) => ("flash loan", f.trace_index),
        Actions::Revert { trace_index } => ("revert", *trace_index),
        Actions::Unclassified { trace_index } => ("unclassified", *trace_index),
    }
}

#[test]
fn every_entry_of_a_trace_becomes_one_action() {
    let classifier = AaveV2Classifier::new();
    let actions = classifier.classify_transaction(entries());
    let shapes: Vec<(&str, u64)> = actions.iter().map(shape).collect();
    assert_eq!(
        shapes,
        vec![
            ("unclassified", 0),
            ("liquidation", 1),
            ("flash loan", 2),
            ("unclassified", 3),
            ("revert", 4),
            ("unclassified", 5),
        ]
    );
    assert_eq!(actions[2].trace_index(), 2);
}

#[test]
fn classifying_twice_gives_the_same_actions() {
    let classifier = AaveV2Classifier::new();
    let first = classifier.classify_transaction(entries());
    let second = AaveV2Classifier::new().classify_transaction(entries());
    assert_eq!(first.len(), second.len());
    for (a, b) in first.iter().zip(second.iter()) {
        assert_eq!(shape(a), shape(b));
        match (a, b) {
            (Actions::Liquidation(x), Actions::Liquidation(y)) => assert_eq!(x, y),
            (Actions::FlashLoan(x), Actions::FlashLoan(y)) => {
                assert_eq!(x.assets, y.assets);
                assert_eq!(x.amounts, y.amounts);
                assert_eq!(x.aave_mode, y.aave_mode);
                assert_eq!(x.receiver_contract, y.receiver_contract);
            }
            _ => {}
        }
    }
}
