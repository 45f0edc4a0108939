use brontes::mev::composer::{
    compose_dep_filter, compose_sandwich_jit, filter_and_count_bundles,
    find_mev_with_matching_tx_hashes, get_compose_fn, reduce_group, replace_dep_filter,
    update_mev_count, ComposeFunction,
};
use brontes::mev::header::{build_mev_header, pre_process, BlockPreprocessing};
use brontes::mev::inspector::DaddyInspector;
use brontes::mev::rules::{compose_groups, compose_mev_results, mev_filter};
use brontes::mev::sorted::{sort_mev_by_type, SortedMev};
use brontes::mev::types::{
    Bundle, BundleData, BundleHeader, JitLiquidity, MetadataCombined, MevCount, MevDetails, MevType,
    PossibleMev, PossibleMevCollection,
};
use brontes::parser::TxTrace;
use brontes::primitives::{Address, B256};
use brontes::rational::Ratio;
use brontes::tree::{build_tree, BlockTree, GasDetails, Header, Root, TreeError};

const ETHER: u128 = 1_000_000_000_000_000_000;

fn hash(n: u128) -> B256 {
    B256 { hi: 0, lo: n }
}

fn ratio(numerator: u64, denominator: u64) -> Ratio {
    Ratio::from_u64(numerator).div(&Ratio::from_u64(denominator))
}

fn details(hashes: &[u128]) -> MevDetails {
    MevDetails { tx_hashes: hashes.iter().map(|h| hash(*h)).collect(), bribe: 0, priority_fee_paid: 0 }
}

fn header(mev_type: MevType, first: u128, profit: Ratio) -> BundleHeader {
    BundleHeader {
        block_number: 18_000_000,
        tx_hash: hash(first),
        mev_type,
        profit_usd: profit,
        bribe_usd: Ratio::zero(),
    }
}

fn sandwich(hashes: &[u128], profit: u64) -> Bundle {
    Bundle {
        header: header(MevType::Sandwich, hashes[0], Ratio::from_u64(profit)),
        data: BundleData::Sandwich(details(hashes)),
    }
}

fn backrun(hashes: &[u128], profit: u64) -> Bundle {
    Bundle {
        header: header(MevType::Backrun, hashes[0], Ratio::from_u64(profit)),
        data: BundleData::Backrun(details(hashes)),
    }
}

fn jit(hashes: &[u128], profit: u64) -> Bundle {
    Bundle {
        header: header(MevType::Jit, hashes[0], Ratio::from_u64(profit)),
        data: BundleData::Jit(JitLiquidity {
            details: details(hashes),
            mint_trace_index: 3,
            burn_trace_index: 11,
        }),
    }
}

fn cex_dex(hashes: &[u128], profit: Ratio) -> Bundle {
    Bundle {
        header: header(MevType::CexDex, hashes[0], profit),
        data: BundleData::CexDex(details(hashes)),
    }
}

fn paying(mut bundle: Bundle, bribe: u128, priority_fee_paid: u128) -> Bundle {
    match &mut bundle.data {
        BundleData::Sandwich(d)
        | BundleData::Backrun(d)
        | BundleData::CexDex(d)
        | BundleData::Liquidation(d)
        | BundleData::Unknown(d) => {
            d.bribe = bribe;
            d.priority_fee_paid = priority_fee_paid;
        }
        BundleData::Jit(j) => {
            j.details.bribe = bribe;
            j.details.priority_fee_paid = priority_fee_paid;
        }
        BundleData::JitSandwich(js) => {
            js.sandwich.bribe = bribe;
            js.sandwich.priority_fee_paid = priority_fee_paid;
        }
    }
    bundle
}

fn block_header(base_fee: u64) -> Header {
    Header {
        number: 18_000_000,
        hash: hash(0xb10c),
        timestamp: 1_700_000_000,
        beneficiary: Address { hi: 0xbeef, lo: 1 },
        base_fee,
    }
}

fn root(index: u64, gas_used: u128, priority_fee: u128) -> Root {
    Root {
        tx_hash: hash(0x100 + index as u128),
        tx_idx: index,
        gas_details: GasDetails {
            coinbase_transfer: None,
            priority_fee,
            gas_used,
            effective_gas_price: priority_fee + 30,
        },
    }
}

fn metadata(reward: Option<u128>, eth_price: u64) -> MetadataCombined {
    MetadataCombined {
        block_num: 18_000_000,
        block_hash: hash(0xb10c),
        block_timestamp: 1_700_000_000,
        relay_timestamp: None,
        p2p_timestamp: None,
        proposer_fee_recipient: Some(Address { hi: 1, lo: 2 }),
        proposer_mev_reward: reward,
        eth_prices: Ratio::from_u64(eth_price),
    }
}

fn no_possible_mev() -> PossibleMevCollection {
    PossibleMevCollection(vec![])
}

fn kinds(bundles: &[Bundle]) -> Vec<MevType> {
    bundles.iter().map(|b| b.header.mev_type).collect()
}

#[test]
fn block_without_transactions_has_an_empty_result() {
    let tree = BlockTree { header: block_header(30), tx_roots: vec![] };
    let results = compose_mev_results(vec![], no_possible_mev(), &tree, &metadata(None, 2000));
    let block = results.block_details;
    assert_eq!(block.cumulative_gas_used, 0);
    assert_eq!(block.cumulative_priority_fee, 0);
    assert_eq!(block.total_bribe, 0);
    assert_eq!(block.cumulative_mev_priority_fee_paid, 0);
    assert!(results.mev_details.is_empty());
    assert_eq!(block.mev_count, MevCount::default());
    assert_eq!(block.mev_count.mev_count, 0);
    assert_eq!(block.mev_count.sandwich_count, None);
    assert_eq!(block.mev_count.cex_dex_count, None);
    assert_eq!(block.mev_count.jit_count, None);
    assert_eq!(block.mev_count.jit_sandwich_count, None);
    assert_eq!(block.mev_count.atomic_backrun_count, None);
    assert_eq!(block.mev_count.liquidation_count, None);
    assert!(block.builder_eth_profit.is_zero());
    assert!(block.proposer_profit_usd.is_none());
    assert_eq!(block.proposer_mev_reward, None);
}

#[test]
fn sandwich_takes_up_the_backrun_within_it() {
    let tree = BlockTree { header: block_header(30), tx_roots: vec![] };
    let emitted = vec![
        paying(sandwich(&[0xf0, 0xb0a, 0xb0], 100), 9, 2),
        paying(backrun(&[0xb0], 5), 4, 1),
    ];
    let results = compose_mev_results(emitted, no_possible_mev(), &tree, &metadata(None, 2000));
    assert_eq!(kinds(&results.mev_details), vec![MevType::Sandwich]);
    assert_eq!(results.block_details.total_bribe, 9);
    assert_eq!(results.block_details.cumulative_mev_priority_fee_paid, 2);
    assert_eq!(
        results.mev_details[0].data.mev_transaction_hashes(),
        vec![hash(0xf0), hash(0xb0a), hash(0xb0)]
    );
    assert!(results.mev_details[0].header.profit_usd.eq(&Ratio::from_u64(100)));
    let count = results.block_details.mev_count;
    assert_eq!(count.mev_count, 1);
    assert_eq!(count.sandwich_count, Some(1));
    assert_eq!(count.atomic_backrun_count, None);
}

#[test]
fn sandwich_and_jit_over_the_same_transactions_become_one() {
    let tree = BlockTree { header: block_header(30), tx_roots: vec![] };
    let emitted = vec![
        paying(sandwich(&[0xa, 0xb, 0xc], 40), 7, 1),
        paying(jit(&[0xa, 0xb, 0xc], 2), 5, 2),
    ];
    let results = compose_mev_results(emitted, no_possible_mev(), &tree, &metadata(None, 2000));
    assert_eq!(kinds(&results.mev_details), vec![MevType::JitSandwich]);
    let composed = &results.mev_details[0];
    assert!(matches!(composed.data, BundleData::JitSandwich(_)));
    assert_eq!(composed.data.mev_transaction_hashes(), vec![hash(0xa), hash(0xb), hash(0xc)]);
    assert!(composed.header.profit_usd.eq(&Ratio::from_u64(42)));
    assert_eq!(composed.data.bribe(), 12);
    assert_eq!(composed.data.priority_fee_paid(), 3);
    assert_eq!(composed.header.tx_hash, hash(0xa));
    let count = results.block_details.mev_count;
    assert_eq!(count.mev_count, 1);
    assert_eq!(count.jit_sandwich_count, Some(1));
    assert_eq!(count.sandwich_count, None);
    assert_eq!(count.jit_count, None);
    assert_eq!(results.block_details.total_bribe, 12);
}

#[test]
fn header_counts_what_the_kept_bundles_paid() {
    let tree = BlockTree { header: block_header(30), tx_roots: vec![root(0, 21_000, ETHER)] };
    let emitted = vec![
        paying(sandwich(&[1, 2, 3], 0), ETHER, ETHER),
        paying(backrun(&[4], 7), 2 * ETHER, ETHER / 2),
        paying(cex_dex(&[5], Ratio::zero()), ETHER, ETHER / 2),
    ];
    let results = compose_mev_results(emitted, no_possible_mev(), &tree, &metadata(None, 1000));
    assert_eq!(kinds(&results.mev_details), vec![MevType::Backrun, MevType::CexDex]);
    let block = results.block_details;
    assert_eq!(block.total_bribe, 3 * ETHER);
    assert_eq!(block.cumulative_mev_priority_fee_paid, ETHER);
    assert!(block.builder_eth_profit.eq(&Ratio::from_u64(4)));
    assert!(block.builder_profit_usd.eq(&Ratio::from_u64(4000)));
    assert!(block.cumulative_mev_profit_usd.eq(&Ratio::from_u64(4000)));
    assert_eq!(block.mev_count.mev_count, 2);
}

#[test]
fn composed_bundle_spans_the_transactions_of_both_parts() {
    let composed = compose_sandwich_jit(sandwich(&[1, 2, 3], 10), jit(&[3, 4, 1, 5], 1));
    assert_eq!(composed.header.mev_type, MevType::JitSandwich);
    assert_eq!(
        composed.data.mev_transaction_hashes(),
        vec![hash(1), hash(2), hash(3), hash(4), hash(5)]
    );
    match composed.data {
        BundleData::JitSandwich(parts) => {
            assert_eq!(parts.sandwich.tx_hashes, vec![hash(1), hash(2), hash(3)]);
            assert_eq!(parts.jit.details.tx_hashes, vec![hash(3), hash(4), hash(1), hash(5)]);
            assert_eq!(parts.jit.mint_trace_index, 3);
            assert_eq!(parts.jit.burn_trace_index, 11);
        }
        _ => panic!("a sandwich and a just-in-time bundle make a composed sandwich"),
    }
}

#[test]
fn reduce_removes_what_lies_within_a_sandwich() {
    let heads = vec![sandwich(&[1, 2, 3], 10), sandwich(&[7, 8], 10)];
    let deps = vec![
        backrun(&[3], 1),
        backrun(&[3, 4], 1),
        backrun(&[8, 7], 1),
        backrun(&[9], 1),
        backrun(&[2, 1], 1),
    ];
    let kept = reduce_group(deps, &heads);
    let spans: Vec<Vec<B256>> = kept.iter().map(|b| b.data.mev_transaction_hashes()).collect();
    assert_eq!(spans, vec![vec![hash(3), hash(4)], vec![hash(9)]]);
}

#[test]
fn reduce_leaves_a_jit_over_the_same_transactions_to_be_composed() {
    let heads = vec![sandwich(&[1, 2, 3], 10)];
    let deps = vec![jit(&[3, 1, 2], 1), jit(&[1, 2], 1), jit(&[1, 2, 3, 4], 1)];
    let kept = reduce_group(deps, &heads);
    let spans: Vec<Vec<B256>> = kept.iter().map(|b| b.data.mev_transaction_hashes()).collect();
    assert_eq!(
        spans,
        vec![vec![hash(3), hash(1), hash(2)], vec![hash(1), hash(2), hash(3), hash(4)]]
    );
    let wider = vec![sandwich(&[1, 2, 3], 10), sandwich(&[1, 2, 3, 4], 10)];
    let kept = reduce_group(vec![jit(&[3, 1, 2], 1)], &wider);
    assert!(kept.is_empty());
    let same = vec![backrun(&[1, 2, 3], 10)];
    let kept = reduce_group(vec![jit(&[3, 1, 2], 1)], &same);
    assert!(kept.is_empty());
}

#[test]
fn backrun_over_the_transactions_of_a_sandwich_is_taken_up() {
    let tree = BlockTree { header: block_header(30), tx_roots: vec![] };
    let emitted = vec![sandwich(&[1, 2, 3], 100), backrun(&[3, 2, 1], 5)];
    let results = compose_mev_results(emitted, no_possible_mev(), &tree, &metadata(None, 2000));
    assert_eq!(kinds(&results.mev_details), vec![MevType::Sandwich]);
    assert_eq!(results.block_details.mev_count.atomic_backrun_count, None);
}

#[test]
fn reduce_leaves_other_kinds_alone() {
    let mut sorted = sort_mev_by_type(vec![
        sandwich(&[1, 2, 3], 10),
        backrun(&[3], 1),
        jit(&[2], 1),
        cex_dex(&[3], Ratio::one()),
        jit(&[1, 2, 3], 1),
    ]);
    replace_dep_filter(MevType::Sandwich, &vec![MevType::Backrun, MevType::Jit], &mut sorted);
    assert_eq!(sorted.sandwich.len(), 1);
    assert!(sorted.backrun.is_empty());
    assert_eq!(sorted.jit.len(), 1);
    assert_eq!(sorted.jit[0].data.mev_transaction_hashes(), vec![hash(1), hash(2), hash(3)]);
    assert_eq!(sorted.cex_dex.len(), 1);
    replace_dep_filter(MevType::Sandwich, &vec![MevType::Sandwich], &mut sorted);
    assert_eq!(sorted.sandwich.len(), 1);
}

#[test]
fn each_sandwich_takes_the_first_partner_still_there() {
    let mut sorted = sort_mev_by_type(vec![
        sandwich(&[1, 2, 3], 10),
        sandwich(&[3, 2, 1], 20),
        sandwich(&[4, 5], 30),
        sandwich(&[1, 2, 3], 40),
        jit(&[9], 1),
        jit(&[2, 3, 1], 2),
        jit(&[1, 2, 3], 3),
    ]);
    compose_dep_filter(
        MevType::JitSandwich,
        &vec![MevType::Sandwich, MevType::Jit],
        ComposeFunction::SandwichJit,
        &mut sorted,
    );
    assert_eq!(sorted.jit_sandwich.len(), 2);
    assert!(sorted.jit_sandwich[0].header.profit_usd.eq(&Ratio::from_u64(12)));
    assert!(sorted.jit_sandwich[1].header.profit_usd.eq(&Ratio::from_u64(23)));
    assert_eq!(sorted.sandwich.len(), 2);
    assert!(sorted.sandwich[0].header.profit_usd.eq(&Ratio::from_u64(30)));
    assert!(sorted.sandwich[1].header.profit_usd.eq(&Ratio::from_u64(40)));
    assert_eq!(sorted.jit.len(), 1);
    assert_eq!(sorted.jit[0].data.mev_transaction_hashes(), vec![hash(9)]);
}

#[test]
fn composed_bundles_can_join_the_kinds_they_came_from() {
    let emitted = || {
        vec![
            sandwich(&[4, 5], 30),
            sandwich(&[1, 2, 3], 10),
            sandwich(&[6], 40),
            jit(&[9], 1),
            jit(&[2, 3, 1], 2),
        ]
    };
    let mut sorted = sort_mev_by_type(emitted());
    compose_dep_filter(
        MevType::Sandwich,
        &vec![MevType::Sandwich, MevType::Jit],
        ComposeFunction::SandwichJit,
        &mut sorted,
    );
    assert_eq!(
        kinds(&sorted.sandwich),
        vec![MevType::Sandwich, MevType::JitSandwich, MevType::Sandwich]
    );
    assert!(sorted.sandwich[1].header.profit_usd.eq(&Ratio::from_u64(12)));
    assert_eq!(kinds(&sorted.jit), vec![MevType::Jit]);
    assert!(sorted.jit_sandwich.is_empty());

    let mut sorted = sort_mev_by_type(emitted());
    compose_dep_filter(
        MevType::Jit,
        &vec![MevType::Sandwich, MevType::Jit],
        ComposeFunction::SandwichJit,
        &mut sorted,
    );
    assert_eq!(kinds(&sorted.sandwich), vec![MevType::Sandwich, MevType::Sandwich]);
    assert_eq!(kinds(&sorted.jit), vec![MevType::Jit, MevType::JitSandwich]);
    assert_eq!(sorted.jit[0].data.mev_transaction_hashes(), vec![hash(9)]);
    assert!(sorted.jit_sandwich.is_empty());
}

#[test]
fn table_reduces_before_it_composes() {
    let table = mev_filter();
    assert_eq!(table.len(), 2);
    assert_eq!(table[0].head, MevType::Sandwich);
    assert_eq!(table[0].compose, None);
    assert_eq!(table[0].deps, vec![MevType::Backrun, MevType::Jit]);
    assert_eq!(table[1].head, MevType::JitSandwich);
    assert_eq!(table[1].compose, Some(ComposeFunction::SandwichJit));
    assert_eq!(table[1].deps, vec![MevType::Sandwich, MevType::Jit]);
    assert_eq!(get_compose_fn(MevType::JitSandwich), Some(ComposeFunction::SandwichJit));
    assert_eq!(get_compose_fn(MevType::Sandwich), None);
    assert_eq!(get_compose_fn(MevType::Unknown), None);
    let mut sorted = sort_mev_by_type(vec![
        jit(&[1, 2], 1),
        sandwich(&[1, 2, 3], 10),
        jit(&[1, 2, 3], 2),
        backrun(&[3], 1),
    ]);
    compose_groups(&mut sorted);
    assert!(sorted.sandwich.is_empty());
    assert!(sorted.jit.is_empty());
    assert!(sorted.backrun.is_empty());
    assert_eq!(sorted.jit_sandwich.len(), 1);
}

#[test]
fn bundles_are_grouped_by_kind_in_their_order() {
    let sorted = sort_mev_by_type(vec![
        backrun(&[1], 1),
        sandwich(&[2, 3], 2),
        backrun(&[4], 3),
        cex_dex(&[5], Ratio::one()),
        backrun(&[6], 4),
    ]);
    let backruns: Vec<B256> = sorted.backrun.iter().map(|b| b.header.tx_hash).collect();
    assert_eq!(backruns, vec![hash(1), hash(4), hash(6)]);
    assert_eq!(sorted.sandwich.len(), 1);
    assert_eq!(sorted.cex_dex.len(), 1);
    assert!(sorted.jit.is_empty());
    assert!(sorted.jit_sandwich.is_empty());
    assert!(sorted.liquidation.is_empty());
    assert!(sorted.unknown.is_empty());
    assert_eq!(sorted.group(MevType::Backrun).len(), 3);
    assert!(SortedMev::new().group(MevType::Sandwich).is_empty());
}

#[test]
fn unprofitable_sandwiches_jits_and_backruns_are_dropped() {
    let loss = Ratio::zero().sub(&Ratio::from_u64(3));
    let mut losing_cex_dex = cex_dex(&[8], loss);
    losing_cex_dex.header.tx_hash = hash(8);
    let unknown = Bundle {
        header: header(MevType::Unknown, 9, Ratio::zero()),
        data: BundleData::Unknown(details(&[9])),
    };
    let liquidation = Bundle {
        header: header(MevType::Liquidation, 10, Ratio::zero()),
        data: BundleData::Liquidation(details(&[10])),
    };
    let sorted = sort_mev_by_type(vec![
        sandwich(&[1, 2], 0),
        sandwich(&[3, 4], 1),
        jit(&[5], 0),
        backrun(&[6], 0),
        backrun(&[7], 2),
        losing_cex_dex,
        unknown,
        liquidation,
    ]);
    let (count, bundles) = filter_and_count_bundles(sorted);
    assert_eq!(
        kinds(&bundles),
        vec![
            MevType::Sandwich,
            MevType::Backrun,
            MevType::CexDex,
            MevType::Liquidation,
            MevType::Unknown
        ]
    );
    assert_eq!(bundles[0].header.tx_hash, hash(3));
    assert_eq!(bundles[1].header.tx_hash, hash(7));
    assert_eq!(count.mev_count, 5);
    assert_eq!(count.sandwich_count, Some(1));
    assert_eq!(count.atomic_backrun_count, Some(1));
    assert_eq!(count.cex_dex_count, Some(1));
    assert_eq!(count.liquidation_count, Some(1));
    assert_eq!(count.jit_count, None);
    assert_eq!(count.jit_sandwich_count, None);
}

#[test]
fn counts_are_set_kind_by_kind() {
    let mut count = MevCount::default();
    update_mev_count(&mut count, MevType::Sandwich, 1);
    update_mev_count(&mut count, MevType::CexDex, 2);
    update_mev_count(&mut count, MevType::Jit, 3);
    update_mev_count(&mut count, MevType::JitSandwich, 4);
    update_mev_count(&mut count, MevType::Backrun, 5);
    update_mev_count(&mut count, MevType::Liquidation, 6);
    update_mev_count(&mut count, MevType::Unknown, 7);
    assert_eq!(
        count,
        MevCount {
            mev_count: 0,
            sandwich_count: Some(1),
            cex_dex_count: Some(2),
            jit_count: Some(3),
            jit_sandwich_count: Some(4),
            atomic_backrun_count: Some(5),
            liquidation_count: Some(6),
        }
    );
}

#[test]
fn bundles_are_found_by_their_transactions() {
    let bundles = vec![
        sandwich(&[1, 2, 3], 1),
        backrun(&[4], 1),
        jit(&[5, 2], 1),
        compose_sandwich_jit(sandwich(&[6, 7], 1), jit(&[8], 1)),
    ];
    assert_eq!(find_mev_with_matching_tx_hashes(&bundles, &[hash(2)]), vec![0, 2]);
    assert_eq!(find_mev_with_matching_tx_hashes(&bundles, &[hash(9), hash(4)]), vec![1]);
    assert_eq!(find_mev_with_matching_tx_hashes(&bundles, &[hash(8)]), vec![3]);
    assert!(find_mev_with_matching_tx_hashes(&bundles, &[]).is_empty());
    assert!(find_mev_with_matching_tx_hashes(&bundles, &[hash(99)]).is_empty());
}

#[test]
fn gas_and_priority_fees_are_summed_over_the_block() {
    let tree = BlockTree {
        header: block_header(30),
        tx_roots: vec![root(0, 21_000, 2), root(1, 150_000, 5), root(2, 60_000, 0)],
    };
    let pre = pre_process(&tree);
    assert_eq!(pre.cumulative_gas_used, 231_000);
    assert_eq!(pre.cumulative_priority_fee, 7);
    assert_eq!(pre.builder_address, Address { hi: 0xbeef, lo: 1 });
    let results = compose_mev_results(vec![], no_possible_mev(), &tree, &metadata(None, 2000));
    assert_eq!(results.block_details.cumulative_gas_used, 231_000);
    assert_eq!(results.block_details.cumulative_priority_fee, 7);
}

#[test]
fn priority_fee_holds_no_base_fee() {
    let trace = |index: u64, gas_used: u128, price: u128| TxTrace {
        block_number: 18_000_000,
        tx_hash: hash(index as u128),
        tx_index: index,
        gas_used,
        effective_price: price,
        is_success: true,
    };
    let traces = vec![trace(0, 21_000, 45), trace(1, 90_000, 30), trace(2, 50_000, 31)];
    let tree = build_tree(block_header(30), &traces).unwrap();
    assert_eq!(tree.tx_roots[0].gas_details.priority_fee, 15);
    assert_eq!(tree.tx_roots[0].gas_details.gas_used, 21_000);
    assert_eq!(tree.tx_roots[0].gas_details.effective_gas_price, 45);
    let pre = pre_process(&tree);
    assert_eq!(pre.cumulative_priority_fee, 16);
    assert_eq!(pre.cumulative_gas_used, 161_000);
    let free = build_tree(block_header(0), &traces).unwrap();
    assert_eq!(pre_process(&free).cumulative_priority_fee, 106);
    let below = build_tree(block_header(40), &traces).unwrap();
    assert_eq!(pre_process(&below).cumulative_priority_fee, 5);
    let shuffled = vec![trace(0, 1, 1), trace(2, 1, 1)];
    assert_eq!(build_tree(block_header(30), &shuffled).err(), Some(TreeError::Inconsistent));
}

#[test]
fn builder_and_proposer_earnings_are_exact() {
    let pre = BlockPreprocessing {
        cumulative_gas_used: 231_000,
        cumulative_priority_fee: ETHER,
        builder_address: Address { hi: 0xbeef, lo: 1 },
    };
    let bundles = vec![
        paying(sandwich(&[1, 2], 10), ETHER, ETHER / 4),
        paying(backrun(&[3], 10), ETHER, ETHER / 4),
    ];
    let possible = PossibleMevCollection(vec![PossibleMev { tx_hash: hash(77), tx_idx: 4 }]);
    let block =
        build_mev_header(&metadata(Some(ETHER / 2 + ETHER), 2000), &pre, possible, &bundles);
    assert_eq!(block.block_number, 18_000_000);
    assert_eq!(block.block_hash, hash(0xb10c));
    assert_eq!(block.total_bribe, 2 * ETHER);
    assert_eq!(block.cumulative_mev_priority_fee_paid, ETHER / 2);
    assert_eq!(block.cumulative_gas_used, 231_000);
    assert_eq!(block.cumulative_priority_fee, ETHER);
    assert!(block.eth_price.eq(&Ratio::from_u64(2000)));
    assert!(block.builder_eth_profit.eq(&ratio(3, 2)));
    assert!(block.builder_profit_usd.eq(&Ratio::from_u64(3000)));
    assert_eq!(block.proposer_mev_reward, Some(1));
    assert!(block.proposer_profit_usd.unwrap().eq(&Ratio::from_u64(3000)));
    assert!(block.cumulative_mev_profit_usd.eq(&Ratio::from_u64(5000)));
    assert_eq!(block.proposer_fee_recipient, Some(Address { hi: 1, lo: 2 }));
    assert_eq!(block.builder_address, Address { hi: 0xbeef, lo: 1 });
    assert_eq!(block.mev_count, MevCount::default());
    assert_eq!(block.possible_mev.0, vec![PossibleMev { tx_hash: hash(77), tx_idx: 4 }]);
}

#[test]
fn builder_can_lose_to_the_proposer() {
    let pre = BlockPreprocessing {
        cumulative_gas_used: 0,
        cumulative_priority_fee: ETHER,
        builder_address: Address { hi: 0xbeef, lo: 1 },
    };
    let block = build_mev_header(&metadata(Some(3 * ETHER), 1000), &pre, no_possible_mev(), &vec![]);
    let minus_two = Ratio::zero().sub(&Ratio::from_u64(2));
    assert!(block.builder_eth_profit.eq(&minus_two));
    assert!(block.builder_profit_usd.eq(&minus_two.mul(&Ratio::from_u64(1000))));
    assert_eq!(block.proposer_mev_reward, Some(3));
}

#[test]
fn inspector_processes_one_block_at_a_time() {
    let tree = BlockTree {
        header: block_header(30),
        tx_roots: vec![root(0, 21_000, 2), root(1, 150_000, 5)],
    };
    let mut inspector = DaddyInspector::new();
    assert!(!inspector.is_processing());
    inspector.on_new_tree(&tree);
    assert!(inspector.is_processing());
    let results = inspector.on_baby_resolution(
        &metadata(None, 2000),
        no_possible_mev(),
        vec![sandwich(&[1, 2, 3], 100), backrun(&[3], 5)],
    );
    assert!(!inspector.is_processing());
    assert_eq!(kinds(&results.mev_details), vec![MevType::Sandwich]);
    assert_eq!(results.block_details.cumulative_gas_used, 171_000);
    assert_eq!(results.block_details.mev_count.mev_count, 1);
}
