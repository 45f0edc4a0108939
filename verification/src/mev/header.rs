//! The block-level aggregates: what the block's transactions used and paid,
//! what the bundles paid, and what builder and proposer earned.

use crate::mev::types::{
    bribe_of, priority_fee_of, Bundle, BundleData, BundleView, MetadataCombined, MevBlock,
    MevCount, PossibleMevCollection,
};
use crate::primitives::Address;
use crate::rational::Ratio;
use crate::tree::{cumulative_gas_used, cumulative_priority_fee, lemma_totals_grow, BlockTree};
use vstd::prelude::*;

verus! {

/// Wei in one ether.
pub const WEI_PER_ETH: u128 = 1_000_000_000_000_000_000;

/// What the composer needs of a block before it reads the bundles.
#[derive(Clone, Copy, Debug, PartialEq, Eq, Structural)]
pub struct BlockPreprocessing {
    pub cumulative_gas_used: u128,
    pub cumulative_priority_fee: u128,
    pub builder_address: Address,
}

/// The builder and the totals of gas used and of priority fees paid over
/// the block's transactions. The base fee is burnt and is no part of them.
pub fn pre_process(tree: &BlockTree) -> (pre: BlockPreprocessing)
    requires
        cumulative_gas_used(tree.tx_roots@) <= u128::MAX,
        cumulative_priority_fee(tree.tx_roots@) <= u128::MAX,
    ensures
        pre.builder_address == tree.header.beneficiary,
        pre.cumulative_gas_used == cumulative_gas_used(tree.tx_roots@),
        pre.cumulative_priority_fee == cumulative_priority_fee(tree.tx_roots@),
{
    let ghost roots = tree.tx_roots@;
    let mut gas_used: u128 = 0;
    let mut priority_fee: u128 = 0;
    let mut i: usize = 0;
    while i < tree.tx_roots.len()
        invariant
            i <= tree.tx_roots.len(),
            roots == tree.tx_roots@,
            cumulative_gas_used(roots) <= u128::MAX,
            cumulative_priority_fee(roots) <= u128::MAX,
            gas_used == cumulative_gas_used(roots.take(i as int)),
            priority_fee == cumulative_priority_fee(roots.take(i as int)),
        decreases tree.tx_roots.len() - i,
    {
        proof {
            assert(roots.take(i + 1).drop_last() =~= roots.take(i as int));
            lemma_totals_grow(roots, i + 1);
        }
        gas_used = gas_used + tree.tx_roots[i].gas_details.gas_used;
        priority_fee = priority_fee + tree.tx_roots[i].gas_details.priority_fee;
        i = i + 1;
    }
    assert(roots.take(i as int) =~= roots);
    BlockPreprocessing {
        cumulative_gas_used: gas_used,
        cumulative_priority_fee: priority_fee,
        builder_address: tree.header.beneficiary,
    }
}

/// One of the two amounts, in wei, that a bundle pays.
#[derive(Clone, Copy, Debug, PartialEq, Eq, Structural)]
pub enum Amount {
    Bribe,
    PriorityFee,
}

/// What a bundle paid of an amount.
pub open spec fn amount_of(data: BundleData, which: Amount) -> int {
    match which {
        Amount::Bribe => bribe_of(data),
        Amount::PriorityFee => priority_fee_of(data),
    }
}

/// What the bundles paid of an amount, in total.
pub open spec fn paid(bundles: Seq<BundleView>, which: Amount) -> int
    decreases bundles.len(),
{
    if bundles.len() == 0 {
        0
    } else {
        paid(bundles.drop_last(), which) + amount_of(bundles.last().data, which)
    }
}

/// The bribes that the bundles paid, in total.
pub open spec fn total_bribe(bundles: Seq<BundleView>) -> int {
    paid(bundles, Amount::Bribe)
}

/// The priority fees that the bundles paid, in total.
pub open spec fn total_priority_fee_paid(bundles: Seq<BundleView>) -> int {
    paid(bundles, Amount::PriorityFee)
}

/// The totals over a part of the bundles do not exceed those over all.
pub proof fn lemma_bundle_totals_grow(bundles: Seq<BundleView>, n: int)
    requires
        0 <= n <= bundles.len(),
    ensures
        0 <= total_bribe(bundles.take(n)) <= total_bribe(bundles),
        0 <= total_priority_fee_paid(bundles.take(n)) <= total_priority_fee_paid(bundles),
    decreases bundles.len() - n,
{
    if n == bundles.len() {
        assert(bundles.take(n) =~= bundles);
        lemma_bundle_totals_nonnegative(bundles);
    } else {
        lemma_bundle_totals_grow(bundles, n + 1);
        assert(bundles.take(n + 1).drop_last() =~= bundles.take(n));
        lemma_bundle_totals_nonnegative(bundles.take(n));
    }
}

/// The totals over the bundles are never negative.
pub proof fn lemma_bundle_totals_nonnegative(bundles: Seq<BundleView>)
    ensures
        0 <= total_bribe(bundles),
        0 <= total_priority_fee_paid(bundles),
    decreases bundles.len(),
{
    if bundles.len() > 0 {
        lemma_bundle_totals_nonnegative(bundles.drop_last());
        assert(amount_of(bundles.last().data, Amount::Bribe) >= 0);
        assert(amount_of(bundles.last().data, Amount::PriorityFee) >= 0);
    }
}

/// Whether the bribes and the priority fees that the bundles paid each
/// fit, in total, in 128 bits.
pub fn bundle_totals_fit(bundles: &Vec<Bundle>) -> (b: bool)
    ensures
        b == (total_bribe(bundles.deep_view()) <= u128::MAX && total_priority_fee_paid(
            bundles.deep_view(),
        ) <= u128::MAX),
{
    let ghost all = bundles.deep_view();
    let mut bribe: u128 = 0;
    let mut fee_paid: u128 = 0;
    let mut i: usize = 0;
    while i < bundles.len()
        invariant
            i <= bundles.len(),
            all == bundles.deep_view(),
            bribe == total_bribe(all.take(i as int)),
            fee_paid == total_priority_fee_paid(all.take(i as int)),
        decreases bundles.len() - i,
    {
        proof {
            assert(all.take(i + 1).drop_last() =~= all.take(i as int));
            lemma_bundle_totals_grow(all, i + 1);
        }
        let (own_bribe, own_fee) = match bundle_amounts(&bundles[i].data) {
            Some(amounts) => amounts,
            None => {
                return false;
            },
        };
        if bribe > u128::MAX - own_bribe || fee_paid > u128::MAX - own_fee {
            return false;
        }
        bribe = bribe + own_bribe;
        fee_paid = fee_paid + own_fee;
        i = i + 1;
    }
    assert(all.take(i as int) =~= all);
    true
}

/// The bribe and the priority fee that a bundle paid; `None` where one of
/// them does not fit in 128 bits.
pub fn bundle_amounts(data: &BundleData) -> (amounts: Option<(u128, u128)>)
    ensures
        amounts is Some <==> bribe_of(*data) <= u128::MAX && priority_fee_of(*data) <= u128::MAX,
        amounts matches Some(a) ==> a.0 == bribe_of(*data) && a.1 == priority_fee_of(*data),
{
    match data {
        BundleData::JitSandwich(d) => {
            if d.sandwich.bribe > u128::MAX - d.jit.details.bribe || d.sandwich.priority_fee_paid
                > u128::MAX - d.jit.details.priority_fee_paid {
                None
            } else {
                Some((data.bribe(), data.priority_fee_paid()))
            }
        },
        _ => Some((data.bribe(), data.priority_fee_paid())),
    }
}

/// The proposer's reward, or nothing where none is known.
pub open spec fn reward_or_zero(reward: Option<u128>) -> int {
    match reward {
        Some(wei) => wei as int,
        None => 0,
    }
}

/// An amount of wei in ether.
pub open spec fn in_ether(wei: int) -> real {
    (wei as real) / (WEI_PER_ETH as real)
}

/// Whether `block` holds, but for the counts of its bundles, the header of
/// the block that `metadata` and `pre` describe, aggregated over `bundles`.
pub open spec fn is_block_header(
    block: MevBlock,
    metadata: MetadataCombined,
    pre: BlockPreprocessing,
    possible_mev: PossibleMevCollection,
    bundles: Seq<BundleView>,
) -> bool {
    let bribe = total_bribe(bundles);
    let fee_paid = total_priority_fee_paid(bundles);
    let builder_eth = in_ether(
        bribe + pre.cumulative_priority_fee - reward_or_zero(metadata.proposer_mev_reward),
    );
    &&& block.block_hash == metadata.block_hash
    &&& block.block_number == metadata.block_num
    &&& block.eth_price@ == metadata.eth_prices@
    &&& block.cumulative_gas_used == pre.cumulative_gas_used
    &&& block.cumulative_priority_fee == pre.cumulative_priority_fee
    &&& block.total_bribe == bribe
    &&& block.cumulative_mev_priority_fee_paid == fee_paid
    &&& block.builder_address == pre.builder_address
    &&& block.builder_eth_profit@ == builder_eth
    &&& block.builder_profit_usd@ == builder_eth * metadata.eth_prices@
    &&& block.proposer_fee_recipient == metadata.proposer_fee_recipient
    &&& block.proposer_mev_reward == match metadata.proposer_mev_reward {
        Some(wei) => Some((wei / WEI_PER_ETH) as u128),
        None => None,
    }
    &&& match metadata.proposer_mev_reward {
        Some(wei) => block.proposer_profit_usd matches Some(usd) && usd@ == in_ether(wei as int)
            * metadata.eth_prices@,
        None => block.proposer_profit_usd is None,
    }
    &&& block.cumulative_mev_profit_usd@ == in_ether(fee_paid + bribe) * metadata.eth_prices@
    &&& block.possible_mev == possible_mev
}

/// The header of a block: the totals of its transactions, the totals of
/// what the bundles paid, and the earnings of builder and proposer in ether
/// and in USD. The builder earns the bribes and the priority fees, less
/// what it pays the proposer.
pub fn build_mev_header(
    metadata: &MetadataCombined,
    pre_processing: &BlockPreprocessing,
    possible_mev: PossibleMevCollection,
    orchestra_data: &Vec<Bundle>,
) -> (block: MevBlock)
    requires
        total_bribe(orchestra_data.deep_view()) <= u128::MAX,
        total_priority_fee_paid(orchestra_data.deep_view()) <= u128::MAX,
    ensures
        block.mev_count == MevCount::empty(),
        is_block_header(
            block,
            *metadata,
            *pre_processing,
            possible_mev,
            orchestra_data.deep_view(),
        ),
{
    let ghost all = orchestra_data.deep_view();
    let mut total_bribe: u128 = 0;
    let mut cum_mev_priority_fee_paid: u128 = 0;
    let mut i: usize = 0;
    while i < orchestra_data.len()
        invariant
            i <= orchestra_data.len(),
            all == orchestra_data.deep_view(),
            self::total_bribe(all) <= u128::MAX,
            total_priority_fee_paid(all) <= u128::MAX,
            total_bribe == self::total_bribe(all.take(i as int)),
            cum_mev_priority_fee_paid == total_priority_fee_paid(all.take(i as int)),
        decreases orchestra_data.len() - i,
    {
        proof {
            assert(all.take(i + 1).drop_last() =~= all.take(i as int));
            lemma_bundle_totals_grow(all, i + 1);
            lemma_bundle_totals_grow(all, i as int);
        }
        total_bribe = total_bribe + orchestra_data[i].data.bribe();
        cum_mev_priority_fee_paid = cum_mev_priority_fee_paid
            + orchestra_data[i].data.priority_fee_paid();
        i = i + 1;
    }
    assert(all.take(i as int) =~= all);
    let wei_per_eth = Ratio::from_u128(WEI_PER_ETH);
    let reward: u128 = match metadata.proposer_mev_reward {
        Some(wei) => wei,
        None => 0,
    };
    let builder_eth_profit = Ratio::from_u128(total_bribe).add(
        &Ratio::from_u128(pre_processing.cumulative_priority_fee),
    ).sub(&Ratio::from_u128(reward)).div(&wei_per_eth);
    let builder_profit_usd = builder_eth_profit.mul(&metadata.eth_prices);
    let proposer_mev_reward: Option<u128> = match metadata.proposer_mev_reward {
        Some(wei) => Some(wei / WEI_PER_ETH),
        None => None,
    };
    let proposer_profit_usd: Option<Ratio> = match metadata.proposer_mev_reward {
        Some(wei) => Some(Ratio::from_u128(wei).div(&wei_per_eth).mul(&metadata.eth_prices)),
        None => None,
    };
    let cumulative_mev_profit_usd = Ratio::from_u128(cum_mev_priority_fee_paid).add(
        &Ratio::from_u128(total_bribe),
    ).div(&wei_per_eth).mul(&metadata.eth_prices);
    MevBlock {
        block_hash: metadata.block_hash,
        block_number: metadata.block_num,
        mev_count: MevCount::default(),
        eth_price: metadata.eth_prices.clone(),
        cumulative_gas_used: pre_processing.cumulative_gas_used,
        cumulative_priority_fee: pre_processing.cumulative_priority_fee,
        total_bribe,
        cumulative_mev_priority_fee_paid: cum_mev_priority_fee_paid,
        builder_address: pre_processing.builder_address,
        builder_eth_profit,
        builder_profit_usd,
        proposer_fee_recipient: metadata.proposer_fee_recipient,
        proposer_mev_reward,
        proposer_profit_usd,
        cumulative_mev_profit_usd,
        possible_mev,
    }
}

} // verus!
