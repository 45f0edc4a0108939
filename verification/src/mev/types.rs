//! Bundles, as the inspectors emit them, and the block-level result.

use crate::primitives::{Address, B256};
use crate::rational::Ratio;
use crate::util::{union, union_of};
use vstd::prelude::*;

verus! {

/// The kind of an MEV bundle.
#[derive(Clone, Copy, Debug, PartialEq, Eq, Hash, Structural)]
pub enum MevType {
    Sandwich,
    Backrun,
    JitSandwich,
    Jit,
    CexDex,
    Liquidation,
    Unknown,
}

/// What every kind of bundle records: the transactions it spans, the bribe
/// and the priority fee that they paid, in wei.
pub struct MevDetails {
    pub tx_hashes: Vec<B256>,
    pub bribe: u128,
    pub priority_fee_paid: u128,
}

/// Just-in-time liquidity: a mint before and a burn after the victims.
pub struct JitLiquidity {
    pub details: MevDetails,
    pub mint_trace_index: u64,
    pub burn_trace_index: u64,
}

/// A sandwich whose attacker also provided just-in-time liquidity.
pub struct JitLiquiditySandwich {
    pub sandwich: MevDetails,
    pub jit: JitLiquidity,
}

/// The typed data of a bundle.
pub enum BundleData {
    Sandwich(MevDetails),
    Backrun(MevDetails),
    JitSandwich(JitLiquiditySandwich),
    Jit(JitLiquidity),
    CexDex(MevDetails),
    Liquidation(MevDetails),
    Unknown(MevDetails),
}

/// The transactions that a bundle spans; for a composed bundle those of
/// both parts, each once.
pub open spec fn hashes_of(data: BundleData) -> Seq<B256> {
    match data {
        BundleData::Sandwich(d) => d.tx_hashes@,
        BundleData::Backrun(d) => d.tx_hashes@,
        BundleData::JitSandwich(d) => union_of(d.sandwich.tx_hashes@, d.jit.details.tx_hashes@),
        BundleData::Jit(d) => d.details.tx_hashes@,
        BundleData::CexDex(d) => d.tx_hashes@,
        BundleData::Liquidation(d) => d.tx_hashes@,
        BundleData::Unknown(d) => d.tx_hashes@,
    }
}

/// The bribe that a bundle paid; for a composed bundle that of both parts.
pub open spec fn bribe_of(data: BundleData) -> int {
    match data {
        BundleData::Sandwich(d) => d.bribe as int,
        BundleData::Backrun(d) => d.bribe as int,
        BundleData::JitSandwich(d) => d.sandwich.bribe + d.jit.details.bribe,
        BundleData::Jit(d) => d.details.bribe as int,
        BundleData::CexDex(d) => d.bribe as int,
        BundleData::Liquidation(d) => d.bribe as int,
        BundleData::Unknown(d) => d.bribe as int,
    }
}

/// The priority fee that a bundle paid; for a composed bundle that of both
/// parts.
pub open spec fn priority_fee_of(data: BundleData) -> int {
    match data {
        BundleData::Sandwich(d) => d.priority_fee_paid as int,
        BundleData::Backrun(d) => d.priority_fee_paid as int,
        BundleData::JitSandwich(d) => d.sandwich.priority_fee_paid + d.jit.details.priority_fee_paid,
        BundleData::Jit(d) => d.details.priority_fee_paid as int,
        BundleData::CexDex(d) => d.priority_fee_paid as int,
        BundleData::Liquidation(d) => d.priority_fee_paid as int,
        BundleData::Unknown(d) => d.priority_fee_paid as int,
    }
}

impl BundleData {
    /// The transactions that the bundle spans.
    pub fn mev_transaction_hashes(&self) -> (hashes: Vec<B256>)
        ensures
            hashes@ == hashes_of(*self),
    {
        match self {
            BundleData::Sandwich(d) => d.tx_hashes.clone(),
            BundleData::Backrun(d) => d.tx_hashes.clone(),
            BundleData::JitSandwich(d) => union(&d.sandwich.tx_hashes, &d.jit.details.tx_hashes),
            BundleData::Jit(d) => d.details.tx_hashes.clone(),
            BundleData::CexDex(d) => d.tx_hashes.clone(),
            BundleData::Liquidation(d) => d.tx_hashes.clone(),
            BundleData::Unknown(d) => d.tx_hashes.clone(),
        }
    }

    /// The bribe that the bundle paid, in wei.
    pub fn bribe(&self) -> (wei: u128)
        requires
            bribe_of(*self) <= u128::MAX,
        ensures
            wei == bribe_of(*self),
    {
        match self {
            BundleData::Sandwich(d) => d.bribe,
            BundleData::Backrun(d) => d.bribe,
            BundleData::JitSandwich(d) => d.sandwich.bribe + d.jit.details.bribe,
            BundleData::Jit(d) => d.details.bribe,
            BundleData::CexDex(d) => d.bribe,
            BundleData::Liquidation(d) => d.bribe,
            BundleData::Unknown(d) => d.bribe,
        }
    }

    /// The priority fee that the bundle paid, in wei.
    pub fn priority_fee_paid(&self) -> (wei: u128)
        requires
            priority_fee_of(*self) <= u128::MAX,
        ensures
            wei == priority_fee_of(*self),
    {
        match self {
            BundleData::Sandwich(d) => d.priority_fee_paid,
            BundleData::Backrun(d) => d.priority_fee_paid,
            BundleData::JitSandwich(d) => d.sandwich.priority_fee_paid
                + d.jit.details.priority_fee_paid,
            BundleData::Jit(d) => d.details.priority_fee_paid,
            BundleData::CexDex(d) => d.priority_fee_paid,
            BundleData::Liquidation(d) => d.priority_fee_paid,
            BundleData::Unknown(d) => d.priority_fee_paid,
        }
    }
}

/// What all bundles have in common. The profit and the bribe in USD are
/// exact; they are rounded only where a block is exported.
pub struct BundleHeader {
    pub block_number: u64,
    pub tx_hash: B256,
    pub mev_type: MevType,
    pub profit_usd: Ratio,
    pub bribe_usd: Ratio,
}

/// What a [`BundleHeader`] denotes.
pub struct HeaderView {
    pub block_number: u64,
    pub tx_hash: B256,
    pub mev_type: MevType,
    pub profit_usd: real,
    pub bribe_usd: real,
}

impl DeepView for BundleHeader {
    type V = HeaderView;

    open spec fn deep_view(&self) -> HeaderView {
        HeaderView {
            block_number: self.block_number,
            tx_hash: self.tx_hash,
            mev_type: self.mev_type,
            profit_usd: self.profit_usd@,
            bribe_usd: self.bribe_usd@,
        }
    }
}

/// One MEV event: a set of transactions that an inspector grouped.
pub struct Bundle {
    pub header: BundleHeader,
    pub data: BundleData,
}

/// What a [`Bundle`] denotes.
pub struct BundleView {
    pub header: HeaderView,
    pub data: BundleData,
}

impl DeepView for Bundle {
    type V = BundleView;

    open spec fn deep_view(&self) -> BundleView {
        BundleView { header: self.header.deep_view(), data: self.data }
    }
}

/// How many bundles of each kind a block holds; a kind without bundles has
/// no count.
#[derive(Clone, Copy, Debug, PartialEq, Eq, Structural)]
pub struct MevCount {
    pub mev_count: u64,
    pub sandwich_count: Option<u64>,
    pub cex_dex_count: Option<u64>,
    pub jit_count: Option<u64>,
    pub jit_sandwich_count: Option<u64>,
    pub atomic_backrun_count: Option<u64>,
    pub liquidation_count: Option<u64>,
}

impl MevCount {
    /// No bundle of any kind.
    pub open spec fn empty() -> MevCount {
        MevCount {
            mev_count: 0,
            sandwich_count: None,
            cex_dex_count: None,
            jit_count: None,
            jit_sandwich_count: None,
            atomic_backrun_count: None,
            liquidation_count: None,
        }
    }
}

impl Default for MevCount {
    fn default() -> (count: MevCount)
        ensures
            count == MevCount::empty(),
    {
        MevCount {
            mev_count: 0,
            sandwich_count: None,
            cex_dex_count: None,
            jit_count: None,
            jit_sandwich_count: None,
            atomic_backrun_count: None,
            liquidation_count: None,
        }
    }
}

/// A transaction that may hold MEV that no inspector classified.
#[derive(Clone, Copy, Debug, PartialEq, Eq, Structural)]
pub struct PossibleMev {
    pub tx_hash: B256,
    pub tx_idx: u64,
}

/// The transactions of a block that may hold unclassified MEV.
pub struct PossibleMevCollection(pub Vec<PossibleMev>);

/// What is known of a block besides its traces.
pub struct MetadataCombined {
    pub block_num: u64,
    pub block_hash: B256,
    pub block_timestamp: u64,
    pub relay_timestamp: Option<u64>,
    pub p2p_timestamp: Option<u64>,
    pub proposer_fee_recipient: Option<Address>,
    pub proposer_mev_reward: Option<u128>,
    pub eth_prices: Ratio,
}

/// The result for one block. Amounts in wei are integers; amounts in ether
/// and in USD are exact.
pub struct MevBlock {
    pub block_hash: B256,
    pub block_number: u64,
    pub mev_count: MevCount,
    pub eth_price: Ratio,
    pub cumulative_gas_used: u128,
    pub cumulative_priority_fee: u128,
    pub total_bribe: u128,
    pub cumulative_mev_priority_fee_paid: u128,
    pub builder_address: Address,
    pub builder_eth_profit: Ratio,
    pub builder_profit_usd: Ratio,
    pub proposer_fee_recipient: Option<Address>,
    pub proposer_mev_reward: Option<u128>,
    pub proposer_profit_usd: Option<Ratio>,
    pub cumulative_mev_profit_usd: Ratio,
    pub possible_mev: PossibleMevCollection,
}

} // verus!
