//! DEX quotes laid out row by row, as they are exported.

use crate::pair::Pair;
use crate::primitives::Address;
use crate::rational::Ratio;
use vstd::prelude::*;

verus! {

/// The price of a pair before and after a transaction.
pub struct DexPrices {
    pub pre_state: Ratio,
    pub post_state: Ratio,
    pub pool_liquidity: Ratio,
    /// The pair that the price was routed through.
    pub goes_through: Pair,
    pub is_transfer: bool,
    /// How many routes were considered.
    pub first_hop_connections: usize,
}

/// What a [`DexPrices`] denotes.
pub struct DexPricesView {
    pub pre_state: real,
    pub post_state: real,
    pub pool_liquidity: real,
    pub goes_through: Pair,
    pub is_transfer: bool,
    pub first_hop_connections: usize,
}

impl DeepView for DexPrices {
    type V = DexPricesView;

    open spec fn deep_view(&self) -> DexPricesView {
        DexPricesView {
            pre_state: self.pre_state@,
            post_state: self.post_state@,
            pool_liquidity: self.pool_liquidity@,
            goes_through: self.goes_through,
            is_transfer: self.is_transfer,
            first_hop_connections: self.first_hop_connections,
        }
    }
}

/// The price of one pair.
pub struct PairPrices {
    pub pair: Pair,
    pub prices: DexPrices,
}

/// What a [`PairPrices`] denotes.
pub struct PairPricesView {
    pub pair: Pair,
    pub prices: DexPricesView,
}

impl DeepView for PairPrices {
    type V = PairPricesView;

    open spec fn deep_view(&self) -> PairPricesView {
        PairPricesView { pair: self.pair, prices: self.prices.deep_view() }
    }
}

/// The prices at one transaction of a block.
pub struct DexQuoteWithIndex {
    pub tx_idx: u16,
    pub quote: Vec<PairPrices>,
}

/// What a [`DexQuoteWithIndex`] denotes.
pub struct DexQuoteView {
    pub tx_idx: u16,
    pub quote: Seq<PairPricesView>,
}

impl DeepView for DexQuoteWithIndex {
    type V = DexQuoteView;

    open spec fn deep_view(&self) -> DexQuoteView {
        DexQuoteView { tx_idx: self.tx_idx, quote: self.quote.deep_view() }
    }
}

/// The prices at one transaction, with the number of its block.
pub struct BlockQuote {
    pub block_number: u64,
    pub quote: DexQuoteWithIndex,
}

/// What a [`BlockQuote`] denotes.
pub struct BlockQuoteView {
    pub block_number: u64,
    pub quote: DexQuoteView,
}

impl DeepView for BlockQuote {
    type V = BlockQuoteView;

    open spec fn deep_view(&self) -> BlockQuoteView {
        BlockQuoteView { block_number: self.block_number, quote: self.quote.deep_view() }
    }
}

/// One row of the export: the price of one pair at one transaction.
pub struct DexQuoteRow {
    pub block_number: u64,
    pub tx_idx: u16,
    pub pair_token0_address: Address,
    pub pair_token1_address: Address,
    pub pre_state_price: Ratio,
    pub post_state_price: Ratio,
    pub pool_liquidity: Ratio,
    pub goes_through_token0_address: Address,
    pub goes_through_token1_address: Address,
    pub is_transfer: bool,
    pub first_hop_connections: u64,
}

/// What a [`DexQuoteRow`] denotes.
pub struct DexQuoteRowView {
    pub block_number: u64,
    pub tx_idx: u16,
    pub pair_token0_address: Address,
    pub pair_token1_address: Address,
    pub pre_state_price: real,
    pub post_state_price: real,
    pub pool_liquidity: real,
    pub goes_through_token0_address: Address,
    pub goes_through_token1_address: Address,
    pub is_transfer: bool,
    pub first_hop_connections: u64,
}

impl DeepView for DexQuoteRow {
    type V = DexQuoteRowView;

    open spec fn deep_view(&self) -> DexQuoteRowView {
        DexQuoteRowView {
            block_number: self.block_number,
            tx_idx: self.tx_idx,
            pair_token0_address: self.pair_token0_address,
            pair_token1_address: self.pair_token1_address,
            pre_state_price: self.pre_state_price@,
            post_state_price: self.post_state_price@,
            pool_liquidity: self.pool_liquidity@,
            goes_through_token0_address: self.goes_through_token0_address,
            goes_through_token1_address: self.goes_through_token1_address,
            is_transfer: self.is_transfer,
            first_hop_connections: self.first_hop_connections,
        }
    }
}

/// The row of one pair's price at a transaction of a block.
pub open spec fn row_of(block_number: u64, tx_idx: u16, entry: PairPricesView) -> DexQuoteRowView {
    DexQuoteRowView {
        block_number,
        tx_idx,
        pair_token0_address: entry.pair.0,
        pair_token1_address: entry.pair.1,
        pre_state_price: entry.prices.pre_state,
        post_state_price: entry.prices.post_state,
        pool_liquidity: entry.prices.pool_liquidity,
        goes_through_token0_address: entry.prices.goes_through.0,
        goes_through_token1_address: entry.prices.goes_through.1,
        is_transfer: entry.prices.is_transfer,
        first_hop_connections: entry.prices.first_hop_connections as u64,
    }
}

/// The rows of the first prices at one transaction, in order.
pub open spec fn rows_of_quote(block_number: u64, tx_idx: u16, entries: Seq<PairPricesView>) -> Seq<
    DexQuoteRowView,
>
    decreases entries.len(),
{
    if entries.len() == 0 {
        Seq::empty()
    } else {
        rows_of_quote(block_number, tx_idx, entries.drop_last()).push(
            row_of(block_number, tx_idx, entries.last()),
        )
    }
}

/// The rows of all quotes: those of the first quote, then those of the
/// second, and so on.
pub open spec fn rows_of(quotes: Seq<BlockQuoteView>) -> Seq<DexQuoteRowView>
    decreases quotes.len(),
{
    if quotes.len() == 0 {
        Seq::empty()
    } else {
        rows_of(quotes.drop_last()) + rows_of_quote(
            quotes.last().block_number,
            quotes.last().quote.tx_idx,
            quotes.last().quote.quote,
        )
    }
}

/// Lays the quotes of some blocks out row by row, one row for each pair at
/// each transaction, in the order in which they were given.
pub fn dex_quotes_to_rows(block_quotes: &Vec<BlockQuote>) -> (rows: Vec<DexQuoteRow>)
    ensures
        rows.deep_view() == rows_of(block_quotes.deep_view()),
{
    let ghost all = block_quotes.deep_view();
    let mut rows: Vec<DexQuoteRow> = Vec::new();
    let mut k: usize = 0;
    while k < block_quotes.len()
        invariant
            k <= block_quotes.len(),
            all == block_quotes.deep_view(),
            rows.deep_view() == rows_of(all.take(k as int)),
        decreases block_quotes.len() - k,
    {
        let block_number = block_quotes[k].block_number;
        let tx_idx = block_quotes[k].quote.tx_idx;
        let entries = &block_quotes[k].quote.quote;
        let ghost views = entries.deep_view();
        let ghost before = rows.deep_view();
        let mut i: usize = 0;
        while i < entries.len()
            invariant
                i <= entries.len(),
                views == entries.deep_view(),
                rows.deep_view() == before + rows_of_quote(
                    block_number,
                    tx_idx,
                    views.take(i as int),
                ),
            decreases entries.len() - i,
        {
            let entry = &entries[i];
            let ghost so_far = rows.deep_view();
            let row = DexQuoteRow {
                block_number,
                tx_idx,
                pair_token0_address: entry.pair.0,
                pair_token1_address: entry.pair.1,
                pre_state_price: entry.prices.pre_state.clone(),
                post_state_price: entry.prices.post_state.clone(),
                pool_liquidity: entry.prices.pool_liquidity.clone(),
                goes_through_token0_address: entry.prices.goes_through.0,
                goes_through_token1_address: entry.prices.goes_through.1,
                is_transfer: entry.prices.is_transfer,
                first_hop_connections: entry.prices.first_hop_connections as u64,
            };
            rows.push(row);
            proof {
                assert(views.take(i + 1).drop_last() =~= views.take(i as int));
                assert(rows.deep_view() =~= so_far.push(row.deep_view()));
                assert(rows.deep_view() =~= before + rows_of_quote(
                    block_number,
                    tx_idx,
                    views.take(i + 1),
                ));
            }
            i = i + 1;
        }
        proof {
            assert(views.take(i as int) =~= views);
            assert(all.take(k + 1).drop_last() =~= all.take(k as int));
        }
        k = k + 1;
    }
    assert(all.take(k as int) =~= all);
    rows
}

} // verus!
