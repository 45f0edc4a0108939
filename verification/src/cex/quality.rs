//! The execution-quality filter: of each exchange's trades in the queue,
//! only the share nearest to the block is kept.

use crate::cex::basket::{total_amount, TimeBasket};
use crate::cex::exchange::{CexExchange, EXCHANGE_COUNT};
use crate::cex::trades::{CexTrades, TradeView};
use crate::rational::Ratio;
use vstd::arithmetic::div_mod::{lemma_fundamental_div_mod, lemma_hoist_over_denominator};
use vstd::prelude::*;

verus! {

/// How many trades of `trades` were made on `exchange`.
pub open spec fn exchange_count(trades: Seq<TradeView>, exchange: CexExchange) -> nat
    decreases trades.len(),
{
    if trades.len() == 0 {
        0
    } else {
        exchange_count(trades.drop_last(), exchange) + if trades.last().exchange == exchange {
            1nat
        } else {
            0nat
        }
    }
}

/// How many trades of `baskets` were made on `exchange`.
pub open spec fn queue_count(baskets: Seq<Seq<TradeView>>, exchange: CexExchange) -> nat
    decreases baskets.len(),
{
    if baskets.len() == 0 {
        0
    } else {
        queue_count(baskets.drop_last(), exchange) + exchange_count(baskets.last(), exchange)
    }
}

/// How many of `count` trades are kept at a quality of `percent`: that share
/// of them, rounded down, and all of them from 100 percent on.
pub open spec fn quota(count: nat, percent: usize) -> nat {
    if percent >= 100 {
        count
    } else {
        (count * percent / 100) as nat
    }
}

/// The trades of `basket` that are kept, where `earlier` holds the baskets
/// before it and `all` the whole queue: a trade is kept while fewer trades of
/// its exchange than the exchange's quota precede it in the queue.
pub open spec fn kept_trades(
    basket: Seq<TradeView>,
    earlier: Seq<Seq<TradeView>>,
    all: Seq<Seq<TradeView>>,
    percents: Seq<usize>,
) -> Seq<TradeView>
    decreases basket.len(),
{
    if basket.len() == 0 {
        Seq::empty()
    } else {
        let rest = kept_trades(basket.drop_last(), earlier, all, percents);
        let trade = basket.last();
        let rank = queue_count(earlier, trade.exchange) + exchange_count(
            basket.drop_last(),
            trade.exchange,
        );
        let allowed = quota(
            queue_count(all, trade.exchange),
            percents[trade.exchange.ordinal_spec()],
        );
        if rank < allowed {
            rest.push(trade)
        } else {
            rest
        }
    }
}

/// The first baskets of the queue `all`, each reduced to the trades kept.
pub open spec fn kept_baskets(
    baskets: Seq<Seq<TradeView>>,
    all: Seq<Seq<TradeView>>,
    percents: Seq<usize>,
) -> Seq<Seq<TradeView>>
    decreases baskets.len(),
{
    if baskets.len() == 0 {
        Seq::empty()
    } else {
        kept_baskets(baskets.drop_last(), all, percents).push(
            kept_trades(baskets.last(), baskets.drop_last(), all, percents),
        )
    }
}

/// The queue after the quality filter; without a table every trade is kept.
pub open spec fn quality_filtered(baskets: Seq<Seq<TradeView>>, percents: Option<Seq<usize>>) -> Seq<
    Seq<TradeView>,
> {
    match percents {
        Some(p) => kept_baskets(baskets, baskets, p),
        None => baskets,
    }
}

/// A share of `count` can be computed from its hundreds and its remainder.
pub proof fn lemma_share_by_parts(count: int, percent: int)
    requires
        0 <= count,
        0 <= percent <= 100,
    ensures
        count * percent / 100 == (count / 100) * percent + ((count % 100) * percent) / 100,
        0 <= (count / 100) * percent <= count,
        0 <= (count % 100) * percent <= 9900,
        count * percent / 100 <= count,
{
    let q = count / 100;
    let r = count % 100;
    lemma_fundamental_div_mod(count, 100);
    assert(count * percent == (r * percent) + (q * percent) * 100) by (nonlinear_arith)
        requires
            count == 100 * q + r,
    ;
    lemma_hoist_over_denominator(r * percent, q * percent, 100);
    assert(0 <= q * percent <= q * 100) by (nonlinear_arith)
        requires
            0 <= q,
            0 <= percent <= 100,
    ;
    assert(0 <= r * percent <= 9900) by (nonlinear_arith)
        requires
            0 <= r < 100,
            0 <= percent <= 100,
    ;
    assert(r * percent <= r * 100) by (nonlinear_arith)
        requires
            0 <= r,
            0 <= percent <= 100,
    ;
}

/// How many of `count` trades are kept at a quality of `percent`.
pub fn quota_of(count: u128, percent: usize) -> (q: u128)
    ensures
        q == quota(count as nat, percent),
        q <= count,
{
    if percent >= 100 {
        count
    } else {
        let p: u128 = percent as u128;
        proof {
            lemma_share_by_parts(count as int, p as int);
        }
        (count / 100) * p + ((count % 100) * p) / 100
    }
}

/// One zero for each exchange.
fn zero_counts() -> (counts: Vec<u128>)
    ensures
        counts.len() == EXCHANGE_COUNT,
        forall|o: int| 0 <= o < EXCHANGE_COUNT ==> counts[o] == 0,
{
    let mut counts: Vec<u128> = Vec::new();
    let mut o: usize = 0;
    while o < EXCHANGE_COUNT
        invariant
            o <= EXCHANGE_COUNT,
            counts.len() == o,
            forall|j: int| 0 <= j < o ==> counts[j] == 0,
        decreases EXCHANGE_COUNT - o,
    {
        counts.push(0);
        o = o + 1;
    }
    counts
}

/// For each exchange, by its ordinal, the number of its trades in the queue.
pub fn exchange_totals(baskets: &Vec<TimeBasket>) -> (totals: Vec<u128>)
    ensures
        totals.len() == EXCHANGE_COUNT,
        forall|e: CexExchange| totals[#[trigger] e.ordinal_spec()] == queue_count(baskets.deep_view(), e),
{
    let ghost all = baskets.deep_view();
    let mut totals = zero_counts();
    let mut k: usize = 0;
    while k < baskets.len()
        invariant
            k <= baskets.len(),
            all == baskets.deep_view(),
            totals.len() == EXCHANGE_COUNT,
            forall|e: CexExchange| totals[#[trigger] e.ordinal_spec()] == queue_count(all.take(k as int), e),
            forall|o: int| 0 <= o < EXCHANGE_COUNT ==> totals[o] <= k * 0x1_0000_0000_0000_0000,
        decreases baskets.len() - k,
    {
        let basket = &baskets[k];
        let ghost trades = basket.trades.deep_view();
        let mut i: usize = 0;
        while i < basket.trades.len()
            invariant
                i <= basket.trades.len(),
                k < baskets.len(),
                trades == basket.trades.deep_view(),
                totals.len() == EXCHANGE_COUNT,
                forall|e: CexExchange|
                    totals[#[trigger] e.ordinal_spec()] == queue_count(all.take(k as int), e)
                        + exchange_count(trades.take(i as int), e),
                forall|o: int|
                    0 <= o < EXCHANGE_COUNT ==> totals[o] <= k * 0x1_0000_0000_0000_0000 + i,
            decreases basket.trades.len() - i,
        {
            let o = basket.trades[i].exchange().ordinal();
            proof {
                assert(trades.take(i + 1).drop_last() =~= trades.take(i as int));
            }
            let bumped: u128 = totals[o] + 1;
            totals.set(o, bumped);
            i = i + 1;
        }
        proof {
            assert(trades.take(i as int) =~= trades);
            assert(all.take(k + 1).drop_last() =~= all.take(k as int));
        }
        k = k + 1;
    }
    assert(all.take(k as int) =~= all);
    totals
}

/// The queue reduced to the trades that the quality filter keeps, where
/// `percents` holds the quality of each exchange by its ordinal.
pub fn apply_quality(baskets: &Vec<TimeBasket>, percents: &Vec<usize>) -> (kept: Vec<TimeBasket>)
    requires
        percents.len() == EXCHANGE_COUNT,
    ensures
        forall|k: int| 0 <= k < kept.len() ==> (#[trigger] kept[k]).wf(),
        kept.deep_view() == kept_baskets(baskets.deep_view(), baskets.deep_view(), percents@),
{
    let ghost all = baskets.deep_view();
    let totals = exchange_totals(baskets);
    let mut seen = zero_counts();
    let mut kept: Vec<TimeBasket> = Vec::new();
    let mut k: usize = 0;
    while k < baskets.len()
        invariant
            k <= baskets.len(),
            all == baskets.deep_view(),
            percents.len() == EXCHANGE_COUNT,
            totals.len() == EXCHANGE_COUNT,
            seen.len() == EXCHANGE_COUNT,
            forall|e: CexExchange| totals[#[trigger] e.ordinal_spec()] == queue_count(all, e),
            forall|e: CexExchange| seen[#[trigger] e.ordinal_spec()] == queue_count(all.take(k as int), e),
            forall|o: int| 0 <= o < EXCHANGE_COUNT ==> seen[o] <= k * 0x1_0000_0000_0000_0000,
            forall|j: int| 0 <= j < kept.len() ==> (#[trigger] kept[j]).wf(),
            kept.deep_view() == kept_baskets(all.take(k as int), all, percents@),
        decreases baskets.len() - k,
    {
        let basket = &baskets[k];
        let ghost trades = basket.trades.deep_view();
        let ghost earlier = all.take(k as int);
        let mut chosen: Vec<CexTrades> = Vec::new();
        let mut volume = Ratio::zero();
        let mut i: usize = 0;
        while i < basket.trades.len()
            invariant
                i <= basket.trades.len(),
                k < baskets.len(),
                trades == basket.trades.deep_view(),
                percents.len() == EXCHANGE_COUNT,
                totals.len() == EXCHANGE_COUNT,
                seen.len() == EXCHANGE_COUNT,
                forall|e: CexExchange| totals[#[trigger] e.ordinal_spec()] == queue_count(all, e),
                forall|e: CexExchange|
                    seen[#[trigger] e.ordinal_spec()] == queue_count(earlier, e) + exchange_count(
                        trades.take(i as int),
                        e,
                    ),
                forall|o: int|
                    0 <= o < EXCHANGE_COUNT ==> seen[o] <= k * 0x1_0000_0000_0000_0000 + i,
                chosen.deep_view() == kept_trades(trades.take(i as int), earlier, all, percents@),
                volume@ == total_amount(chosen.deep_view()),
            decreases basket.trades.len() - i,
        {
            let trade = &basket.trades[i];
            let exchange = trade.exchange();
            let o = exchange.ordinal();
            proof {
                assert(trades.take(i + 1).drop_last() =~= trades.take(i as int));
            }
            let allowed = quota_of(totals[o], percents[o]);
            if seen[o] < allowed {
                let ghost before = chosen.deep_view();
                volume = volume.add(trade.amount());
                chosen.push(trade.clone());
                proof {
                    assert(chosen.deep_view().drop_last() =~= before);
                }
            }
            let bumped: u128 = seen[o] + 1;
            seen.set(o, bumped);
            i = i + 1;
        }
        let reduced = TimeBasket { trades: chosen, volume };
        kept.push(reduced);
        proof {
            assert(trades.take(i as int) =~= trades);
            assert(all.take(k + 1).drop_last() =~= earlier);
        }
        k = k + 1;
    }
    assert(all.take(k as int) =~= all);
    kept
}

} // verus!
