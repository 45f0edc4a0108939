//! The optimistic price of a pair at a block: the volume-weighted average
//! price of the trades that an arbitrageur could have taken around the
//! block, directly or through one intermediary token.

use crate::cex::basket::{
    empty_queue, expanded_queue, seeded_queue, total_amount, total_volume, QueueView, TimeBasket,
    TimeBasketQueue, PRE_SCALING_DIFF, TIME_STEP,
};
use crate::cex::exchange::{
    fees_of, percents_of, CexExchange, ExchangeFeesView, FeeSchedule, QualityEntry, QualityTable,
    EXCHANGE_COUNT,
};
use crate::cex::fill::{fill_baskets, filled};
use crate::cex::quality::{apply_quality, quality_filtered};
use crate::cex::trades::{
    all_valid, position_of, trade_stream, valid_trade, CexTrades, OptimisticTradeData,
    PairTradesView, SortedTrades, TradeDataView, TradeView,
};
use crate::pair::Pair;
use crate::primitives::{dai, dai_address, usdc, usdc_address, usdt, usdt_address, weth, weth_address, Address};
use crate::rational::Ratio;
use vstd::prelude::*;

verus! {

/// The time bounds, in microseconds around the block time, within which
/// trades and quotes are considered.
#[derive(Clone, Copy, Debug, PartialEq, Eq, Structural)]
pub struct CexDexTradeConfig {
    pub time_window_after_us: u64,
    pub time_window_before_us: u64,
    pub optimistic_before_us: u64,
    pub optimistic_after_us: u64,
    pub quotes_fetch_time: u64,
}

/// Why no price could be given.
#[derive(Clone, Copy, Debug, PartialEq, Eq, Structural)]
pub enum PriceError {
    /// The block has no trade stream for the pair in either direction.
    MissingTradeData,
    /// The trades within reach hold less than the volume asked for.
    InsufficientVolume,
    /// The trades chosen carry no volume.
    NoVolume,
}

/// A trade that was used for a price.
pub struct OptimisticTrade {
    pub volume: Ratio,
    pub pair: Pair,
    pub price: Ratio,
    pub exchange: CexExchange,
    pub timestamp: u64,
}

/// What an [`OptimisticTrade`] denotes.
pub struct OptimisticTradeView {
    pub volume: real,
    pub pair: Pair,
    pub price: real,
    pub exchange: CexExchange,
    pub timestamp: u64,
}

impl DeepView for OptimisticTrade {
    type V = OptimisticTradeView;

    open spec fn deep_view(&self) -> OptimisticTradeView {
        OptimisticTradeView {
            volume: self.volume@,
            pair: self.pair,
            price: self.price@,
            exchange: self.exchange,
            timestamp: self.timestamp,
        }
    }
}

/// A price with the trades and the pairs that it was computed from: one
/// pair for a direct price, two for a price through an intermediary.
pub struct ExchangePrice {
    pub trades_used: Vec<OptimisticTrade>,
    pub pairs: Vec<Pair>,
    pub final_price: Ratio,
}

/// What an [`ExchangePrice`] denotes.
pub struct PriceView {
    pub trades_used: Seq<OptimisticTradeView>,
    pub pairs: Seq<Pair>,
    pub final_price: real,
}

impl DeepView for ExchangePrice {
    type V = PriceView;

    open spec fn deep_view(&self) -> PriceView {
        PriceView {
            trades_used: self.trades_used.deep_view(),
            pairs: self.pairs@,
            final_price: self.final_price@,
        }
    }
}

/// The maker price and the taker price.
pub type MakerTaker = (ExchangePrice, ExchangePrice);

/// What a pricing result denotes.
pub open spec fn price_view(result: Result<MakerTaker, PriceError>) -> Result<
    (PriceView, PriceView),
    PriceError,
> {
    match result {
        Ok(prices) => Ok((prices.0.deep_view(), prices.1.deep_view())),
        Err(e) => Err(e),
    }
}

/// What an optional pair of prices denotes.
pub open spec fn route_view(route: Option<MakerTaker>) -> Option<(PriceView, PriceView)> {
    match route {
        Some(prices) => Some((prices.0.deep_view(), prices.1.deep_view())),
        None => None,
    }
}

/// What an optional list of percentages denotes.
pub open spec fn percents_view(percents: Option<Vec<usize>>) -> Option<Seq<usize>> {
    match percents {
        Some(p) => Some(p@),
        None => None,
    }
}

/// What an optional quality table denotes.
pub open spec fn quality_view(quality: Option<&QualityTable>) -> Option<Seq<QualityEntry>> {
    match quality {
        Some(table) => Some(table.entries@),
        None => None,
    }
}

/// The price of two legs traded one after the other.
pub open spec fn combined(first: PriceView, second: PriceView) -> PriceView {
    PriceView {
        trades_used: first.trades_used + second.trades_used,
        pairs: first.pairs + second.pairs,
        final_price: first.final_price * second.final_price,
    }
}

/// The price of a token in itself.
pub open spec fn unit_price(pair: Pair) -> PriceView {
    PriceView { trades_used: Seq::empty(), pairs: seq![pair], final_price: 1real }
}

impl ExchangePrice {
    /// The price of two legs traded one after the other: the prices are
    /// multiplied, the pairs and the trades follow each other.
    pub fn mul(self, rhs: ExchangePrice) -> (out: ExchangePrice)
        ensures
            out.deep_view() == combined(self.deep_view(), rhs.deep_view()),
    {
        let mut left = self;
        let mut right = rhs;
        let ghost trades = left.trades_used.deep_view();
        let ghost more = right.trades_used.deep_view();
        left.pairs.append(&mut right.pairs);
        let final_price = left.final_price.mul(&right.final_price);
        left.trades_used.append(&mut right.trades_used);
        assert(left.trades_used.deep_view() =~= trades + more);
        ExchangePrice { trades_used: left.trades_used, pairs: left.pairs, final_price }
    }

    /// The price of a token in itself.
    pub fn unit(pair: Pair) -> (out: ExchangePrice)
        ensures
            out.deep_view() == unit_price(pair),
    {
        let mut pairs: Vec<Pair> = Vec::new();
        pairs.push(pair);
        let out = ExchangePrice { trades_used: Vec::new(), pairs, final_price: Ratio::one() };
        assert(out.trades_used.deep_view() =~= Seq::<OptimisticTradeView>::empty());
        out
    }
}

/// How far the window may still be widened after the block.
pub open spec fn remaining_reach(post: u64, after_us: u64) -> nat {
    if post < after_us {
        (after_us - post) as nat
    } else {
        0
    }
}

/// The queue once it holds `volume` or one of its sides has reached its
/// bound. Until then each expansion widens the window by [`TIME_STEP`]
/// after the block, and before the block as well once the window reaches
/// further than [`PRE_SCALING_DIFF`] after it.
pub open spec fn grown_queue(queue: QueueView, volume: real, before_us: u64, after_us: u64) -> QueueView
    decreases remaining_reach(queue.window.post, after_us),
{
    if queue.volume >= volume || queue.window.pre >= before_us || queue.window.post >= after_us {
        queue
    } else {
        let pre_step = if queue.window.post > PRE_SCALING_DIFF {
            TIME_STEP
        } else {
            0u64
        };
        grown_queue(expanded_queue(queue, pre_step, TIME_STEP), volume, before_us, after_us)
    }
}

/// The trades chosen from a stream to fill `volume` at `block_time`: the
/// queue is grown, reduced by the quality filter, and asked basket by basket.
pub open spec fn selected_trades(
    data: TradeDataView,
    config: CexDexTradeConfig,
    block_time: u64,
    volume: real,
    percents: Option<Seq<usize>>,
) -> Seq<TradeView> {
    let queue = grown_queue(
        seeded_queue(empty_queue(data.trades, data.direction, block_time)),
        volume,
        config.optimistic_before_us,
        config.optimistic_after_us,
    );
    let kept = quality_filtered(queue.baskets, percents);
    let total = total_volume(kept);
    if total == 0real {
        Seq::empty()
    } else {
        filled(kept, total, volume, data.direction).0
    }
}

/// The value of the trades to a maker: the sum of price, less the maker
/// fee of the trade's exchange, times amount times weight.
pub open spec fn maker_value(trades: Seq<TradeView>, fees: Seq<ExchangeFeesView>) -> real
    decreases trades.len(),
{
    if trades.len() == 0 {
        0real
    } else {
        let t = trades.last();
        maker_value(trades.drop_last(), fees) + ((t.price * (1real - fees_of(fees, t.exchange).0))
            * t.amount) * t.weight
    }
}

/// The value of the trades to a taker: the sum of price, less the taker
/// fee of the trade's exchange, times amount times weight.
pub open spec fn taker_value(trades: Seq<TradeView>, fees: Seq<ExchangeFeesView>) -> real
    decreases trades.len(),
{
    if trades.len() == 0 {
        0real
    } else {
        let t = trades.last();
        taker_value(trades.drop_last(), fees) + ((t.price * (1real - fees_of(fees, t.exchange).1))
            * t.amount) * t.weight
    }
}

/// The sum of amount times weight over the trades.
pub open spec fn weighted_volume(trades: Seq<TradeView>) -> real
    decreases trades.len(),
{
    if trades.len() == 0 {
        0real
    } else {
        weighted_volume(trades.drop_last()) + trades.last().amount * trades.last().weight
    }
}

/// A trade as it is reported with a price for `pair`.
pub open spec fn reported(trade: TradeView, pair: Pair) -> OptimisticTradeView {
    OptimisticTradeView {
        volume: trade.amount,
        pair,
        price: trade.price,
        exchange: trade.exchange,
        timestamp: trade.timestamp,
    }
}

/// The weighted volume of trades is never below zero, and is zero only
/// where the trades carry no volume.
pub proof fn lemma_weighted_volume(trades: Seq<TradeView>)
    requires
        all_valid(trades),
    ensures
        total_amount(trades) >= 0real,
        weighted_volume(trades) >= 0real,
        weighted_volume(trades) == 0real <==> total_amount(trades) == 0real,
    decreases trades.len(),
{
    if trades.len() > 0 {
        let init = trades.drop_last();
        let t = trades.last();
        assert(valid_trade(trades[trades.len() - 1]));
        assert forall|i: int| 0 <= i < init.len() implies valid_trade(#[trigger] init[i]) by {
            assert(init[i] == trades[i]);
        }
        lemma_weighted_volume(init);
        let a = t.amount;
        let w = t.weight;
        assert(a * w >= 0real && (a * w == 0real <==> a == 0real)) by (nonlinear_arith)
            requires
                a >= 0real,
                w > 0real,
        ;
    }
}

/// The maker and taker price of `pair` from the trades chosen: their value
/// over their weighted volume. No price is given where the trades hold less
/// than `volume`, unless `bypass_vol` waives that, nor where they carry no
/// volume.
pub open spec fn priced(
    trades: Seq<TradeView>,
    fees: Seq<ExchangeFeesView>,
    pair: Pair,
    volume: real,
    bypass_vol: bool,
) -> Result<(PriceView, PriceView), PriceError> {
    let amount = total_amount(trades);
    let weight = weighted_volume(trades);
    let used = trades.map_values(|t: TradeView| reported(t, pair));
    if amount < volume && !bypass_vol {
        Err(PriceError::InsufficientVolume)
    } else if amount == 0real {
        Err(PriceError::NoVolume)
    } else {
        Ok(
            (
                PriceView {
                    trades_used: used,
                    pairs: seq![pair],
                    final_price: maker_value(trades, fees) / weight,
                },
                PriceView {
                    trades_used: used,
                    pairs: seq![pair],
                    final_price: taker_value(trades, fees) / weight,
                },
            ),
        )
    }
}

/// The price of `pair` from its own stream, or from that of the flipped
/// pair.
pub open spec fn direct_price(
    entries: Seq<PairTradesView>,
    config: CexDexTradeConfig,
    fees: Seq<ExchangeFeesView>,
    block_time: u64,
    pair: Pair,
    volume: real,
    bypass_vol: bool,
    quality: Option<Seq<QualityEntry>>,
) -> Result<(PriceView, PriceView), PriceError> {
    match trade_stream(entries, pair) {
        None => Err(PriceError::MissingTradeData),
        Some(data) => {
            let percents = match quality {
                Some(table) => Some(percents_of(table, pair)),
                None => None,
            };
            priced(
                selected_trades(data, config, block_time, volume, percents),
                fees,
                pair,
                volume,
                bypass_vol,
            )
        },
    }
}

/// Whether the pair is USDC against USDT, in either direction.
pub open spec fn is_stable_pair(pair: Pair) -> bool {
    (pair.0 == usdc() && pair.1 == usdt()) || (pair.0 == usdt() && pair.1 == usdc())
}

/// The token that `pair` holds besides `token`, if it holds `token`.
pub open spec fn counterpart(pair: Pair, token: Address) -> Option<Address> {
    if pair.0 == token {
        Some(pair.1)
    } else if pair.1 == token {
        Some(pair.0)
    } else {
        None
    }
}

/// Whether the block has a stream between the two tokens, in either
/// direction.
pub open spec fn connects(entries: Seq<PairTradesView>, a: Address, b: Address) -> bool {
    position_of(entries, Pair(a, b)) is Some || position_of(entries, Pair(b, a)) is Some
}

/// The tokens that the first streams pair with the first token of `pair`
/// and that a stream of `all` pairs with its second token, in stream order.
pub open spec fn shared_tokens(
    entries: Seq<PairTradesView>,
    all: Seq<PairTradesView>,
    pair: Pair,
) -> Seq<Address>
    decreases entries.len(),
{
    if entries.len() == 0 {
        Seq::empty()
    } else {
        let rest = shared_tokens(entries.drop_last(), all, pair);
        match counterpart(entries.last().pair, pair.0) {
            Some(token) => if connects(all, token, pair.1) {
                rest.push(token)
            } else {
                rest
            },
            None => rest,
        }
    }
}

/// The tokens through which `pair` may be priced: WETH, USDC, USDT and DAI,
/// then every token that the block's streams pair with both of its sides.
pub open spec fn intermediaries(entries: Seq<PairTradesView>, pair: Pair) -> Seq<Address> {
    seq![weth(), usdc(), usdt(), dai()] + shared_tokens(entries, entries, pair)
}

/// The price of `pair` through `intermediary`: the first leg at `volume`,
/// the second at what the first leg yields at its maker price. A leg
/// between USDC and USDT is never refused for want of volume.
pub open spec fn route_price(
    entries: Seq<PairTradesView>,
    config: CexDexTradeConfig,
    fees: Seq<ExchangeFeesView>,
    block_time: u64,
    pair: Pair,
    volume: real,
    bypass_vol: bool,
    quality: Option<Seq<QualityEntry>>,
    intermediary: Address,
) -> Option<(PriceView, PriceView)> {
    let pair0 = Pair(pair.0, intermediary);
    let pair1 = Pair(intermediary, pair.1);
    match direct_price(
        entries,
        config,
        fees,
        block_time,
        pair0,
        volume,
        bypass_vol || is_stable_pair(pair0),
        quality,
    ) {
        Err(_) => None,
        Ok(first) => match direct_price(
            entries,
            config,
            fees,
            block_time,
            pair1,
            volume * first.0.final_price,
            bypass_vol || is_stable_pair(pair1),
            quality,
        ) {
            Err(_) => None,
            Ok(second) => Some((combined(first.0, second.0), combined(first.1, second.1))),
        },
    }
}

/// The route with the highest maker price among those through
/// `candidates`; of several such, the last.
pub open spec fn best_route(
    entries: Seq<PairTradesView>,
    config: CexDexTradeConfig,
    fees: Seq<ExchangeFeesView>,
    block_time: u64,
    pair: Pair,
    volume: real,
    bypass_vol: bool,
    quality: Option<Seq<QualityEntry>>,
    candidates: Seq<Address>,
) -> Option<(PriceView, PriceView)>
    decreases candidates.len(),
{
    if candidates.len() == 0 {
        None
    } else {
        let best = best_route(
            entries,
            config,
            fees,
            block_time,
            pair,
            volume,
            bypass_vol,
            quality,
            candidates.drop_last(),
        );
        match route_price(
            entries,
            config,
            fees,
            block_time,
            pair,
            volume,
            bypass_vol,
            quality,
            candidates.last(),
        ) {
            None => best,
            Some(route) => match best {
                None => Some(route),
                Some(held) => if route.0.final_price >= held.0.final_price {
                    Some(route)
                } else {
                    Some(held)
                },
            },
        }
    }
}

/// The price of `pair` through the best intermediary.
pub open spec fn intermediary_price(
    entries: Seq<PairTradesView>,
    config: CexDexTradeConfig,
    fees: Seq<ExchangeFeesView>,
    block_time: u64,
    pair: Pair,
    volume: real,
    bypass_vol: bool,
    quality: Option<Seq<QualityEntry>>,
) -> Option<(PriceView, PriceView)> {
    best_route(
        entries,
        config,
        fees,
        block_time,
        pair,
        volume,
        bypass_vol,
        quality,
        intermediaries(entries, pair),
    )
}

/// The maker and taker price of `pair` for `volume` at `block_time`: one
/// for a token against itself, else the direct price, else the price
/// through the best intermediary, else the reason why the direct price
/// failed.
pub open spec fn optimistic_price(
    entries: Seq<PairTradesView>,
    config: CexDexTradeConfig,
    fees: Seq<ExchangeFeesView>,
    block_time: u64,
    pair: Pair,
    volume: real,
    quality: Option<Seq<QualityEntry>>,
    bypass_vol: bool,
) -> Result<(PriceView, PriceView), PriceError> {
    if pair.0 == pair.1 {
        Ok((unit_price(pair), unit_price(pair)))
    } else {
        match direct_price(entries, config, fees, block_time, pair, volume, bypass_vol, quality) {
            Ok(prices) => Ok(prices),
            Err(e) => match intermediary_price(
                entries,
                config,
                fees,
                block_time,
                pair,
                volume,
                bypass_vol,
                quality,
            ) {
                Some(route) => Ok(route),
                None => Err(e),
            },
        }
    }
}

/// The sum of the volumes of the baskets.
pub fn sum_volumes(baskets: &Vec<TimeBasket>) -> (total: Ratio)
    requires
        forall|k: int| 0 <= k < baskets.len() ==> (#[trigger] baskets[k]).wf(),
    ensures
        total@ == total_volume(baskets.deep_view()),
{
    let ghost all = baskets.deep_view();
    let mut total = Ratio::zero();
    let mut k: usize = 0;
    while k < baskets.len()
        invariant
            k <= baskets.len(),
            all == baskets.deep_view(),
            forall|j: int| 0 <= j < baskets.len() ==> (#[trigger] baskets[j]).wf(),
            total@ == total_volume(all.take(k as int)),
        decreases baskets.len() - k,
    {
        total = total.add(&baskets[k].volume);
        proof {
            assert(all.take(k + 1).drop_last() =~= all.take(k as int));
        }
        k = k + 1;
    }
    assert(all.take(k as int) =~= all);
    total
}

/// The maker and taker price of `pair` from the trades chosen.
pub fn price_trades(
    trades: &Vec<CexTrades>,
    fees: &FeeSchedule,
    pair: Pair,
    volume: &Ratio,
    bypass_vol: bool,
) -> (res: Result<MakerTaker, PriceError>)
    ensures
        price_view(res) == priced(trades.deep_view(), fees.deep_view(), pair, volume@, bypass_vol),
{
    let ghost all = trades.deep_view();
    let ghost schedule = fees.deep_view();
    let one = Ratio::one();
    let mut vxp_maker = Ratio::zero();
    let mut vxp_taker = Ratio::zero();
    let mut trade_volume = Ratio::zero();
    let mut trade_volume_weight = Ratio::zero();
    let mut maker_trades: Vec<OptimisticTrade> = Vec::new();
    let mut taker_trades: Vec<OptimisticTrade> = Vec::new();
    let mut i: usize = 0;
    while i < trades.len()
        invariant
            i <= trades.len(),
            all == trades.deep_view(),
            schedule == fees.deep_view(),
            one@ == 1real,
            vxp_maker@ == maker_value(all.take(i as int), schedule),
            vxp_taker@ == taker_value(all.take(i as int), schedule),
            trade_volume@ == total_amount(all.take(i as int)),
            trade_volume_weight@ == weighted_volume(all.take(i as int)),
            all_valid(all.take(i as int)),
            maker_trades.len() == i,
            taker_trades.len() == i,
            forall|j: int|
                0 <= j < i ==> (#[trigger] maker_trades[j]).deep_view() == reported(all[j], pair),
            forall|j: int|
                0 <= j < i ==> (#[trigger] taker_trades[j]).deep_view() == reported(all[j], pair),
        decreases trades.len() - i,
    {
        let trade = &trades[i];
        let (m_fee, t_fee) = fees.fees(trade.exchange());
        proof {
            assert(all.take(i + 1).drop_last() =~= all.take(i as int));
        }
        let maker_term = trade.price().mul(&one.sub(&m_fee)).mul(trade.amount()).mul(
            trade.weight(),
        );
        let taker_term = trade.price().mul(&one.sub(&t_fee)).mul(trade.amount()).mul(
            trade.weight(),
        );
        vxp_maker = vxp_maker.add(&maker_term);
        vxp_taker = vxp_taker.add(&taker_term);
        trade_volume_weight = trade_volume_weight.add(&trade.amount().mul(trade.weight()));
        trade_volume = trade_volume.add(trade.amount());
        proof {
            assert(valid_trade(trade.deep_view()));
            assert forall|j: int| 0 <= j < i + 1 implies valid_trade(
                #[trigger] all.take(i + 1)[j],
            ) by {
                if j < i {
                    assert(all.take(i as int)[j] == all.take(i + 1)[j]);
                }
            }
        }
        maker_trades.push(
            OptimisticTrade {
                volume: trade.amount().clone(),
                pair,
                price: trade.price().clone(),
                exchange: trade.exchange(),
                timestamp: trade.timestamp(),
            },
        );
        taker_trades.push(
            OptimisticTrade {
                volume: trade.amount().clone(),
                pair,
                price: trade.price().clone(),
                exchange: trade.exchange(),
                timestamp: trade.timestamp(),
            },
        );
        i = i + 1;
    }
    assert(all.take(i as int) =~= all);
    if trade_volume.lt(volume) && !bypass_vol {
        return Err(PriceError::InsufficientVolume);
    }
    if trade_volume.is_zero() {
        return Err(PriceError::NoVolume);
    }
    proof {
        lemma_weighted_volume(all);
    }
    let mut maker_pairs: Vec<Pair> = Vec::new();
    maker_pairs.push(pair);
    let mut taker_pairs: Vec<Pair> = Vec::new();
    taker_pairs.push(pair);
    let maker = ExchangePrice {
        trades_used: maker_trades,
        pairs: maker_pairs,
        final_price: vxp_maker.div(&trade_volume_weight),
    };
    let taker = ExchangePrice {
        trades_used: taker_trades,
        pairs: taker_pairs,
        final_price: vxp_taker.div(&trade_volume_weight),
    };
    proof {
        let used = all.map_values(|t: TradeView| reported(t, pair));
        assert(maker.trades_used.deep_view() =~= used);
        assert(taker.trades_used.deep_view() =~= used);
    }
    Ok((maker, taker))
}

/// The trades chosen from a stream to fill `volume` at `block_timestamp`,
/// where `percents` holds the quality of each exchange by its ordinal.
pub fn select_trades(
    trade_data: OptimisticTradeData,
    config: CexDexTradeConfig,
    block_timestamp: u64,
    volume: &Ratio,
    percents: Option<Vec<usize>>,
) -> (used: Vec<CexTrades>)
    requires
        percents matches Some(p) ==> p.len() == EXCHANGE_COUNT,
    ensures
        used.deep_view() == selected_trades(
            trade_data.deep_view(),
            config,
            block_timestamp,
            volume@,
            percents_view(percents),
        ),
{
    let mut queue = TimeBasketQueue::new(trade_data, block_timestamp);
    let direction = queue.direction;
    queue.construct_time_baskets();
    let ghost start = queue.deep_view();
    loop
        invariant
            queue.wf(),
            grown_queue(
                queue.deep_view(),
                volume@,
                config.optimistic_before_us,
                config.optimistic_after_us,
            ) == grown_queue(start, volume@, config.optimistic_before_us, config.optimistic_after_us),
        ensures
            queue.wf(),
            queue.deep_view() == grown_queue(
                start,
                volume@,
                config.optimistic_before_us,
                config.optimistic_after_us,
            ),
        decreases remaining_reach(queue.window.post, config.optimistic_after_us),
    {
        if !queue.volume.lt(volume) || queue.get_min_time_delta() >= config.optimistic_before_us
            || queue.get_max_time_delta() >= config.optimistic_after_us {
            break ;
        }
        let min_expand = if queue.get_max_time_delta() > PRE_SCALING_DIFF {
            TIME_STEP
        } else {
            0
        };
        queue.expand_time_bounds(min_expand, TIME_STEP);
    }
    let kept = match &percents {
        Some(p) => apply_quality(&queue.baskets, p),
        None => queue.baskets,
    };
    let total = sum_volumes(&kept);
    if total.is_zero() {
        let used: Vec<CexTrades> = Vec::new();
        used
    } else {
        fill_baskets(&kept, &total, volume, direction).0
    }
}

impl SortedTrades {
    /// The maker and taker price of `pair` for `volume` at
    /// `block_timestamp`: one for a token against itself, else the direct
    /// price, else the price through the best intermediary.
    pub fn get_optimistic_price(
        &self,
        config: CexDexTradeConfig,
        fees: &FeeSchedule,
        block_timestamp: u64,
        pair: Pair,
        volume: &Ratio,
        quality: Option<&QualityTable>,
        bypass_vol: bool,
    ) -> (res: Result<MakerTaker, PriceError>)
        ensures
            price_view(res) == optimistic_price(
                self.deep_view(),
                config,
                fees.deep_view(),
                block_timestamp,
                pair,
                volume@,
                quality_view(quality),
                bypass_vol,
            ),
    {
        if pair.0 == pair.1 {
            return Ok((ExchangePrice::unit(pair), ExchangePrice::unit(pair)));
        }
        match self.get_optimistic_direct(
            config,
            fees,
            block_timestamp,
            pair,
            volume,
            bypass_vol,
            quality,
        ) {
            Ok(prices) => Ok(prices),
            Err(e) => match self.get_optimistic_via_intermediary(
                config,
                fees,
                block_timestamp,
                pair,
                volume,
                bypass_vol,
                quality,
            ) {
                Some(route) => Ok(route),
                None => Err(e),
            },
        }
    }

    /// The tokens through which `pair` may be priced.
    pub fn calculate_intermediary_addresses(&self, pair: &Pair) -> (out: Vec<Address>)
        ensures
            out@ == intermediaries(self.deep_view(), *pair),
    {
        let ghost all = self.deep_view();
        let mut out: Vec<Address> = Vec::new();
        out.push(weth_address());
        out.push(usdc_address());
        out.push(usdt_address());
        out.push(dai_address());
        let ghost listed = out@;
        let mut i: usize = 0;
        while i < self.entries.len()
            invariant
                i <= self.entries.len(),
                all == self.deep_view(),
                out@ == listed + shared_tokens(all.take(i as int), all, *pair),
            decreases self.entries.len() - i,
        {
            let entry_pair = self.entries[i].pair;
            proof {
                assert(all.take(i + 1).drop_last() =~= all.take(i as int));
            }
            let other = if entry_pair.0 == pair.0 {
                Some(entry_pair.1)
            } else if entry_pair.1 == pair.0 {
                Some(entry_pair.0)
            } else {
                None
            };
            if let Some(token) = other {
                let forward = self.position(Pair(token, pair.1));
                let backward = self.position(Pair(pair.1, token));
                if forward.is_some() || backward.is_some() {
                    out.push(token);
                }
            }
            i = i + 1;
        }
        assert(all.take(i as int) =~= all);
        out
    }

    /// The price of `pair` through one intermediary.
    fn get_route(
        &self,
        config: CexDexTradeConfig,
        fees: &FeeSchedule,
        block_timestamp: u64,
        pair: Pair,
        volume: &Ratio,
        bypass_vol: bool,
        quality: Option<&QualityTable>,
        intermediary: Address,
    ) -> (route: Option<MakerTaker>)
        ensures
            route_view(route) == route_price(
                self.deep_view(),
                config,
                fees.deep_view(),
                block_timestamp,
                pair,
                volume@,
                bypass_vol,
                quality_view(quality),
                intermediary,
            ),
    {
        let pair0 = Pair(pair.0, intermediary);
        let pair1 = Pair(intermediary, pair.1);
        let usdc = usdc_address();
        let usdt = usdt_address();
        let stable0 = (pair0.0 == usdc && pair0.1 == usdt) || (pair0.0 == usdt && pair0.1 == usdc);
        let first_leg = match self.get_optimistic_direct(
            config,
            fees,
            block_timestamp,
            pair0,
            volume,
            bypass_vol || stable0,
            quality,
        ) {
            Ok(prices) => prices,
            Err(_) => {
                return None;
            },
        };
        let new_vol = volume.mul(&first_leg.0.final_price);
        let stable1 = (pair1.0 == usdt && pair1.1 == usdc) || (pair1.0 == usdc && pair1.1 == usdt);
        let second_leg = match self.get_optimistic_direct(
            config,
            fees,
            block_timestamp,
            pair1,
            &new_vol,
            bypass_vol || stable1,
            quality,
        ) {
            Ok(prices) => prices,
            Err(_) => {
                return None;
            },
        };
        let maker = first_leg.0.mul(second_leg.0);
        let taker = first_leg.1.mul(second_leg.1);
        Some((maker, taker))
    }

    /// The price of `pair` through the intermediary that gives the highest
    /// maker price; `None` where no intermediary gives a price.
    pub fn get_optimistic_via_intermediary(
        &self,
        config: CexDexTradeConfig,
        fees: &FeeSchedule,
        block_timestamp: u64,
        pair: Pair,
        volume: &Ratio,
        bypass_vol: bool,
        quality: Option<&QualityTable>,
    ) -> (route: Option<MakerTaker>)
        ensures
            route_view(route) == intermediary_price(
                self.deep_view(),
                config,
                fees.deep_view(),
                block_timestamp,
                pair,
                volume@,
                bypass_vol,
                quality_view(quality),
            ),
    {
        let candidates = self.calculate_intermediary_addresses(&pair);
        let ghost all = candidates@;
        let mut best: Option<MakerTaker> = None;
        let mut i: usize = 0;
        while i < candidates.len()
            invariant
                i <= candidates.len(),
                all == candidates@,
                route_view(best) == best_route(
                    self.deep_view(),
                    config,
                    fees.deep_view(),
                    block_timestamp,
                    pair,
                    volume@,
                    bypass_vol,
                    quality_view(quality),
                    all.take(i as int),
                ),
            decreases candidates.len() - i,
        {
            let route = self.get_route(
                config,
                fees,
                block_timestamp,
                pair,
                volume,
                bypass_vol,
                quality,
                candidates[i],
            );
            proof {
                assert(all.take(i + 1).drop_last() =~= all.take(i as int));
            }
            best = match route {
                None => best,
                Some(found) => match best {
                    None => Some(found),
                    Some(held) => if held.0.final_price.le(&found.0.final_price) {
                        Some(found)
                    } else {
                        Some(held)
                    },
                },
            };
            i = i + 1;
        }
        assert(all.take(i as int) =~= all);
        best
    }

    /// The price of `pair` from its own stream, or from that of the flipped
    /// pair.
    pub fn get_optimistic_direct(
        &self,
        config: CexDexTradeConfig,
        fees: &FeeSchedule,
        block_timestamp: u64,
        pair: Pair,
        volume: &Ratio,
        bypass_vol: bool,
        quality: Option<&QualityTable>,
    ) -> (res: Result<MakerTaker, PriceError>)
        ensures
            price_view(res) == direct_price(
                self.deep_view(),
                config,
                fees.deep_view(),
                block_timestamp,
                pair,
                volume@,
                bypass_vol,
                quality_view(quality),
            ),
    {
        let quality_pct = match quality {
            Some(table) => Some(table.percents(pair)),
            None => None,
        };
        let trade_data = match self.get_trades(pair) {
            Some(data) => data,
            None => {
                return Err(PriceError::MissingTradeData);
            },
        };
        let trades_used = select_trades(trade_data, config, block_timestamp, volume, quality_pct);
        price_trades(&trades_used, fees, pair, volume, bypass_vol)
    }
}

} // verus!
