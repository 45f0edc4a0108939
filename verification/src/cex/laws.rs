//! What holds of the optimistic price whatever the trades.

use crate::cex::basket::{
    expanded_queue, total_amount, total_volume, QueueView, PRE_SCALING_DIFF, TIME_STEP,
};
use crate::cex::exchange::{fees_of, percents_of, ExchangeFeesView, QualityEntry};
use crate::cex::fill::{
    basket_fill, drawn, filled, insert_position, lemma_insert_position, price_ordered,
};
use crate::cex::optimistic::{
    direct_price, grown_queue, is_stable_pair, lemma_weighted_volume, maker_value,
    optimistic_price, priced, remaining_reach, route_price, selected_trades, taker_value,
    unit_price, weighted_volume, CexDexTradeConfig, PriceView,
};
use crate::cex::trades::{
    adjusted, adjusted_stream, all_valid, trade_stream, valid_trade, Direction, PairTradesView,
    TradeView,
};
use crate::pair::Pair;
use crate::primitives::Address;
use vstd::prelude::*;

verus! {

/// A token is priced at exactly one against itself, for maker and taker,
/// from no trade at all.
pub proof fn identity_price_is_one(
    entries: Seq<PairTradesView>,
    config: CexDexTradeConfig,
    fees: Seq<ExchangeFeesView>,
    block_time: u64,
    pair: Pair,
    volume: real,
    quality: Option<Seq<QualityEntry>>,
    bypass_vol: bool,
)
    requires
        pair.0 == pair.1,
    ensures
        optimistic_price(entries, config, fees, block_time, pair, volume, quality, bypass_vol)
            == Ok::<_, crate::cex::optimistic::PriceError>((unit_price(pair), unit_price(pair))),
        unit_price(pair).final_price == 1real,
        unit_price(pair).trades_used.len() == 0,
        unit_price(pair).pairs == seq![pair],
{
}

/// Whether no exchange of the trades charges a fee.
pub open spec fn free_of_fees(trades: Seq<TradeView>, fees: Seq<ExchangeFeesView>) -> bool {
    forall|i: int|
        0 <= i < trades.len() ==> fees_of(fees, (#[trigger] trades[i]).exchange) == (0real, 0real)
}

/// Trades read through the flipped pair are trades as well.
pub proof fn lemma_flipped_trades_are_valid(trades: Seq<TradeView>)
    requires
        all_valid(trades),
    ensures
        all_valid(adjusted_stream(trades, Direction::Buy)),
{
    let flipped = adjusted_stream(trades, Direction::Buy);
    assert forall|i: int| 0 <= i < flipped.len() implies valid_trade(#[trigger] flipped[i]) by {
        let t = trades[i];
        assert(valid_trade(t));
        assert(flipped[i] == adjusted(t, Direction::Buy));
        let p = t.price;
        let a = t.amount;
        assert(1real / p > 0real && a * p >= 0real) by (nonlinear_arith)
            requires
                p > 0real,
                a >= 0real,
        ;
    }
}

/// Without fees, the value of the trades read through the flipped pair
/// is their weighted volume, and their weighted volume is their value.
pub proof fn lemma_flip_swaps_value_and_volume(trades: Seq<TradeView>, fees: Seq<ExchangeFeesView>)
    requires
        free_of_fees(trades, fees),
        all_valid(trades),
    ensures
        maker_value(adjusted_stream(trades, Direction::Buy), fees) == weighted_volume(trades),
        taker_value(adjusted_stream(trades, Direction::Buy), fees) == weighted_volume(trades),
        weighted_volume(adjusted_stream(trades, Direction::Buy)) == maker_value(trades, fees),
        weighted_volume(adjusted_stream(trades, Direction::Buy)) == taker_value(trades, fees),
    decreases trades.len(),
{
    let flipped = adjusted_stream(trades, Direction::Buy);
    if trades.len() > 0 {
        let init = trades.drop_last();
        let t = trades.last();
        assert(valid_trade(trades[trades.len() - 1]));
        assert(fees_of(fees, trades[trades.len() - 1].exchange) == (0real, 0real));
        assert forall|i: int| 0 <= i < init.len() implies valid_trade(#[trigger] init[i]) by {
            assert(init[i] == trades[i]);
        }
        assert forall|i: int| 0 <= i < init.len() implies fees_of(
            fees,
            (#[trigger] init[i]).exchange,
        ) == (0real, 0real) by {
            assert(init[i] == trades[i]);
        }
        lemma_flip_swaps_value_and_volume(init, fees);
        assert(flipped.drop_last() =~= adjusted_stream(init, Direction::Buy));
        let p = t.price;
        let a = t.amount;
        let w = t.weight;
        assert((((1real / p) * (1real - 0real)) * (a * p)) * w == a * w) by (nonlinear_arith)
            requires
                p > 0real,
        ;
        assert((a * p) * w == ((p * (1real - 0real)) * a) * w) by (nonlinear_arith);
    }
}

/// Flip law: where no exchange charges a fee, the maker price of trades
/// read through the flipped pair is the reciprocal of their maker price,
/// and so is the taker price.
pub proof fn flipped_price_is_reciprocal(trades: Seq<TradeView>, fees: Seq<ExchangeFeesView>)
    requires
        free_of_fees(trades, fees),
        all_valid(trades),
        weighted_volume(trades) != 0real,
        maker_value(trades, fees) != 0real,
    ensures
        maker_value(adjusted_stream(trades, Direction::Buy), fees) / weighted_volume(
            adjusted_stream(trades, Direction::Buy),
        ) == 1real / (maker_value(trades, fees) / weighted_volume(trades)),
        taker_value(adjusted_stream(trades, Direction::Buy), fees) / weighted_volume(
            adjusted_stream(trades, Direction::Buy),
        ) == 1real / (taker_value(trades, fees) / weighted_volume(trades)),
{
    lemma_flip_swaps_value_and_volume(trades, fees);
    let value = maker_value(trades, fees);
    let volume = weighted_volume(trades);
    assert(volume / value == 1real / (value / volume)) by (nonlinear_arith)
        requires
            value != 0real,
            volume != 0real,
    ;
}

/// Flip law for the direct price: where no exchange charges a fee and
/// pricing the flipped pair chooses the same trades, read through the flip,
/// as pricing the pair, the maker price of the flipped pair is the
/// reciprocal of the maker price of the pair, and so is the taker price.
pub proof fn flipped_direct_price_is_reciprocal(
    entries: Seq<PairTradesView>,
    config: CexDexTradeConfig,
    fees: Seq<ExchangeFeesView>,
    block_time: u64,
    pair: Pair,
    volume: real,
    flipped_volume: real,
    bypass_vol: bool,
    quality: Option<Seq<QualityEntry>>,
)
    requires
        direct_price(entries, config, fees, block_time, pair, volume, bypass_vol, quality) is Ok,
        direct_price(
            entries,
            config,
            fees,
            block_time,
            pair.flip_spec(),
            flipped_volume,
            bypass_vol,
            quality,
        ) is Ok,
        free_of_fees(chosen(entries, config, block_time, pair, volume, quality), fees),
        all_valid(chosen(entries, config, block_time, pair, volume, quality)),
        chosen(entries, config, block_time, pair.flip_spec(), flipped_volume, quality)
            == adjusted_stream(
            chosen(entries, config, block_time, pair, volume, quality),
            Direction::Buy,
        ),
    ensures
        direct_price(
            entries,
            config,
            fees,
            block_time,
            pair.flip_spec(),
            flipped_volume,
            bypass_vol,
            quality,
        )->Ok_0.0.final_price == 1real / direct_price(
            entries,
            config,
            fees,
            block_time,
            pair,
            volume,
            bypass_vol,
            quality,
        )->Ok_0.0.final_price,
        direct_price(
            entries,
            config,
            fees,
            block_time,
            pair.flip_spec(),
            flipped_volume,
            bypass_vol,
            quality,
        )->Ok_0.1.final_price == 1real / direct_price(
            entries,
            config,
            fees,
            block_time,
            pair,
            volume,
            bypass_vol,
            quality,
        )->Ok_0.1.final_price,
{
    let sold = chosen(entries, config, block_time, pair, volume, quality);
    lemma_flip_swaps_value_and_volume(sold, fees);
    lemma_flipped_trades_are_valid(sold);
    lemma_weighted_volume(sold);
    lemma_weighted_volume(adjusted_stream(sold, Direction::Buy));
    flipped_price_is_reciprocal(sold, fees);
}

/// Flip law for the optimistic price: for a token against itself, and
/// where both the pair and its flip are priced directly, no exchange
/// charges a fee and pricing the flipped pair chooses the same trades, read
/// through the flip, as pricing the pair, the maker price of the flipped
/// pair is the reciprocal of the maker price of the pair, and so is the
/// taker price.
pub proof fn flipped_optimistic_price_is_reciprocal(
    entries: Seq<PairTradesView>,
    config: CexDexTradeConfig,
    fees: Seq<ExchangeFeesView>,
    block_time: u64,
    pair: Pair,
    volume: real,
    flipped_volume: real,
    quality: Option<Seq<QualityEntry>>,
    bypass_vol: bool,
)
    requires
        pair.0 != pair.1 ==> {
            &&& direct_price(
                entries,
                config,
                fees,
                block_time,
                pair,
                volume,
                bypass_vol,
                quality,
            ) is Ok
            &&& direct_price(
                entries,
                config,
                fees,
                block_time,
                pair.flip_spec(),
                flipped_volume,
                bypass_vol,
                quality,
            ) is Ok
            &&& free_of_fees(chosen(entries, config, block_time, pair, volume, quality), fees)
            &&& all_valid(chosen(entries, config, block_time, pair, volume, quality))
            &&& chosen(entries, config, block_time, pair.flip_spec(), flipped_volume, quality)
                == adjusted_stream(
                chosen(entries, config, block_time, pair, volume, quality),
                Direction::Buy,
            )
        },
    ensures
        optimistic_price(
            entries,
            config,
            fees,
            block_time,
            pair.flip_spec(),
            flipped_volume,
            quality,
            bypass_vol,
        )->Ok_0.0.final_price == 1real / optimistic_price(
            entries,
            config,
            fees,
            block_time,
            pair,
            volume,
            quality,
            bypass_vol,
        )->Ok_0.0.final_price,
        optimistic_price(
            entries,
            config,
            fees,
            block_time,
            pair.flip_spec(),
            flipped_volume,
            quality,
            bypass_vol,
        )->Ok_0.1.final_price == 1real / optimistic_price(
            entries,
            config,
            fees,
            block_time,
            pair,
            volume,
            quality,
            bypass_vol,
        )->Ok_0.1.final_price,
{
    if pair.0 == pair.1 {
        assert(1real / 1real == 1real) by (nonlinear_arith);
    } else {
        flipped_direct_price_is_reciprocal(
            entries,
            config,
            fees,
            block_time,
            pair,
            volume,
            flipped_volume,
            bypass_vol,
            quality,
        );
    }
}

/// The price of the first leg of a route, and the volume at which its
/// second leg is priced.
pub open spec fn first_leg(
    entries: Seq<PairTradesView>,
    config: CexDexTradeConfig,
    fees: Seq<ExchangeFeesView>,
    block_time: u64,
    pair: Pair,
    volume: real,
    bypass_vol: bool,
    quality: Option<Seq<QualityEntry>>,
    intermediary: Address,
) -> (real, real) {
    let leg = Pair(pair.0, intermediary);
    let price = direct_price(
        entries,
        config,
        fees,
        block_time,
        leg,
        volume,
        bypass_vol || is_stable_pair(leg),
        quality,
    )->Ok_0.0.final_price;
    (price, volume * price)
}

/// Flip law for a route: where no exchange charges a fee, and each leg of
/// the route of the flipped pair chooses the same trades, read through the
/// flip, as the leg that it retraces, the maker price of the flipped pair
/// through an intermediary is the reciprocal of the maker price of the pair
/// through the same intermediary, and so is the taker price.
pub proof fn flipped_route_price_is_reciprocal(
    entries: Seq<PairTradesView>,
    config: CexDexTradeConfig,
    fees: Seq<ExchangeFeesView>,
    block_time: u64,
    pair: Pair,
    volume: real,
    flipped_volume: real,
    bypass_vol: bool,
    quality: Option<Seq<QualityEntry>>,
    intermediary: Address,
)
    requires
        route_price(
            entries,
            config,
            fees,
            block_time,
            pair,
            volume,
            bypass_vol,
            quality,
            intermediary,
        ) is Some,
        route_price(
            entries,
            config,
            fees,
            block_time,
            pair.flip_spec(),
            flipped_volume,
            bypass_vol,
            quality,
            intermediary,
        ) is Some,
        free_of_fees(
            chosen(entries, config, block_time, Pair(pair.0, intermediary), volume, quality),
            fees,
        ),
        all_valid(
            chosen(entries, config, block_time, Pair(pair.0, intermediary), volume, quality),
        ),
        free_of_fees(
            chosen(
                entries,
                config,
                block_time,
                Pair(intermediary, pair.1),
                first_leg(
                    entries,
                    config,
                    fees,
                    block_time,
                    pair,
                    volume,
                    bypass_vol,
                    quality,
                    intermediary,
                ).1,
                quality,
            ),
            fees,
        ),
        all_valid(
            chosen(
                entries,
                config,
                block_time,
                Pair(intermediary, pair.1),
                first_leg(
                    entries,
                    config,
                    fees,
                    block_time,
                    pair,
                    volume,
                    bypass_vol,
                    quality,
                    intermediary,
                ).1,
                quality,
            ),
        ),
        chosen(entries, config, block_time, Pair(pair.1, intermediary), flipped_volume, quality)
            == adjusted_stream(
            chosen(
                entries,
                config,
                block_time,
                Pair(intermediary, pair.1),
                first_leg(
                    entries,
                    config,
                    fees,
                    block_time,
                    pair,
                    volume,
                    bypass_vol,
                    quality,
                    intermediary,
                ).1,
                quality,
            ),
            Direction::Buy,
        ),
        chosen(
            entries,
            config,
            block_time,
            Pair(intermediary, pair.0),
            first_leg(
                entries,
                config,
                fees,
                block_time,
                pair.flip_spec(),
                flipped_volume,
                bypass_vol,
                quality,
                intermediary,
            ).1,
            quality,
        ) == adjusted_stream(
            chosen(entries, config, block_time, Pair(pair.0, intermediary), volume, quality),
            Direction::Buy,
        ),
    ensures
        route_price(
            entries,
            config,
            fees,
            block_time,
            pair.flip_spec(),
            flipped_volume,
            bypass_vol,
            quality,
            intermediary,
        )->Some_0.0.final_price == 1real / route_price(
            entries,
            config,
            fees,
            block_time,
            pair,
            volume,
            bypass_vol,
            quality,
            intermediary,
        )->Some_0.0.final_price,
        route_price(
            entries,
            config,
            fees,
            block_time,
            pair.flip_spec(),
            flipped_volume,
            bypass_vol,
            quality,
            intermediary,
        )->Some_0.1.final_price == 1real / route_price(
            entries,
            config,
            fees,
            block_time,
            pair,
            volume,
            bypass_vol,
            quality,
            intermediary,
        )->Some_0.1.final_price,
{
    let out = Pair(pair.0, intermediary);
    let on = Pair(intermediary, pair.1);
    let back = Pair(pair.1, intermediary);
    let home = Pair(intermediary, pair.0);
    assert(back == on.flip_spec());
    assert(home == out.flip_spec());
    let out_waived = bypass_vol || is_stable_pair(out);
    let on_waived = bypass_vol || is_stable_pair(on);
    let on_volume = first_leg(
        entries,
        config,
        fees,
        block_time,
        pair,
        volume,
        bypass_vol,
        quality,
        intermediary,
    ).1;
    let home_volume = first_leg(
        entries,
        config,
        fees,
        block_time,
        pair.flip_spec(),
        flipped_volume,
        bypass_vol,
        quality,
        intermediary,
    ).1;
    flipped_direct_price_is_reciprocal(
        entries,
        config,
        fees,
        block_time,
        out,
        volume,
        home_volume,
        out_waived,
        quality,
    );
    flipped_direct_price_is_reciprocal(
        entries,
        config,
        fees,
        block_time,
        on,
        on_volume,
        flipped_volume,
        on_waived,
        quality,
    );
    lemma_direct_price_is_not_zero(
        entries,
        config,
        fees,
        block_time,
        out,
        volume,
        out_waived,
        quality,
    );
    lemma_direct_price_is_not_zero(
        entries,
        config,
        fees,
        block_time,
        on,
        on_volume,
        on_waived,
        quality,
    );
    let first = direct_price(entries, config, fees, block_time, out, volume, out_waived, quality)->Ok_0;
    let second = direct_price(
        entries,
        config,
        fees,
        block_time,
        on,
        on_volume,
        on_waived,
        quality,
    )->Ok_0;
    let m1 = first.0.final_price;
    let m2 = second.0.final_price;
    let t1 = first.1.final_price;
    let t2 = second.1.final_price;
    assert((1real / m2) * (1real / m1) == 1real / (m1 * m2)) by (nonlinear_arith)
        requires
            m1 != 0real,
            m2 != 0real,
    ;
    assert((1real / t2) * (1real / t1) == 1real / (t1 * t2)) by (nonlinear_arith)
        requires
            t1 != 0real,
            t2 != 0real,
    ;
}

/// Where no exchange charges a fee, the trades that a direct price is made
/// of have a maker and a taker price other than zero.
pub proof fn lemma_direct_price_is_not_zero(
    entries: Seq<PairTradesView>,
    config: CexDexTradeConfig,
    fees: Seq<ExchangeFeesView>,
    block_time: u64,
    pair: Pair,
    volume: real,
    bypass_vol: bool,
    quality: Option<Seq<QualityEntry>>,
)
    requires
        direct_price(entries, config, fees, block_time, pair, volume, bypass_vol, quality) is Ok,
        free_of_fees(chosen(entries, config, block_time, pair, volume, quality), fees),
        all_valid(chosen(entries, config, block_time, pair, volume, quality)),
    ensures
        direct_price(
            entries,
            config,
            fees,
            block_time,
            pair,
            volume,
            bypass_vol,
            quality,
        )->Ok_0.0.final_price != 0real,
        direct_price(
            entries,
            config,
            fees,
            block_time,
            pair,
            volume,
            bypass_vol,
            quality,
        )->Ok_0.1.final_price != 0real,
{
    let sold = chosen(entries, config, block_time, pair, volume, quality);
    let bought = adjusted_stream(sold, Direction::Buy);
    lemma_flip_swaps_value_and_volume(sold, fees);
    lemma_flipped_trades_are_valid(sold);
    lemma_weighted_volume(sold);
    lemma_weighted_volume(bought);
    lemma_flip_keeps_volume_above_zero(sold);
    let value = maker_value(sold, fees);
    let volume = weighted_volume(sold);
    assert(value / volume != 0real) by (nonlinear_arith)
        requires
            value != 0real,
            volume != 0real,
    ;
}

/// Trades that carry volume carry volume read through the flipped pair.
pub proof fn lemma_flip_keeps_volume_above_zero(trades: Seq<TradeView>)
    requires
        all_valid(trades),
    ensures
        total_amount(trades) >= 0real,
        total_amount(adjusted_stream(trades, Direction::Buy)) >= 0real,
        total_amount(trades) != 0real ==> total_amount(adjusted_stream(trades, Direction::Buy))
            != 0real,
    decreases trades.len(),
{
    let flipped = adjusted_stream(trades, Direction::Buy);
    if trades.len() > 0 {
        let init = trades.drop_last();
        let t = trades.last();
        assert(valid_trade(trades[trades.len() - 1]));
        assert forall|i: int| 0 <= i < init.len() implies valid_trade(#[trigger] init[i]) by {
            assert(init[i] == trades[i]);
        }
        lemma_flip_keeps_volume_above_zero(init);
        assert(flipped.drop_last() =~= adjusted_stream(init, Direction::Buy));
        let p = t.price;
        let a = t.amount;
        assert(a * p >= 0real && (a != 0real ==> a * p != 0real)) by (nonlinear_arith)
            requires
                p > 0real,
                a >= 0real,
        ;
    }
}

/// The price of a trade less the fee of its exchange: the maker fee for
/// `maker`, else the taker fee.
pub open spec fn net_price(trade: TradeView, fees: Seq<ExchangeFeesView>, maker: bool) -> real {
    if maker {
        trade.price * (1real - fees_of(fees, trade.exchange).0)
    } else {
        trade.price * (1real - fees_of(fees, trade.exchange).1)
    }
}

/// Whether `low` and `high` bound the net price of every trade.
pub open spec fn bound_net_prices(
    trades: Seq<TradeView>,
    fees: Seq<ExchangeFeesView>,
    maker: bool,
    low: real,
    high: real,
) -> bool {
    forall|i: int| 0 <= i < trades.len() ==> low <= net_price(#[trigger] trades[i], fees, maker) <= high
}

/// The value of the trades to a maker, or to a taker.
pub open spec fn value_of(trades: Seq<TradeView>, fees: Seq<ExchangeFeesView>, maker: bool) -> real {
    if maker {
        maker_value(trades, fees)
    } else {
        taker_value(trades, fees)
    }
}

/// The maker price, or the taker price, of a pair of prices.
pub open spec fn price_of(prices: (PriceView, PriceView), maker: bool) -> real {
    if maker {
        prices.0.final_price
    } else {
        prices.1.final_price
    }
}

/// The premises of a law hold of all trades but the last.
proof fn lemma_premises_of_the_first(
    trades: Seq<TradeView>,
    fees: Seq<ExchangeFeesView>,
    maker: bool,
    low: real,
    high: real,
)
    requires
        trades.len() > 0,
        all_valid(trades),
        bound_net_prices(trades, fees, maker, low, high),
    ensures
        all_valid(trades.drop_last()),
        bound_net_prices(trades.drop_last(), fees, maker, low, high),
        valid_trade(trades.last()),
        low <= net_price(trades.last(), fees, maker) <= high,
{
    let init = trades.drop_last();
    assert(trades.last() == trades[trades.len() - 1]);
    assert forall|i: int| 0 <= i < init.len() implies valid_trade(#[trigger] init[i]) by {
        assert(init[i] == trades[i]);
    }
    assert forall|i: int| 0 <= i < init.len() implies low <= net_price(
        #[trigger] init[i],
        fees,
        maker,
    ) <= high by {
        assert(init[i] == trades[i]);
    }
}

/// The value of trades lies between their weighted volume at the lowest
/// and at the highest net price.
proof fn lemma_value_is_bounded(
    trades: Seq<TradeView>,
    fees: Seq<ExchangeFeesView>,
    maker: bool,
    low: real,
    high: real,
)
    requires
        all_valid(trades),
        bound_net_prices(trades, fees, maker, low, high),
    ensures
        low * weighted_volume(trades) <= value_of(trades, fees, maker) <= high * weighted_volume(
            trades,
        ),
    decreases trades.len(),
{
    if trades.len() == 0 {
        assert(low * 0real == 0real && high * 0real == 0real) by (nonlinear_arith);
    } else {
        let init = trades.drop_last();
        let t = trades.last();
        lemma_premises_of_the_first(trades, fees, maker, low, high);
        lemma_value_is_bounded(init, fees, maker, low, high);
        let net = net_price(t, fees, maker);
        let a = t.amount;
        let w = t.weight;
        let rest = weighted_volume(init);
        assert(low * (rest + a * w) == low * rest + low * (a * w) && high * (rest + a * w) == high
            * rest + high * (a * w)) by (nonlinear_arith);
        assert(low * (a * w) <= (net * a) * w <= high * (a * w)) by (nonlinear_arith)
            requires
                low <= net <= high,
                a >= 0real,
                w > 0real,
        ;
    }
}

/// The value of trades exceeds their weighted volume at the lowest net
/// price by what the trade at `at` adds above that price, and falls short
/// of it at the highest by what that trade lacks below that price.
proof fn lemma_value_is_bounded_apart(
    trades: Seq<TradeView>,
    fees: Seq<ExchangeFeesView>,
    maker: bool,
    low: real,
    high: real,
    at: int,
)
    requires
        all_valid(trades),
        bound_net_prices(trades, fees, maker, low, high),
        0 <= at < trades.len(),
    ensures
        low * weighted_volume(trades) + (net_price(trades[at], fees, maker) - low) * (
        trades[at].amount * trades[at].weight) <= value_of(trades, fees, maker),
        value_of(trades, fees, maker) <= high * weighted_volume(trades) - (high - net_price(
            trades[at],
            fees,
            maker,
        )) * (trades[at].amount * trades[at].weight),
    decreases trades.len(),
{
    let init = trades.drop_last();
    let t = trades.last();
    lemma_premises_of_the_first(trades, fees, maker, low, high);
    let net = net_price(t, fees, maker);
    let a = t.amount;
    let w = t.weight;
    let rest = weighted_volume(init);
    assert(low * (rest + a * w) == low * rest + low * (a * w) && high * (rest + a * w) == high
        * rest + high * (a * w)) by (nonlinear_arith);
    if at == trades.len() - 1 {
        lemma_value_is_bounded(init, fees, maker, low, high);
        assert((net * a) * w == low * (a * w) + (net - low) * (a * w) && (net * a) * w == high * (a
            * w) - (high - net) * (a * w)) by (nonlinear_arith);
    } else {
        assert(init[at] == trades[at]);
        lemma_value_is_bounded_apart(init, fees, maker, low, high, at);
        assert(low * (a * w) <= (net * a) * w <= high * (a * w)) by (nonlinear_arith)
            requires
                low <= net <= high,
                a >= 0real,
                w > 0real,
        ;
    }
}

/// The maker price of trades that carry volume lies between the lowest
/// and the highest of their prices less the maker fee, and the taker price
/// between the lowest and the highest of their prices less the taker fee.
pub proof fn price_lies_between_net_prices(
    trades: Seq<TradeView>,
    fees: Seq<ExchangeFeesView>,
    pair: Pair,
    volume: real,
    bypass_vol: bool,
    maker: bool,
    low: real,
    high: real,
)
    requires
        all_valid(trades),
        priced(trades, fees, pair, volume, bypass_vol) is Ok,
        bound_net_prices(trades, fees, maker, low, high),
    ensures
        low <= price_of(priced(trades, fees, pair, volume, bypass_vol)->Ok_0, maker) <= high,
{
    lemma_weighted_volume(trades);
    lemma_value_is_bounded(trades, fees, maker, low, high);
    let weight = weighted_volume(trades);
    let value = value_of(trades, fees, maker);
    assert(low <= value / weight <= high) by (nonlinear_arith)
        requires
            weight > 0real,
            low * weight <= value <= high * weight,
    ;
}

/// The price lies strictly above the lowest net price where a trade that
/// carries volume has a higher one, and strictly below the highest where a
/// trade that carries volume has a lower one.
pub proof fn price_lies_strictly_between_net_prices(
    trades: Seq<TradeView>,
    fees: Seq<ExchangeFeesView>,
    pair: Pair,
    volume: real,
    bypass_vol: bool,
    maker: bool,
    low: real,
    high: real,
    above: int,
    below: int,
)
    requires
        all_valid(trades),
        priced(trades, fees, pair, volume, bypass_vol) is Ok,
        bound_net_prices(trades, fees, maker, low, high),
        0 <= above < trades.len(),
        trades[above].amount > 0real,
        net_price(trades[above], fees, maker) > low,
        0 <= below < trades.len(),
        trades[below].amount > 0real,
        net_price(trades[below], fees, maker) < high,
    ensures
        low < price_of(priced(trades, fees, pair, volume, bypass_vol)->Ok_0, maker) < high,
{
    lemma_weighted_volume(trades);
    lemma_value_is_bounded_apart(trades, fees, maker, low, high, above);
    lemma_value_is_bounded_apart(trades, fees, maker, low, high, below);
    let weight = weighted_volume(trades);
    let value = value_of(trades, fees, maker);
    assert(valid_trade(trades[above]) && valid_trade(trades[below]));
    let up = (net_price(trades[above], fees, maker) - low) * (trades[above].amount
        * trades[above].weight);
    let down = (high - net_price(trades[below], fees, maker)) * (trades[below].amount
        * trades[below].weight);
    assert(up > 0real) by (nonlinear_arith)
        requires
            up == (net_price(trades[above], fees, maker) - low) * (trades[above].amount
                * trades[above].weight),
            net_price(trades[above], fees, maker) - low > 0real,
            trades[above].amount > 0real,
            trades[above].weight > 0real,
    ;
    assert(down > 0real) by (nonlinear_arith)
        requires
            down == (high - net_price(trades[below], fees, maker)) * (trades[below].amount
                * trades[below].weight),
            high - net_price(trades[below], fees, maker) > 0real,
            trades[below].amount > 0real,
            trades[below].weight > 0real,
    ;
    assert(low < value / weight < high) by (nonlinear_arith)
        requires
            weight > 0real,
            low * weight < value,
            value < high * weight,
    ;
}

/// The queue is grown until it holds the volume asked for or one of its
/// sides has reached its bound, and growing changes neither the stream nor
/// the block time.
pub proof fn grown_queue_stops(queue: QueueView, volume: real, before_us: u64, after_us: u64)
    ensures
        ({
            let grown = grown_queue(queue, volume, before_us, after_us);
            &&& grown.volume >= volume || grown.window.pre >= before_us || grown.window.post
                >= after_us
            &&& grown.stream == queue.stream
            &&& grown.direction == queue.direction
            &&& grown.block_time == queue.block_time
            &&& grown.window.pre >= queue.window.pre
            &&& grown.window.post >= queue.window.post
            &&& grown.baskets.len() >= queue.baskets.len()
        }),
    decreases remaining_reach(queue.window.post, after_us),
{
    if !(queue.volume >= volume || queue.window.pre >= before_us || queue.window.post >= after_us) {
        let pre_step = if queue.window.post > PRE_SCALING_DIFF {
            TIME_STEP
        } else {
            0u64
        };
        grown_queue_stops(expanded_queue(queue, pre_step, TIME_STEP), volume, before_us, after_us);
    }
}

/// The trades that pricing `pair` directly chooses; none where the block
/// has no stream for the pair.
pub open spec fn chosen(
    entries: Seq<PairTradesView>,
    config: CexDexTradeConfig,
    block_time: u64,
    pair: Pair,
    volume: real,
    quality: Option<Seq<QualityEntry>>,
) -> Seq<TradeView> {
    match trade_stream(entries, pair) {
        Some(data) => selected_trades(
            data,
            config,
            block_time,
            volume,
            match quality {
                Some(table) => Some(percents_of(table, pair)),
                None => None,
            },
        ),
        None => Seq::empty(),
    }
}

/// Reading a trade through the flipped pair twice gives the trade back.
pub proof fn flipping_twice_is_identity(trade: TradeView)
    requires
        trade.price > 0real,
    ensures
        adjusted(adjusted(trade, Direction::Buy), Direction::Buy) == trade,
{
    let p = trade.price;
    let a = trade.amount;
    assert(1real / (1real / p) == p) by (nonlinear_arith)
        requires
            p > 0real,
    ;
    assert((a * p) * (1real / p) == a) by (nonlinear_arith)
        requires
            p > 0real,
    ;
}

/// Whether no trade has a price that is strictly more favourable than
/// that of a trade before it.
pub open spec fn favourable_first(trades: Seq<TradeView>, direction: Direction) -> bool {
    forall|i: int, j: int|
        0 <= i < j < trades.len() ==> !crate::cex::fill::better_price(
            #[trigger] trades[j],
            #[trigger] trades[i],
            direction,
        )
}

/// Inserting a trade at its position keeps the most favourable prices
/// first.
proof fn lemma_insert_keeps_order(
    sorted: Seq<TradeView>,
    trade: TradeView,
    direction: Direction,
    from: int,
)
    requires
        favourable_first(sorted, direction),
        0 <= from <= sorted.len(),
        forall|k: int|
            0 <= k < from ==> !crate::cex::fill::better_price(
                trade,
                #[trigger] sorted[k],
                direction,
            ),
    ensures
        favourable_first(
            sorted.insert(insert_position(sorted, trade, direction, from), trade),
            direction,
        ),
    decreases sorted.len() - from,
{
    lemma_insert_position(sorted, trade, direction, from);
    if from < sorted.len() && !crate::cex::fill::better_price(trade, sorted[from], direction) {
        lemma_insert_keeps_order(sorted, trade, direction, from + 1);
    } else {
        let p = insert_position(sorted, trade, direction, from);
        let out = sorted.insert(p, trade);
        assert forall|i: int, j: int| 0 <= i < j < out.len() implies !crate::cex::fill::better_price(
            #[trigger] out[j],
            #[trigger] out[i],
            direction,
        ) by {
            if j == p {
            } else if i == p {
                assert(!crate::cex::fill::better_price(sorted[j - 1], sorted[p], direction) || j
                    - 1 == p);
            } else {
                let si = if i < p {
                    i
                } else {
                    i - 1
                };
                let sj = if j < p {
                    j
                } else {
                    j - 1
                };
            }
        }
    }
}

/// The trades ordered by price have their most favourable prices first.
pub proof fn price_ordered_is_ordered(trades: Seq<TradeView>, direction: Direction)
    ensures
        favourable_first(price_ordered(trades, direction), direction),
    decreases trades.len(),
{
    if trades.len() > 0 {
        price_ordered_is_ordered(trades.drop_last(), direction);
        lemma_insert_keeps_order(
            price_ordered(trades.drop_last(), direction),
            trades.last(),
            direction,
            0,
        );
    }
}

/// Ordering by price keeps every trade, each as often as it was there.
pub proof fn price_ordered_keeps_the_trades(trades: Seq<TradeView>, direction: Direction)
    ensures
        price_ordered(trades, direction).to_multiset() == trades.to_multiset(),
    decreases trades.len(),
{
    if trades.len() > 0 {
        let init = trades.drop_last();
        let sorted = price_ordered(init, direction);
        price_ordered_keeps_the_trades(init, direction);
        lemma_insert_position(sorted, trades.last(), direction, 0);
        vstd::seq_lib::to_multiset_insert(
            sorted,
            insert_position(sorted, trades.last(), direction, 0),
            trades.last(),
        );
        vstd::seq_lib::to_multiset_build(init, trades.last());
        assert(init.push(trades.last()) =~= trades);
    } else {
        assert(price_ordered(trades, direction) =~= trades);
    }
}

/// The amounts of two runs of trades add up.
pub proof fn lemma_total_amount_of_both(first: Seq<TradeView>, second: Seq<TradeView>)
    ensures
        total_amount(first + second) == total_amount(first) + total_amount(second),
    decreases second.len(),
{
    if second.len() == 0 {
    } else {
        lemma_total_amount_of_both(first, second.drop_last());
        assert((first + second).drop_last() =~= first + second.drop_last());
    }
}

/// What is drawn and what is left unfilled make up what was asked for,
/// and nothing is left unfilled below zero.
pub proof fn draw_accounts_for_the_volume(
    sorted: Seq<TradeView>,
    to_fill: real,
    from: int,
    taken: Seq<TradeView>,
)
    requires
        0 <= from,
    ensures
        total_amount(drawn(sorted, to_fill, from, taken).0) + drawn(sorted, to_fill, from, taken).1
            == total_amount(taken) + to_fill,
        to_fill >= 0real ==> drawn(sorted, to_fill, from, taken).1 >= 0real,
    decreases sorted.len() - from,
{
    if from < sorted.len() && to_fill > 0real {
        let t = sorted[from];
        if t.amount <= to_fill {
            draw_accounts_for_the_volume(sorted, to_fill - t.amount, from + 1, taken.push(t));
            assert(taken.push(t).drop_last() =~= taken);
        } else {
            let part = TradeView { amount: to_fill, ..t };
            assert(taken.push(part).drop_last() =~= taken);
        }
    }
}

/// What the baskets give and what the last of them leaves unfilled make
/// up the shares that they were asked for: the part of `volume` that their
/// volume is of `total`.
pub proof fn fill_accounts_for_the_volume(
    baskets: Seq<Seq<TradeView>>,
    total: real,
    volume: real,
    direction: Direction,
)
    requires
        total != 0real,
    ensures
        total_amount(filled(baskets, total, volume, direction).0) + filled(
            baskets,
            total,
            volume,
            direction,
        ).1 == (total_volume(baskets) / total) * volume,
    decreases baskets.len(),
{
    if baskets.len() == 0 {
        assert((0real / total) * volume == 0real) by (nonlinear_arith)
            requires
                total != 0real,
        ;
    } else {
        let init = baskets.drop_last();
        fill_accounts_for_the_volume(init, total, volume, direction);
        let (used, carry) = filled(init, total, volume, direction);
        let own = total_amount(baskets.last());
        let to_fill = (own / total) * volume + carry;
        let (taken, unfilled) = basket_fill(baskets.last(), to_fill, direction);
        draw_accounts_for_the_volume(
            price_ordered(baskets.last(), direction),
            to_fill,
            0,
            Seq::empty(),
        );
        lemma_total_amount_of_both(used, taken);
        let before = total_volume(init);
        assert(((before + own) / total) * volume == (before / total) * volume + (own / total)
            * volume) by (nonlinear_arith)
            requires
                total != 0real,
        ;
    }
}

} // verus!
