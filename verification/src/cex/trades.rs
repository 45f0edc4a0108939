//! Trades and the per-pair trade streams of one block.

use crate::cex::exchange::CexExchange;
use crate::pair::Pair;
use crate::rational::Ratio;
use vstd::prelude::*;

verus! {

/// Which way a stream is read: `Sell` as stored, `Buy` through the flipped
/// pair.
#[derive(Clone, Copy, Debug, PartialEq, Eq, Hash, Structural)]
pub enum Direction {
    Buy,
    Sell,
}

/// What a [`CexTrades`] denotes.
pub struct TradeView {
    pub exchange: CexExchange,
    pub timestamp: u64,
    pub price: real,
    pub amount: real,
    pub weight: real,
}

/// Whether a trade can be: its price is above zero, its amount is not
/// below zero, and its weight is above zero and at most one.
pub open spec fn valid_trade(trade: TradeView) -> bool {
    &&& trade.price > 0real
    &&& trade.amount >= 0real
    &&& 0real < trade.weight <= 1real
}

/// Whether every trade of `trades` can be.
pub open spec fn all_valid(trades: Seq<TradeView>) -> bool {
    forall|i: int| 0 <= i < trades.len() ==> valid_trade(#[trigger] trades[i])
}

/// One trade on a centralized exchange, with the temporal weight it has for
/// the block that is being priced. The price is above zero, the amount is
/// not below zero, and the weight is above zero and at most one.
pub struct CexTrades {
    exchange: CexExchange,
    timestamp: u64,
    price: Ratio,
    amount: Ratio,
    weight: Ratio,
}

impl DeepView for CexTrades {
    type V = TradeView;

    closed spec fn deep_view(&self) -> TradeView {
        TradeView {
            exchange: self.exchange,
            timestamp: self.timestamp,
            price: self.price@,
            amount: self.amount@,
            weight: self.weight@,
        }
    }
}

/// A trade read in a direction: as it is for `Sell`; for `Buy` the price is
/// inverted and the amount is expressed in the other token.
pub open spec fn adjusted(trade: TradeView, direction: Direction) -> TradeView {
    match direction {
        Direction::Sell => trade,
        Direction::Buy => TradeView {
            exchange: trade.exchange,
            timestamp: trade.timestamp,
            price: 1real / trade.price,
            amount: trade.amount * trade.price,
            weight: trade.weight,
        },
    }
}

/// Every trade of a stream read in a direction.
pub open spec fn adjusted_stream(trades: Seq<TradeView>, direction: Direction) -> Seq<TradeView> {
    trades.map_values(|t: TradeView| adjusted(t, direction))
}

impl Clone for CexTrades {
    fn clone(&self) -> (t: CexTrades)
        ensures
            t.deep_view() == self.deep_view(),
    {
        proof {
            use_type_invariant(self);
        }
        CexTrades {
            exchange: self.exchange,
            timestamp: self.timestamp,
            price: self.price.clone(),
            amount: self.amount.clone(),
            weight: self.weight.clone(),
        }
    }
}

impl CexTrades {
    #[verifier::type_invariant]
    pub closed spec fn wf(&self) -> bool {
        valid_trade(self.deep_view())
    }

    /// A trade; `None` unless the price is above zero, the amount is not
    /// below zero, and the weight is above zero and at most one.
    pub fn new(
        exchange: CexExchange,
        timestamp: u64,
        price: Ratio,
        amount: Ratio,
        weight: Ratio,
    ) -> (t: Option<CexTrades>)
        ensures
            t is Some <==> valid_trade(
                TradeView { exchange, timestamp, price: price@, amount: amount@, weight: weight@ },
            ),
            t matches Some(trade) ==> trade.deep_view() == (TradeView {
                exchange,
                timestamp,
                price: price@,
                amount: amount@,
                weight: weight@,
            }),
    {
        let zero = Ratio::zero();
        let one = Ratio::one();
        if price.is_positive() && zero.le(&amount) && weight.is_positive() && weight.le(&one) {
            Some(CexTrades { exchange, timestamp, price, amount, weight })
        } else {
            None
        }
    }

    pub fn exchange(&self) -> (e: CexExchange)
        ensures
            e == self.deep_view().exchange,
    {
        self.exchange
    }

    pub fn timestamp(&self) -> (t: u64)
        ensures
            t == self.deep_view().timestamp,
    {
        self.timestamp
    }

    pub fn price(&self) -> (p: &Ratio)
        ensures
            p@ == self.deep_view().price,
            p@ > 0real,
    {
        proof {
            use_type_invariant(self);
        }
        &self.price
    }

    pub fn amount(&self) -> (a: &Ratio)
        ensures
            a@ == self.deep_view().amount,
            a@ >= 0real,
    {
        proof {
            use_type_invariant(self);
        }
        &self.amount
    }

    pub fn weight(&self) -> (w: &Ratio)
        ensures
            w@ == self.deep_view().weight,
            0real < w@ <= 1real,
    {
        proof {
            use_type_invariant(self);
        }
        &self.weight
    }

    /// The same trade with another amount; `None` for an amount below
    /// zero.
    pub fn with_amount(&self, amount: Ratio) -> (t: Option<CexTrades>)
        ensures
            t is Some <==> amount@ >= 0real,
            t matches Some(trade) ==> trade.deep_view() == (TradeView {
                amount: amount@,
                ..self.deep_view()
            }),
    {
        proof {
            use_type_invariant(self);
        }
        let zero = Ratio::zero();
        if zero.le(&amount) {
            Some(
                CexTrades {
                    exchange: self.exchange,
                    timestamp: self.timestamp,
                    price: self.price.clone(),
                    amount,
                    weight: self.weight.clone(),
                },
            )
        } else {
            None
        }
    }

    /// This trade read in `direction`.
    pub fn adjust_for_direction(&self, direction: Direction) -> (t: CexTrades)
        ensures
            t.deep_view() == adjusted(self.deep_view(), direction),
    {
        proof {
            use_type_invariant(self);
        }
        match direction {
            Direction::Sell => self.clone(),
            Direction::Buy => {
                let one = Ratio::one();
                let price = one.div(&self.price);
                let amount = self.amount.mul(&self.price);
                assert(price@ > 0real) by (nonlinear_arith)
                    requires
                        price@ == 1real / self.price@,
                        self.price@ > 0real,
                ;
                assert(amount@ >= 0real) by (nonlinear_arith)
                    requires
                        amount@ == self.amount@ * self.price@,
                        self.amount@ >= 0real,
                        self.price@ > 0real,
                ;
                CexTrades {
                    exchange: self.exchange,
                    timestamp: self.timestamp,
                    price,
                    amount,
                    weight: self.weight.clone(),
                }
            },
        }
    }
}

/// The trades of one pair in one block, in the order of the stream, with the
/// positions of the trades nearest to the block time as recorded with them.
pub struct PairTrades {
    pub pair: Pair,
    pub indices: (usize, usize),
    pub trades: Vec<CexTrades>,
}

/// What a [`PairTrades`] denotes.
pub struct PairTradesView {
    pub pair: Pair,
    pub indices: (usize, usize),
    pub trades: Seq<TradeView>,
}

impl DeepView for PairTrades {
    type V = PairTradesView;

    open spec fn deep_view(&self) -> PairTradesView {
        PairTradesView {
            pair: self.pair,
            indices: self.indices,
            trades: self.trades.deep_view(),
        }
    }
}

/// The trade streams of one block. Where a pair occurs twice, its first
/// stream counts.
pub struct SortedTrades {
    pub entries: Vec<PairTrades>,
}

impl DeepView for SortedTrades {
    type V = Seq<PairTradesView>;

    open spec fn deep_view(&self) -> Seq<PairTradesView> {
        self.entries.deep_view()
    }
}

/// A stream selected for a pair, read in its direction.
pub struct OptimisticTradeData {
    pub indices: (usize, usize),
    pub trades: Vec<CexTrades>,
    pub direction: Direction,
}

/// What an [`OptimisticTradeData`] denotes.
pub struct TradeDataView {
    pub indices: (usize, usize),
    pub trades: Seq<TradeView>,
    pub direction: Direction,
}

impl DeepView for OptimisticTradeData {
    type V = TradeDataView;

    open spec fn deep_view(&self) -> TradeDataView {
        TradeDataView {
            indices: self.indices,
            trades: self.trades.deep_view(),
            direction: self.direction,
        }
    }
}

/// Trades grouped by exchange, borrowed from their streams.
pub struct Trades<'a> {
    pub trades: Vec<(CexExchange, Vec<&'a CexTrades>)>,
    pub direction: Direction,
}

/// Position of the first stream for `pair` from position `from` on, if any.
pub open spec fn position_from(entries: Seq<PairTradesView>, pair: Pair, from: int) -> Option<int>
    decreases entries.len() - from,
{
    if from < 0 || from >= entries.len() {
        None
    } else if entries[from].pair == pair {
        Some(from)
    } else {
        position_from(entries, pair, from + 1)
    }
}

/// Position of the first stream for `pair`, if any.
pub open spec fn position_of(entries: Seq<PairTradesView>, pair: Pair) -> Option<int> {
    position_from(entries, pair, 0)
}

/// The stream that prices `pair`: its own stream as stored, else that of the
/// flipped pair read as `Buy`, else none.
pub open spec fn trade_stream(entries: Seq<PairTradesView>, pair: Pair) -> Option<TradeDataView> {
    match position_of(entries, pair) {
        Some(i) => Some(
            TradeDataView {
                indices: entries[i].indices,
                trades: adjusted_stream(entries[i].trades, Direction::Sell),
                direction: Direction::Sell,
            },
        ),
        None => match position_of(entries, pair.flip_spec()) {
            Some(i) => Some(
                TradeDataView {
                    indices: entries[i].indices,
                    trades: adjusted_stream(entries[i].trades, Direction::Buy),
                    direction: Direction::Buy,
                },
            ),
            None => None,
        },
    }
}

/// Whether no pair has two streams.
pub open spec fn distinct_pairs(entries: Seq<PairTradesView>) -> bool {
    forall|i: int, j: int|
        0 <= i < j < entries.len() ==> (#[trigger] entries[i]).pair != (#[trigger] entries[j]).pair
}

/// The search from `from` on finds the first stream of the pair.
proof fn lemma_position_from(entries: Seq<PairTradesView>, pair: Pair, from: int, at: int)
    requires
        0 <= from <= at < entries.len(),
        entries[at].pair == pair,
        forall|j: int| from <= j < at ==> (#[trigger] entries[j]).pair != pair,
    ensures
        position_from(entries, pair, from) == Some(at),
    decreases at - from,
{
    if from < at {
        lemma_position_from(entries, pair, from + 1, at);
    }
}

/// Where no pair has two streams, the streams are a map from pairs: the
/// stream of a pair is the one found for it.
pub proof fn stream_of_a_pair_is_found(entries: Seq<PairTradesView>, pair: Pair, at: int)
    requires
        distinct_pairs(entries),
        0 <= at < entries.len(),
        entries[at].pair == pair,
    ensures
        position_of(entries, pair) == Some(at),
{
    lemma_position_from(entries, pair, 0, at);
}

impl PairTrades {
    /// Every trade of the stream read in `direction`.
    pub fn adjusted_trades(&self, direction: Direction) -> (out: Vec<CexTrades>)
        ensures
            out.deep_view() == adjusted_stream(self.trades.deep_view(), direction),
    {
        let mut out: Vec<CexTrades> = Vec::new();
        let mut i: usize = 0;
        while i < self.trades.len()
            invariant
                i <= self.trades.len(),
                out.len() == i,
                forall|j: int|
                    0 <= j < i ==> (#[trigger] out[j]).deep_view() == adjusted(
                        self.trades[j].deep_view(),
                        direction,
                    ),
            decreases self.trades.len() - i,
        {
            out.push(self.trades[i].adjust_for_direction(direction));
            i = i + 1;
        }
        out
    }
}

impl SortedTrades {
    /// Position of the first stream for `pair`.
    pub fn position(&self, pair: Pair) -> (p: Option<usize>)
        ensures
            p matches Some(i) ==> position_of(self.deep_view(), pair) == Some(i as int) && i
                < self.entries.len(),
            p is None ==> position_of(self.deep_view(), pair) is None,
    {
        let ghost entries = self.deep_view();
        let mut i: usize = 0;
        while i < self.entries.len()
            invariant
                i <= self.entries.len(),
                entries == self.deep_view(),
                position_of(entries, pair) == position_from(entries, pair, i as int),
            decreases self.entries.len() - i,
        {
            if self.entries[i].pair == pair {
                return Some(i);
            }
            i = i + 1;
        }
        None
    }

    /// The stream that prices `pair`: its own stream as stored, else that of
    /// the flipped pair read as `Buy`; `None` where the block has neither.
    pub fn get_trades(&self, pair: Pair) -> (data: Option<OptimisticTradeData>)
        ensures
            data.deep_view() == trade_stream(self.deep_view(), pair),
    {
        match self.position(pair) {
            Some(i) => {
                let entry = &self.entries[i];
                Some(
                    OptimisticTradeData {
                        indices: entry.indices,
                        trades: entry.adjusted_trades(Direction::Sell),
                        direction: Direction::Sell,
                    },
                )
            },
            None => match self.position(pair.flip()) {
                Some(i) => {
                    let entry = &self.entries[i];
                    Some(
                        OptimisticTradeData {
                            indices: entry.indices,
                            trades: entry.adjusted_trades(Direction::Buy),
                            direction: Direction::Buy,
                        },
                    )
                },
                None => None,
            },
        }
    }
}

} // verus!
