//! Filling a volume from the baskets: each basket is asked for its share,
//! gives its most favourable prices first, and passes on what it lacks.

use crate::cex::basket::{total_amount, TimeBasket};
use crate::cex::trades::{CexTrades, Direction, TradeView};
use crate::rational::Ratio;
use vstd::prelude::*;

verus! {

/// Whether the price of `a` is strictly more favourable than that of `b`:
/// lower when buying, higher when selling.
pub open spec fn better_price(a: TradeView, b: TradeView, direction: Direction) -> bool {
    match direction {
        Direction::Buy => a.price < b.price,
        Direction::Sell => a.price > b.price,
    }
}

/// Where `trade` goes into `sorted`, searching from `from`: before the first
/// trade whose price it beats, else at the end.
pub open spec fn insert_position(
    sorted: Seq<TradeView>,
    trade: TradeView,
    direction: Direction,
    from: int,
) -> int
    decreases sorted.len() - from,
{
    if from < 0 || from >= sorted.len() {
        sorted.len() as int
    } else if better_price(trade, sorted[from], direction) {
        from
    } else {
        insert_position(sorted, trade, direction, from + 1)
    }
}

/// The trades from the most to the least favourable price; trades of equal
/// price keep their order.
pub open spec fn price_ordered(trades: Seq<TradeView>, direction: Direction) -> Seq<TradeView>
    decreases trades.len(),
{
    if trades.len() == 0 {
        Seq::empty()
    } else {
        let sorted = price_ordered(trades.drop_last(), direction);
        sorted.insert(insert_position(sorted, trades.last(), direction, 0), trades.last())
    }
}

/// The position of an insertion lies between the start of the search and
/// the end of the sequence.
pub proof fn lemma_insert_position(
    sorted: Seq<TradeView>,
    trade: TradeView,
    direction: Direction,
    from: int,
)
    requires
        0 <= from <= sorted.len(),
    ensures
        from <= insert_position(sorted, trade, direction, from) <= sorted.len(),
    decreases sorted.len() - from,
{
    if from < sorted.len() && !better_price(trade, sorted[from], direction) {
        lemma_insert_position(sorted, trade, direction, from + 1);
    }
}

/// Takes trades of `sorted` from position `from` on until `to_fill` is met:
/// a trade that fits is taken whole, and the first that does not is taken
/// for what is still missing. Gives the trades taken, after `taken`, and the
/// volume left unfilled.
pub open spec fn drawn(sorted: Seq<TradeView>, to_fill: real, from: int, taken: Seq<TradeView>) -> (
    Seq<TradeView>,
    real,
)
    decreases sorted.len() - from,
{
    if from < 0 || from >= sorted.len() || to_fill <= 0real {
        (taken, to_fill)
    } else if sorted[from].amount <= to_fill {
        drawn(sorted, to_fill - sorted[from].amount, from + 1, taken.push(sorted[from]))
    } else {
        (taken.push(TradeView { amount: to_fill, ..sorted[from] }), 0real)
    }
}

/// The trades that a basket gives towards `to_fill`, and the volume it
/// leaves unfilled.
pub open spec fn basket_fill(basket: Seq<TradeView>, to_fill: real, direction: Direction) -> (
    Seq<TradeView>,
    real,
) {
    drawn(price_ordered(basket, direction), to_fill, 0, Seq::empty())
}

/// The trades that the baskets give, in queue order, towards `volume`, and
/// the volume that the last basket leaves unfilled. Each basket is asked for
/// its share of `volume`, by its part in `total`, and for what the baskets
/// before it left unfilled.
pub open spec fn filled(
    baskets: Seq<Seq<TradeView>>,
    total: real,
    volume: real,
    direction: Direction,
) -> (Seq<TradeView>, real)
    decreases baskets.len(),
{
    if baskets.len() == 0 {
        (Seq::empty(), 0real)
    } else {
        let (used, carry) = filled(baskets.drop_last(), total, volume, direction);
        let to_fill = (total_amount(baskets.last()) / total) * volume + carry;
        let (taken, unfilled) = basket_fill(baskets.last(), to_fill, direction);
        (used + taken, unfilled)
    }
}

/// Whether the price of `a` is strictly more favourable than that of `b`.
fn beats(a: &CexTrades, b: &CexTrades, direction: Direction) -> (r: bool)
    ensures
        r == better_price(a.deep_view(), b.deep_view(), direction),
{
    match direction {
        Direction::Buy => a.price().lt(b.price()),
        Direction::Sell => b.price().lt(a.price()),
    }
}

/// The trades from the most to the least favourable price.
pub fn price_order(trades: &Vec<CexTrades>, direction: Direction) -> (sorted: Vec<CexTrades>)
    ensures
        sorted.deep_view() == price_ordered(trades.deep_view(), direction),
{
    let ghost all = trades.deep_view();
    let mut sorted: Vec<CexTrades> = Vec::new();
    let mut i: usize = 0;
    while i < trades.len()
        invariant
            i <= trades.len(),
            all == trades.deep_view(),
            sorted.deep_view() == price_ordered(all.take(i as int), direction),
        decreases trades.len() - i,
    {
        let trade = &trades[i];
        let ghost before = sorted.deep_view();
        let mut j: usize = 0;
        while j < sorted.len() && !beats(trade, &sorted[j], direction)
            invariant
                j <= sorted.len(),
                before == sorted.deep_view(),
                insert_position(before, trade.deep_view(), direction, 0) == insert_position(
                    before,
                    trade.deep_view(),
                    direction,
                    j as int,
                ),
            decreases sorted.len() - j,
        {
            j = j + 1;
        }
        sorted.insert(j, trade.clone());
        proof {
            assert(all.take(i + 1).drop_last() =~= all.take(i as int));
        }
        i = i + 1;
    }
    assert(all.take(i as int) =~= all);
    sorted
}

impl TimeBasket {
    /// The trades that this basket gives towards `volume_to_fill`, most
    /// favourable price first, and the volume it leaves unfilled.
    pub fn get_trades_used(&self, volume_to_fill: &Ratio, direction: Direction) -> (out: (
        Vec<CexTrades>,
        Ratio,
    ))
        ensures
            (out.0.deep_view(), out.1@) == basket_fill(
                self.deep_view(),
                volume_to_fill@,
                direction,
            ),
    {
        let sorted = price_order(&self.trades, direction);
        let ghost order = sorted.deep_view();
        let mut taken: Vec<CexTrades> = Vec::new();
        let mut remaining = volume_to_fill.clone();
        let mut i: usize = 0;
        assert(taken.deep_view() =~= Seq::<TradeView>::empty());
        while i < sorted.len()
            invariant
                i <= sorted.len(),
                order == sorted.deep_view(),
                order == price_ordered(self.deep_view(), direction),
                basket_fill(self.deep_view(), volume_to_fill@, direction) == drawn(
                    order,
                    remaining@,
                    i as int,
                    taken.deep_view(),
                ),
            decreases sorted.len() - i,
        {
            if !remaining.is_positive() {
                return (taken, remaining);
            }
            let trade = &sorted[i];
            let ghost before = taken.deep_view();
            if trade.amount().le(&remaining) {
                remaining = remaining.sub(trade.amount());
                taken.push(trade.clone());
                assert(taken.deep_view() =~= before.push(trade.deep_view()));
            } else {
                if let Some(part) = trade.with_amount(remaining) {
                    taken.push(part);
                }
                return (taken, Ratio::zero());
            }
            i = i + 1;
        }
        (taken, remaining)
    }
}

/// The trades that the baskets give, in queue order, towards `volume`, and
/// the volume that the last basket leaves unfilled.
pub fn fill_baskets(
    baskets: &Vec<TimeBasket>,
    total: &Ratio,
    volume: &Ratio,
    direction: Direction,
) -> (out: (Vec<CexTrades>, Ratio))
    requires
        total@ != 0real,
        forall|k: int| 0 <= k < baskets.len() ==> (#[trigger] baskets[k]).wf(),
    ensures
        (out.0.deep_view(), out.1@) == filled(baskets.deep_view(), total@, volume@, direction),
{
    let ghost all = baskets.deep_view();
    let mut trades_used: Vec<CexTrades> = Vec::new();
    let mut unfilled = Ratio::zero();
    let mut k: usize = 0;
    while k < baskets.len()
        invariant
            k <= baskets.len(),
            all == baskets.deep_view(),
            total@ != 0real,
            forall|j: int| 0 <= j < baskets.len() ==> (#[trigger] baskets[j]).wf(),
            (trades_used.deep_view(), unfilled@) == filled(
                all.take(k as int),
                total@,
                volume@,
                direction,
            ),
        decreases baskets.len() - k,
    {
        let basket = &baskets[k];
        let to_fill = basket.volume.div(total).mul(volume).add(&unfilled);
        let (mut basket_trades, basket_unfilled) = basket.get_trades_used(&to_fill, direction);
        unfilled = basket_unfilled;
        trades_used.append(&mut basket_trades);
        proof {
            assert(all.take(k + 1).drop_last() =~= all.take(k as int));
        }
        k = k + 1;
    }
    assert(all.take(k as int) =~= all);
    (trades_used, unfilled)
}

} // verus!
