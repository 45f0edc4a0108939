//! Time baskets: the trades around a block, grouped by how far the time
//! window had to be widened to reach them.

use crate::cex::trades::{CexTrades, Direction, OptimisticTradeData, TradeView};
use crate::rational::Ratio;
use vstd::prelude::*;

verus! {

/// Distance after the block, in microseconds, beyond which the window
/// widens towards the past as well.
pub const PRE_SCALING_DIFF: u64 = 200_000;

/// Microseconds by which one expansion widens a side of the window.
pub const TIME_STEP: u64 = 100_000;

/// The time window that reaches `pre` microseconds before and `post`
/// microseconds after the block time, both bounds included.
#[derive(Clone, Copy, Debug, PartialEq, Eq, Structural)]
pub struct Window {
    pub pre: u64,
    pub post: u64,
}

/// `a + b`, held at the largest `u64`.
pub open spec fn saturating_sum(a: u64, b: u64) -> u64 {
    if a + b > u64::MAX {
        u64::MAX
    } else {
        (a + b) as u64
    }
}

/// `a + b`, held at the largest `u64`.
pub fn saturating_add(a: u64, b: u64) -> (c: u64)
    ensures
        c == saturating_sum(a, b),
{
    if a > u64::MAX - b {
        u64::MAX
    } else {
        a + b
    }
}

impl Window {
    /// Whether `timestamp` lies in the window around `block_time`.
    pub open spec fn holds(self, block_time: u64, timestamp: u64) -> bool {
        block_time - self.pre <= timestamp <= block_time + self.post
    }

    /// The window widened by `pre_step` before and `post_step` after.
    pub open spec fn widened(self, pre_step: u64, post_step: u64) -> Window {
        Window {
            pre: saturating_sum(self.pre, pre_step),
            post: saturating_sum(self.post, post_step),
        }
    }

    /// Whether `timestamp` lies in the window around `block_time`.
    pub fn contains(&self, block_time: u64, timestamp: u64) -> (b: bool)
        ensures
            b == self.holds(block_time, timestamp),
    {
        if timestamp >= block_time {
            timestamp - block_time <= self.post
        } else {
            block_time - timestamp <= self.pre
        }
    }
}

/// Whether a trade at `timestamp` is reached by `outer` and was not yet
/// reached by `inner`.
pub open spec fn newly_reached(
    block_time: u64,
    inner: Option<Window>,
    outer: Window,
    timestamp: u64,
) -> bool {
    outer.holds(block_time, timestamp) && match inner {
        Some(w) => !w.holds(block_time, timestamp),
        None => true,
    }
}

/// The trades of `stream`, in order, that `outer` reaches and `inner` did not.
pub open spec fn ring(
    stream: Seq<TradeView>,
    block_time: u64,
    inner: Option<Window>,
    outer: Window,
) -> Seq<TradeView>
    decreases stream.len(),
{
    if stream.len() == 0 {
        Seq::empty()
    } else {
        let rest = ring(stream.drop_last(), block_time, inner, outer);
        if newly_reached(block_time, inner, outer, stream.last().timestamp) {
            rest.push(stream.last())
        } else {
            rest
        }
    }
}

/// The sum of the amounts of `trades`.
pub open spec fn total_amount(trades: Seq<TradeView>) -> real
    decreases trades.len(),
{
    if trades.len() == 0 {
        0real
    } else {
        total_amount(trades.drop_last()) + trades.last().amount
    }
}

/// The sum of the amounts of all trades of `baskets`.
pub open spec fn total_volume(baskets: Seq<Seq<TradeView>>) -> real
    decreases baskets.len(),
{
    if baskets.len() == 0 {
        0real
    } else {
        total_volume(baskets.drop_last()) + total_amount(baskets.last())
    }
}

/// The trades that one step of the window reached, with their volume.
pub struct TimeBasket {
    pub trades: Vec<CexTrades>,
    pub volume: Ratio,
}

impl DeepView for TimeBasket {
    type V = Seq<TradeView>;

    open spec fn deep_view(&self) -> Seq<TradeView> {
        self.trades.deep_view()
    }
}

impl TimeBasket {
    /// The volume is the sum of the amounts of the trades.
    pub open spec fn wf(&self) -> bool {
        self.volume@ == total_amount(self.trades.deep_view())
    }

    /// The trades of `stream` that `outer` reaches and `inner` did not.
    pub fn collect(
        stream: &Vec<CexTrades>,
        block_time: u64,
        inner: Option<Window>,
        outer: Window,
    ) -> (basket: TimeBasket)
        ensures
            basket.wf(),
            basket.deep_view() == ring(stream.deep_view(), block_time, inner, outer),
    {
        let ghost all = stream.deep_view();
        let mut trades: Vec<CexTrades> = Vec::new();
        let mut volume = Ratio::zero();
        let mut i: usize = 0;
        while i < stream.len()
            invariant
                i <= stream.len(),
                all == stream.deep_view(),
                trades.deep_view() == ring(all.take(i as int), block_time, inner, outer),
                volume@ == total_amount(trades.deep_view()),
            decreases stream.len() - i,
        {
            let trade = &stream[i];
            let reached = outer.contains(block_time, trade.timestamp()) && match inner {
                Some(w) => !w.contains(block_time, trade.timestamp()),
                None => true,
            };
            proof {
                let prefix = all.take(i + 1);
                assert(prefix.drop_last() =~= all.take(i as int));
            }
            if reached {
                let ghost before = trades.deep_view();
                volume = volume.add(trade.amount());
                trades.push(trade.clone());
                proof {
                    assert(trades.deep_view().drop_last() =~= before);
                }
            }
            i = i + 1;
        }
        assert(all.take(i as int) =~= all);
        TimeBasket { trades, volume }
    }
}

/// What a [`TimeBasketQueue`] denotes.
pub struct QueueView {
    pub stream: Seq<TradeView>,
    pub direction: Direction,
    pub block_time: u64,
    pub window: Window,
    pub baskets: Seq<Seq<TradeView>>,
    pub volume: real,
}

/// The queue over `stream` before any basket is made.
pub open spec fn empty_queue(stream: Seq<TradeView>, direction: Direction, block_time: u64) -> QueueView {
    QueueView {
        stream,
        direction,
        block_time,
        window: Window { pre: 0, post: 0 },
        baskets: Seq::empty(),
        volume: 0real,
    }
}

/// The queue with its first basket: the trades at the block time itself.
pub open spec fn seeded_queue(queue: QueueView) -> QueueView {
    let first = ring(queue.stream, queue.block_time, None, queue.window);
    QueueView {
        baskets: queue.baskets.push(first),
        volume: queue.volume + total_amount(first),
        ..queue
    }
}

/// The queue after one expansion: the window is widened and the trades that
/// it newly reaches form the next basket.
pub open spec fn expanded_queue(queue: QueueView, pre_step: u64, post_step: u64) -> QueueView {
    let outer = queue.window.widened(pre_step, post_step);
    let next = ring(queue.stream, queue.block_time, Some(queue.window), outer);
    QueueView {
        window: outer,
        baskets: queue.baskets.push(next),
        volume: queue.volume + total_amount(next),
        ..queue
    }
}

/// The trades around a block time, nearest basket first.
pub struct TimeBasketQueue {
    pub stream: Vec<CexTrades>,
    pub direction: Direction,
    pub block_time: u64,
    pub window: Window,
    pub baskets: Vec<TimeBasket>,
    pub volume: Ratio,
}

impl DeepView for TimeBasketQueue {
    type V = QueueView;

    open spec fn deep_view(&self) -> QueueView {
        QueueView {
            stream: self.stream.deep_view(),
            direction: self.direction,
            block_time: self.block_time,
            window: self.window,
            baskets: self.baskets.deep_view(),
            volume: self.volume@,
        }
    }
}

impl TimeBasketQueue {
    /// Every basket holds the sum of its amounts as its volume.
    pub open spec fn wf(&self) -> bool {
        forall|k: int| 0 <= k < self.baskets.len() ==> (#[trigger] self.baskets[k]).wf()
    }

    /// The queue over a stream, with no basket yet.
    pub fn new(trade_data: OptimisticTradeData, block_timestamp: u64) -> (queue: TimeBasketQueue)
        ensures
            queue.wf(),
            queue.deep_view() == empty_queue(
                trade_data.trades.deep_view(),
                trade_data.direction,
                block_timestamp,
            ),
    {
        let queue = TimeBasketQueue {
            stream: trade_data.trades,
            direction: trade_data.direction,
            block_time: block_timestamp,
            window: Window { pre: 0, post: 0 },
            baskets: Vec::new(),
            volume: Ratio::zero(),
        };
        assert(queue.baskets.deep_view() =~= Seq::<Seq<TradeView>>::empty());
        queue
    }

    /// Makes the first basket, from the trades at the block time itself.
    pub fn construct_time_baskets(&mut self)
        requires
            old(self).wf(),
        ensures
            final(self).wf(),
            final(self).deep_view() == seeded_queue(old(self).deep_view()),
    {
        let ghost before = self.baskets.deep_view();
        let basket = TimeBasket::collect(&self.stream, self.block_time, None, self.window);
        self.volume = self.volume.add(&basket.volume);
        self.baskets.push(basket);
        assert(self.baskets.deep_view() =~= before.push(basket.deep_view()));
    }

    /// Microseconds that the window reaches before the block time.
    pub fn get_min_time_delta(&self) -> (delta: u64)
        ensures
            delta == self.window.pre,
    {
        self.window.pre
    }

    /// Microseconds that the window reaches after the block time.
    pub fn get_max_time_delta(&self) -> (delta: u64)
        ensures
            delta == self.window.post,
    {
        self.window.post
    }

    /// Widens the window by `min_expand` before and `max_expand` after the
    /// block time; the trades newly reached become the next basket.
    pub fn expand_time_bounds(&mut self, min_expand: u64, max_expand: u64)
        requires
            old(self).wf(),
        ensures
            final(self).wf(),
            final(self).deep_view() == expanded_queue(
                old(self).deep_view(),
                min_expand,
                max_expand,
            ),
    {
        let ghost before = self.baskets.deep_view();
        let outer = Window {
            pre: saturating_add(self.window.pre, min_expand),
            post: saturating_add(self.window.post, max_expand),
        };
        let basket = TimeBasket::collect(&self.stream, self.block_time, Some(self.window), outer);
        self.volume = self.volume.add(&basket.volume);
        self.window = outer;
        self.baskets.push(basket);
        assert(self.baskets.deep_view() =~= before.push(basket.deep_view()));
    }
}

} // verus!
