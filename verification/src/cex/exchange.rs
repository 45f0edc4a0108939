//! Exchanges, their fee schedule and their assumed execution quality.

use crate::pair::Pair;
use crate::rational::Ratio;
use vstd::prelude::*;

verus! {

/// Share of an exchange's trades, in percent, that an arbitrageur is assumed
/// to capture where no table says otherwise.
pub const BASE_EXECUTION_QUALITY: usize = 70;

/// A centralized exchange.
#[derive(Clone, Copy, Debug, PartialEq, Eq, Hash, Structural)]
pub enum CexExchange {
    Binance,
    Bitmex,
    Deribit,
    Okex,
    Coinbase,
    Kraken,
    BybitSpot,
    Kucoin,
    Upbit,
    Huobi,
    GateIo,
    Bitstamp,
    Gemini,
    Unknown,
}

/// Number of exchanges.
pub const EXCHANGE_COUNT: usize = 14;

impl CexExchange {
    /// Position of the exchange in the declaration order.
    pub open spec fn ordinal_spec(self) -> int {
        match self {
            CexExchange::Binance => 0,
            CexExchange::Bitmex => 1,
            CexExchange::Deribit => 2,
            CexExchange::Okex => 3,
            CexExchange::Coinbase => 4,
            CexExchange::Kraken => 5,
            CexExchange::BybitSpot => 6,
            CexExchange::Kucoin => 7,
            CexExchange::Upbit => 8,
            CexExchange::Huobi => 9,
            CexExchange::GateIo => 10,
            CexExchange::Bitstamp => 11,
            CexExchange::Gemini => 12,
            CexExchange::Unknown => 13,
        }
    }

    /// The exchange at a position of the declaration order; `Unknown` past
    /// the last.
    pub open spec fn at_spec(ordinal: int) -> CexExchange {
        if ordinal == 0 {
            CexExchange::Binance
        } else if ordinal == 1 {
            CexExchange::Bitmex
        } else if ordinal == 2 {
            CexExchange::Deribit
        } else if ordinal == 3 {
            CexExchange::Okex
        } else if ordinal == 4 {
            CexExchange::Coinbase
        } else if ordinal == 5 {
            CexExchange::Kraken
        } else if ordinal == 6 {
            CexExchange::BybitSpot
        } else if ordinal == 7 {
            CexExchange::Kucoin
        } else if ordinal == 8 {
            CexExchange::Upbit
        } else if ordinal == 9 {
            CexExchange::Huobi
        } else if ordinal == 10 {
            CexExchange::GateIo
        } else if ordinal == 11 {
            CexExchange::Bitstamp
        } else if ordinal == 12 {
            CexExchange::Gemini
        } else {
            CexExchange::Unknown
        }
    }

    /// The exchange at a position of the declaration order; `Unknown` past
    /// the last.
    pub fn at(ordinal: usize) -> (e: CexExchange)
        ensures
            e == CexExchange::at_spec(ordinal as int),
    {
        if ordinal == 0 {
            CexExchange::Binance
        } else if ordinal == 1 {
            CexExchange::Bitmex
        } else if ordinal == 2 {
            CexExchange::Deribit
        } else if ordinal == 3 {
            CexExchange::Okex
        } else if ordinal == 4 {
            CexExchange::Coinbase
        } else if ordinal == 5 {
            CexExchange::Kraken
        } else if ordinal == 6 {
            CexExchange::BybitSpot
        } else if ordinal == 7 {
            CexExchange::Kucoin
        } else if ordinal == 8 {
            CexExchange::Upbit
        } else if ordinal == 9 {
            CexExchange::Huobi
        } else if ordinal == 10 {
            CexExchange::GateIo
        } else if ordinal == 11 {
            CexExchange::Bitstamp
        } else if ordinal == 12 {
            CexExchange::Gemini
        } else {
            CexExchange::Unknown
        }
    }

    /// Position of the exchange in the declaration order.
    pub fn ordinal(&self) -> (i: usize)
        ensures
            i == self.ordinal_spec(),
            i < EXCHANGE_COUNT,
    {
        match self {
            CexExchange::Binance => 0,
            CexExchange::Bitmex => 1,
            CexExchange::Deribit => 2,
            CexExchange::Okex => 3,
            CexExchange::Coinbase => 4,
            CexExchange::Kraken => 5,
            CexExchange::BybitSpot => 6,
            CexExchange::Kucoin => 7,
            CexExchange::Upbit => 8,
            CexExchange::Huobi => 9,
            CexExchange::GateIo => 10,
            CexExchange::Bitstamp => 11,
            CexExchange::Gemini => 12,
            CexExchange::Unknown => 13,
        }
    }
}

/// Maker and taker fee of one exchange, each a fraction of the traded value.
pub struct ExchangeFees {
    pub exchange: CexExchange,
    pub maker: Ratio,
    pub taker: Ratio,
}

/// What an [`ExchangeFees`] denotes.
pub struct ExchangeFeesView {
    pub exchange: CexExchange,
    pub maker: real,
    pub taker: real,
}

impl DeepView for ExchangeFees {
    type V = ExchangeFeesView;

    open spec fn deep_view(&self) -> ExchangeFeesView {
        ExchangeFeesView { exchange: self.exchange, maker: self.maker@, taker: self.taker@ }
    }
}

/// The fees that each exchange charges. An exchange without an entry
/// charges nothing.
pub struct FeeSchedule {
    pub entries: Vec<ExchangeFees>,
}

impl DeepView for FeeSchedule {
    type V = Seq<ExchangeFeesView>;

    open spec fn deep_view(&self) -> Seq<ExchangeFeesView> {
        self.entries.deep_view()
    }
}

/// Maker and taker fee of `exchange`: those of its first entry from position
/// `from` on, zero without one.
pub open spec fn fees_from(entries: Seq<ExchangeFeesView>, exchange: CexExchange, from: int) -> (
    real,
    real,
)
    decreases entries.len() - from,
{
    if from < 0 || from >= entries.len() {
        (0real, 0real)
    } else if entries[from].exchange == exchange {
        (entries[from].maker, entries[from].taker)
    } else {
        fees_from(entries, exchange, from + 1)
    }
}

/// Maker and taker fee of `exchange` under a schedule.
pub open spec fn fees_of(entries: Seq<ExchangeFeesView>, exchange: CexExchange) -> (real, real) {
    fees_from(entries, exchange, 0)
}

impl FeeSchedule {
    /// The schedule under which no exchange charges anything.
    pub fn free() -> (s: FeeSchedule)
        ensures
            s.deep_view() == Seq::<ExchangeFeesView>::empty(),
    {
        let s = FeeSchedule { entries: Vec::new() };
        s
    }

    /// Maker and taker fee of `exchange`.
    pub fn fees(&self, exchange: CexExchange) -> (f: (Ratio, Ratio))
        ensures
            (f.0@, f.1@) == fees_of(self.deep_view(), exchange),
    {
        let ghost entries = self.deep_view();
        let mut i: usize = 0;
        while i < self.entries.len()
            invariant
                i <= self.entries.len(),
                entries == self.deep_view(),
                fees_of(entries, exchange) == fees_from(entries, exchange, i as int),
            decreases self.entries.len() - i,
        {
            if self.entries[i].exchange == exchange {
                return (self.entries[i].maker.clone(), self.entries[i].taker.clone());
            }
            i = i + 1;
        }
        (Ratio::zero(), Ratio::zero())
    }
}

/// Execution quality, in percent, assumed for one pair on one exchange.
#[derive(Clone, Copy, Debug, PartialEq, Eq, Structural)]
pub struct QualityEntry {
    pub exchange: CexExchange,
    pub pair: Pair,
    pub percent: usize,
}

/// Execution quality per exchange and pair.
pub struct QualityTable {
    pub entries: Vec<QualityEntry>,
}

/// Quality of `pair` on `exchange`: that of the first matching entry from
/// position `from` on, [`BASE_EXECUTION_QUALITY`] without one.
pub open spec fn quality_from(
    entries: Seq<QualityEntry>,
    exchange: CexExchange,
    pair: Pair,
    from: int,
) -> usize
    decreases entries.len() - from,
{
    if from < 0 || from >= entries.len() {
        BASE_EXECUTION_QUALITY
    } else if entries[from].exchange == exchange && entries[from].pair == pair {
        entries[from].percent
    } else {
        quality_from(entries, exchange, pair, from + 1)
    }
}

/// Quality of `pair` on `exchange` under a table.
pub open spec fn quality_of(entries: Seq<QualityEntry>, exchange: CexExchange, pair: Pair) -> usize {
    quality_from(entries, exchange, pair, 0)
}

/// Whether no pair on an exchange has two entries.
pub open spec fn distinct_entries(entries: Seq<QualityEntry>) -> bool {
    forall|i: int, j: int|
        0 <= i < j < entries.len() ==> !((#[trigger] entries[i]).exchange == (
        #[trigger] entries[j]).exchange && entries[i].pair == entries[j].pair)
}

/// The search from `from` on finds the first entry of the pair on the
/// exchange.
proof fn lemma_quality_from(
    entries: Seq<QualityEntry>,
    exchange: CexExchange,
    pair: Pair,
    from: int,
    at: int,
)
    requires
        0 <= from <= at < entries.len(),
        entries[at].exchange == exchange,
        entries[at].pair == pair,
        forall|j: int|
            from <= j < at ==> !((#[trigger] entries[j]).exchange == exchange && entries[j].pair
                == pair),
    ensures
        quality_from(entries, exchange, pair, from) == entries[at].percent,
    decreases at - from,
{
    if from < at {
        lemma_quality_from(entries, exchange, pair, from + 1, at);
    }
}

/// Where no pair on an exchange has two entries, the table is a map: the
/// quality of a pair on an exchange is that of its entry.
pub proof fn quality_of_an_entry_is_found(entries: Seq<QualityEntry>, at: int)
    requires
        distinct_entries(entries),
        0 <= at < entries.len(),
    ensures
        quality_of(entries, entries[at].exchange, entries[at].pair) == entries[at].percent,
{
    lemma_quality_from(entries, entries[at].exchange, entries[at].pair, 0, at);
}

/// The quality of `pair` on every exchange, by the exchange's ordinal.
pub open spec fn percents_of(entries: Seq<QualityEntry>, pair: Pair) -> Seq<usize> {
    Seq::new(
        EXCHANGE_COUNT as nat,
        |o: int| quality_of(entries, CexExchange::at_spec(o), pair),
    )
}

impl QualityTable {
    /// The quality, in percent, of `pair` on every exchange, by the
    /// exchange's ordinal.
    pub fn percents(&self, pair: Pair) -> (p: Vec<usize>)
        ensures
            p@ == percents_of(self.entries@, pair),
    {
        let mut p: Vec<usize> = Vec::new();
        let mut o: usize = 0;
        while o < EXCHANGE_COUNT
            invariant
                o <= EXCHANGE_COUNT,
                p.len() == o,
                forall|j: int|
                    0 <= j < o ==> p[j] == quality_of(self.entries@, CexExchange::at_spec(j), pair),
            decreases EXCHANGE_COUNT - o,
        {
            p.push(self.quality(CexExchange::at(o), pair));
            o = o + 1;
        }
        p
    }

    /// Quality, in percent, of `pair` on `exchange`.
    pub fn quality(&self, exchange: CexExchange, pair: Pair) -> (q: usize)
        ensures
            q == quality_of(self.entries@, exchange, pair),
    {
        let mut i: usize = 0;
        while i < self.entries.len()
            invariant
                i <= self.entries.len(),
                quality_of(self.entries@, exchange, pair) == quality_from(
                    self.entries@,
                    exchange,
                    pair,
                    i as int,
                ),
            decreases self.entries.len() - i,
        {
            if self.entries[i].exchange == exchange && self.entries[i].pair == pair {
                return self.entries[i].percent;
            }
            i = i + 1;
        }
        BASE_EXECUTION_QUALITY
    }
}

} // verus!
