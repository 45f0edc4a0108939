//! The latest quotes of the exchanges at a block, as they are held in
//! memory and as they are stored.

use crate::cex::exchange::CexExchange;
use crate::pair::Pair;
use crate::primitives::Address;
use crate::rational::Ratio;
use vstd::prelude::*;
use vstd::std_specs::cmp::PartialEqSpecImpl;

verus! {

/// The best bid and ask of a pair on an exchange.
pub struct CexQuote {
    pub exchange: CexExchange,
    pub timestamp: u64,
    pub price: (Ratio, Ratio),
    pub token0: Address,
}

/// What a quote denotes.
pub struct QuoteView {
    pub exchange: CexExchange,
    pub timestamp: u64,
    pub price: (real, real),
    pub token0: Address,
}

impl DeepView for CexQuote {
    type V = QuoteView;

    open spec fn deep_view(&self) -> QuoteView {
        QuoteView {
            exchange: self.exchange,
            timestamp: self.timestamp,
            price: (self.price.0@, self.price.1@),
            token0: self.token0,
        }
    }
}

/// The quote of one pair.
pub struct PairQuote {
    pub pair: Pair,
    pub quote: CexQuote,
}

/// What a quote of a pair denotes.
pub struct PairQuoteView {
    pub pair: Pair,
    pub quote: QuoteView,
}

impl DeepView for PairQuote {
    type V = PairQuoteView;

    open spec fn deep_view(&self) -> PairQuoteView {
        PairQuoteView { pair: self.pair, quote: self.quote.deep_view() }
    }
}

/// The quotes of one exchange.
pub struct ExchangeQuotes {
    pub exchange: CexExchange,
    pub quotes: Vec<PairQuote>,
}

/// What the quotes of an exchange denote.
pub struct ExchangeQuotesView {
    pub exchange: CexExchange,
    pub quotes: Seq<PairQuoteView>,
}

impl DeepView for ExchangeQuotes {
    type V = ExchangeQuotesView;

    open spec fn deep_view(&self) -> ExchangeQuotesView {
        ExchangeQuotesView { exchange: self.exchange, quotes: self.quotes.deep_view() }
    }
}

/// The quotes of all exchanges at a block.
pub struct CexPriceMap(pub Vec<ExchangeQuotes>);

impl DeepView for CexPriceMap {
    type V = Seq<ExchangeQuotesView>;

    open spec fn deep_view(&self) -> Seq<ExchangeQuotesView> {
        self.0.deep_view()
    }
}

/// The quotes at a block with the block's number, as a row of the store.
pub struct CexPriceData {
    pub block_number: u64,
    pub data: CexPriceMap,
}

/// A quote as it is stored.
pub struct LibmdbxCexQuote {
    pub exchange: CexExchange,
    pub timestamp: u64,
    pub price: (Ratio, Ratio),
    pub token0: Address,
}

impl DeepView for LibmdbxCexQuote {
    type V = QuoteView;

    open spec fn deep_view(&self) -> QuoteView {
        QuoteView {
            exchange: self.exchange,
            timestamp: self.timestamp,
            price: (self.price.0@, self.price.1@),
            token0: self.token0,
        }
    }
}

/// The stored quote of one pair.
pub struct LibmdbxPairQuote {
    pub pair: Pair,
    pub quote: LibmdbxCexQuote,
}

impl DeepView for LibmdbxPairQuote {
    type V = PairQuoteView;

    open spec fn deep_view(&self) -> PairQuoteView {
        PairQuoteView { pair: self.pair, quote: self.quote.deep_view() }
    }
}

/// The stored quotes of one exchange.
pub struct LibmdbxExchangeQuotes {
    pub exchange: CexExchange,
    pub quotes: Vec<LibmdbxPairQuote>,
}

impl DeepView for LibmdbxExchangeQuotes {
    type V = ExchangeQuotesView;

    open spec fn deep_view(&self) -> ExchangeQuotesView {
        ExchangeQuotesView { exchange: self.exchange, quotes: self.quotes.deep_view() }
    }
}

/// The quotes of all exchanges at a block, as they are stored.
pub struct LibmdbxCexPriceMap {
    pub map: Vec<LibmdbxExchangeQuotes>,
}

impl DeepView for LibmdbxCexPriceMap {
    type V = Seq<ExchangeQuotesView>;

    open spec fn deep_view(&self) -> Seq<ExchangeQuotesView> {
        self.map.deep_view()
    }
}

impl PartialEq for LibmdbxCexQuote {
    /// Two stored quotes are equal where the quotes that they stand for
    /// are.
    fn eq(&self, other: &Self) -> (r: bool) {
        self.exchange == other.exchange && self.timestamp == other.timestamp && self.price.0.eq(
            &other.price.0,
        ) && self.price.1.eq(&other.price.1) && self.token0 == other.token0
    }
}

impl PartialEqSpecImpl for LibmdbxCexQuote {
    open spec fn obeys_eq_spec() -> bool {
        true
    }

    open spec fn eq_spec(&self, other: &Self) -> bool {
        self.deep_view() == other.deep_view()
    }
}

impl LibmdbxCexQuote {
    /// The stored form of a quote.
    pub fn from_source(quote: &CexQuote) -> (stored: LibmdbxCexQuote)
        ensures
            stored.deep_view() == quote.deep_view(),
    {
        LibmdbxCexQuote {
            exchange: quote.exchange,
            timestamp: quote.timestamp,
            price: (quote.price.0.clone(), quote.price.1.clone()),
            token0: quote.token0,
        }
    }

    /// The quote that this stored form stands for.
    pub fn to_source(&self) -> (quote: CexQuote)
        ensures
            quote.deep_view() == self.deep_view(),
    {
        CexQuote {
            exchange: self.exchange,
            timestamp: self.timestamp,
            price: (self.price.0.clone(), self.price.1.clone()),
            token0: self.token0,
        }
    }
}

impl LibmdbxCexPriceMap {
    /// The stored form of the quotes of all exchanges.
    pub fn new(map: &Vec<ExchangeQuotes>) -> (stored: LibmdbxCexPriceMap)
        ensures
            stored.deep_view() == map.deep_view(),
    {
        let mut out: Vec<LibmdbxExchangeQuotes> = Vec::new();
        let mut k: usize = 0;
        while k < map.len()
            invariant
                k <= map.len(),
                out.len() == k,
                forall|j: int| 0 <= j < k ==> (#[trigger] out[j]).deep_view() == map[j].deep_view(),
            decreases map.len() - k,
        {
            let source = &map[k];
            let mut quotes: Vec<LibmdbxPairQuote> = Vec::new();
            let mut i: usize = 0;
            while i < source.quotes.len()
                invariant
                    i <= source.quotes.len(),
                    quotes.len() == i,
                    forall|j: int|
                        0 <= j < i ==> (#[trigger] quotes[j]).deep_view()
                            == source.quotes[j].deep_view(),
                decreases source.quotes.len() - i,
            {
                quotes.push(
                    LibmdbxPairQuote {
                        pair: source.quotes[i].pair,
                        quote: LibmdbxCexQuote::from_source(&source.quotes[i].quote),
                    },
                );
                i = i + 1;
            }
            assert(quotes.deep_view() =~= source.quotes.deep_view());
            out.push(LibmdbxExchangeQuotes { exchange: source.exchange, quotes });
            k = k + 1;
        }
        LibmdbxCexPriceMap { map: out }
    }

    /// The quotes that this stored form stands for.
    pub fn to_source(&self) -> (map: CexPriceMap)
        ensures
            map.deep_view() == self.deep_view(),
    {
        let mut out: Vec<ExchangeQuotes> = Vec::new();
        let mut k: usize = 0;
        while k < self.map.len()
            invariant
                k <= self.map.len(),
                out.len() == k,
                forall|j: int|
                    0 <= j < k ==> (#[trigger] out[j]).deep_view() == self.map[j].deep_view(),
            decreases self.map.len() - k,
        {
            let stored = &self.map[k];
            let mut quotes: Vec<PairQuote> = Vec::new();
            let mut i: usize = 0;
            while i < stored.quotes.len()
                invariant
                    i <= stored.quotes.len(),
                    quotes.len() == i,
                    forall|j: int|
                        0 <= j < i ==> (#[trigger] quotes[j]).deep_view()
                            == stored.quotes[j].deep_view(),
                decreases stored.quotes.len() - i,
            {
                quotes.push(
                    PairQuote {
                        pair: stored.quotes[i].pair,
                        quote: stored.quotes[i].quote.to_source(),
                    },
                );
                i = i + 1;
            }
            assert(quotes.deep_view() =~= stored.quotes.deep_view());
            out.push(ExchangeQuotes { exchange: stored.exchange, quotes });
            k = k + 1;
        }
        CexPriceMap(out)
    }
}

impl CexPriceData {
    /// The key and the value under which the quotes are stored: the
    /// block's number and the quotes.
    pub fn into_key_val(&self) -> (kv: (u64, CexPriceMap))
        ensures
            kv.0 == self.block_number,
            kv.1.deep_view() == self.data.deep_view(),
    {
        let stored = LibmdbxCexPriceMap::new(&self.data.0);
        (self.block_number, stored.to_source())
    }
}

} // verus!
