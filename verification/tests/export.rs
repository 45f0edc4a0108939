use brontes::cex::exchange::CexExchange;
use brontes::cex::price_map::{
    CexPriceData, CexPriceMap, CexQuote, ExchangeQuotes, LibmdbxCexPriceMap, LibmdbxCexQuote,
    PairQuote,
};
use brontes::export::{dex_quotes_to_rows, BlockQuote, DexPrices, DexQuoteWithIndex, PairPrices};
use brontes::pair::Pair;
use brontes::primitives::Address;
use brontes::rational::Ratio;

fn address(n: u128) -> Address {
    Address { hi: 0, lo: n }
}

fn ratio(numerator: u64, denominator: u64) -> Ratio {
    Ratio::from_u64(numerator).div(&Ratio::from_u64(denominator))
}

fn prices(pair: Pair, pre: u64, post: u64) -> PairPrices {
    PairPrices {
        pair,
        prices: DexPrices {
            pre_state: Ratio::from_u64(pre),
            post_state: Ratio::from_u64(post),
            pool_liquidity: ratio(7, 2),
            goes_through: Pair(pair.0, address(99)),
            is_transfer: pre == post,
            first_hop_connections: 3,
        },
    }
}

#[test]
fn quotes_are_laid_out_row_by_row() {
    let quotes = vec![
        BlockQuote {
            block_number: 100,
            quote: DexQuoteWithIndex {
                tx_idx: 4,
                quote: vec![
                    prices(Pair(address(1), address(2)), 10, 11),
                    prices(Pair(address(3), address(4)), 20, 20),
                ],
            },
        },
        BlockQuote { block_number: 100, quote: DexQuoteWithIndex { tx_idx: 5, quote: vec![] } },
        BlockQuote {
            block_number: 101,
            quote: DexQuoteWithIndex {
                tx_idx: 0,
                quote: vec![prices(Pair(address(5), address(6)), 30, 31)],
            },
        },
    ];
    let rows = dex_quotes_to_rows(&quotes);
    assert_eq!(rows.len(), 3);
    let keys: Vec<(u64, u16, Address, Address)> = rows
        .iter()
        .map(|r| (r.block_number, r.tx_idx, r.pair_token0_address, r.pair_token1_address))
        .collect();
    assert_eq!(
        keys,
        vec![
            (100, 4, address(1), address(2)),
            (100, 4, address(3), address(4)),
            (101, 0, address(5), address(6)),
        ]
    );
    assert!(rows[1].pre_state_price.eq(&Ratio::from_u64(20)));
    assert!(rows[1].post_state_price.eq(&Ratio::from_u64(20)));
    assert!(rows[1].pool_liquidity.eq(&ratio(7, 2)));
    assert!(rows[1].is_transfer);
    assert!(!rows[0].is_transfer);
    assert_eq!(rows[2].goes_through_token0_address, address(5));
    assert_eq!(rows[2].goes_through_token1_address, address(99));
    assert_eq!(rows[2].first_hop_connections, 3);
    assert!(dex_quotes_to_rows(&vec![]).is_empty());
}

fn quote(timestamp: u64, bid: Ratio, ask: Ratio) -> CexQuote {
    CexQuote { exchange: CexExchange::Binance, timestamp, price: (bid, ask), token0: address(1) }
}

#[test]
fn stored_quotes_are_equal_by_value() {
    let a = LibmdbxCexQuote::from_source(&quote(5, ratio(1, 2), Ratio::from_u64(3)));
    let b = LibmdbxCexQuote::from_source(&quote(5, ratio(2, 4), ratio(6, 2)));
    let later = LibmdbxCexQuote::from_source(&quote(6, ratio(1, 2), Ratio::from_u64(3)));
    let dearer = LibmdbxCexQuote::from_source(&quote(5, ratio(1, 2), Ratio::from_u64(4)));
    assert!(a == b);
    assert!(a != later);
    assert!(a != dearer);
    let back = a.to_source();
    assert_eq!(back.timestamp, 5);
    assert!(back.price.0.eq(&ratio(1, 2)));
    assert!(back.price.1.eq(&Ratio::from_u64(3)));
    assert_eq!(back.token0, address(1));
}

#[test]
fn quotes_survive_being_stored() {
    let pair = Pair(address(1), address(2));
    let data = CexPriceData {
        block_number: 18_000_000,
        data: CexPriceMap(vec![
            ExchangeQuotes {
                exchange: CexExchange::Binance,
                quotes: vec![
                    PairQuote { pair, quote: quote(5, ratio(1, 2), Ratio::from_u64(3)) },
                    PairQuote { pair: pair.flip(), quote: quote(6, Ratio::from_u64(2), ratio(1, 3)) },
                ],
            },
            ExchangeQuotes { exchange: CexExchange::Okex, quotes: vec![] },
        ]),
    };
    let stored = LibmdbxCexPriceMap::new(&data.data.0);
    assert_eq!(stored.map.len(), 2);
    assert_eq!(stored.map[0].exchange, CexExchange::Binance);
    assert_eq!(stored.map[0].quotes.len(), 2);
    assert_eq!(stored.map[0].quotes[1].pair, pair.flip());
    assert!(stored.map[0].quotes[1].quote.price.1.eq(&ratio(1, 3)));
    assert!(stored.map[1].quotes.is_empty());
    let (key, value) = data.into_key_val();
    assert_eq!(key, 18_000_000);
    assert_eq!(value.0.len(), 2);
    assert_eq!(value.0[0].quotes[0].pair, pair);
    assert_eq!(value.0[0].quotes[0].quote.timestamp, 5);
    assert!(value.0[0].quotes[0].quote.price.0.eq(&ratio(1, 2)));
    let back = stored.to_source();
    assert_eq!(back.0[1].exchange, CexExchange::Okex);
    assert!(back.0[0].quotes[1].quote.price.0.eq(&Ratio::from_u64(2)));
}
