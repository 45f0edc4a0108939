use brontes::cex::basket::{saturating_add, TimeBasket, TimeBasketQueue, Window};
use brontes::cex::exchange::{
    CexExchange, ExchangeFees, FeeSchedule, QualityEntry, QualityTable, BASE_EXECUTION_QUALITY,
};
use brontes::cex::fill::price_order;
use brontes::cex::optimistic::{CexDexTradeConfig, ExchangePrice, PriceError};
use brontes::cex::quality::{apply_quality, quota_of};
use brontes::cex::trades::{CexTrades, Direction, OptimisticTradeData, PairTrades, SortedTrades};
use brontes::cex::weight::{calculate_decay, calculate_weight_exponent, Decay};
use brontes::pair::Pair;
use brontes::primitives::{dai_address, usdc_address, usdt_address, weth_address, Address};
use brontes::rational::Ratio;
use malachite::Rational;

const T: u64 = 1_700_000_000_000_000;

fn ratio(numerator: u64, denominator: u64) -> Ratio {
    Ratio::from_u64(numerator).div(&Ratio::from_u64(denominator))
}

fn from_float(value: f64) -> Ratio {
    let exact = Rational::try_from_float_simplest(value).unwrap();
    let negative = exact < 0;
    let (numerator, denominator) = exact.into_numerator_and_denominator();
    Ratio::from_parts(negative, numerator.into_limbs_asc(), denominator.into_limbs_asc()).unwrap()
}

fn token(n: u128) -> Address {
    Address { hi: 7, lo: n }
}

fn config() -> CexDexTradeConfig {
    CexDexTradeConfig {
        time_window_after_us: 6_000_000,
        time_window_before_us: 3_000_000,
        optimistic_before_us: 2_000_000,
        optimistic_after_us: 5_000_000,
        quotes_fetch_time: 0,
    }
}

fn trade(exchange: CexExchange, timestamp: u64, price: Ratio, amount: Ratio) -> CexTrades {
    CexTrades::new(exchange, timestamp, price, amount, Ratio::one()).unwrap()
}

fn stream(pair: Pair, trades: Vec<CexTrades>) -> PairTrades {
    PairTrades { pair, indices: (0, 0), trades }
}

#[test]
fn a_token_is_priced_at_one_against_itself() {
    let a = token(1);
    let pair = Pair(a, a);
    let sorted = SortedTrades { entries: vec![] };
    let (maker, taker) = sorted
        .get_optimistic_price(
            config(),
            &FeeSchedule::free(),
            T,
            pair,
            &Ratio::one(),
            None,
            false,
        )
        .unwrap();
    assert!(maker.final_price.eq(&Ratio::one()));
    assert!(taker.final_price.eq(&Ratio::one()));
    assert!(maker.trades_used.is_empty());
    assert!(taker.trades_used.is_empty());
    assert_eq!(maker.pairs, vec![pair]);
    assert_eq!(taker.pairs, vec![pair]);
}

#[test]
fn identity_holds_whatever_the_streams_and_the_volume() {
    let a = token(1);
    let pair = Pair(a, a);
    let sorted = SortedTrades {
        entries: vec![stream(
            pair,
            vec![trade(CexExchange::Binance, T, Ratio::from_u64(5), Ratio::from_u64(9))],
        )],
    };
    let (maker, taker) = sorted
        .get_optimistic_price(
            config(),
            &FeeSchedule::free(),
            T,
            pair,
            &Ratio::from_u64(1_000_000),
            None,
            false,
        )
        .unwrap();
    assert!(maker.final_price.eq(&Ratio::one()));
    assert!(taker.final_price.eq(&Ratio::one()));
    assert!(maker.trades_used.is_empty());
}

#[test]
fn window_widens_until_both_trades_are_covered() {
    let pair = Pair(token(1), token(2));
    let pre_weight = (-3e-7f64 * 300_000.0).exp();
    let post_weight = (-1.2e-7f64 * 400_000.0).exp();
    assert!((pre_weight - 0.9139).abs() < 1e-4);
    assert!((post_weight - 0.9531).abs() < 1e-4);
    let before = CexTrades::new(
        CexExchange::Binance,
        T - 300_000,
        Ratio::from_u64(100),
        Ratio::one(),
        from_float(pre_weight),
    )
    .unwrap();
    let after = CexTrades::new(
        CexExchange::Binance,
        T + 400_000,
        Ratio::from_u64(101),
        Ratio::one(),
        from_float(post_weight),
    )
    .unwrap();
    let sorted = SortedTrades { entries: vec![stream(pair, vec![before, after])] };
    let fee = ratio(1, 1000);
    let fees = FeeSchedule {
        entries: vec![ExchangeFees {
            exchange: CexExchange::Binance,
            maker: fee.clone(),
            taker: ratio(2, 1000),
        }],
    };
    let (maker, taker) = sorted
        .get_optimistic_price(config(), &fees, T, pair, &ratio(3, 2), None, false)
        .unwrap();
    assert_eq!(maker.trades_used.len(), 2);
    assert_eq!(maker.trades_used[0].timestamp, T + 400_000);
    assert_eq!(maker.trades_used[1].timestamp, T - 300_000);
    assert!(maker.trades_used[0].volume.eq(&ratio(3, 4)));
    assert!(maker.trades_used[1].volume.eq(&ratio(3, 4)));
    let net = Ratio::one().sub(&fee);
    assert!(Ratio::from_u64(100).mul(&net).lt(&maker.final_price));
    assert!(maker.final_price.lt(&Ratio::from_u64(101).mul(&net)));
    assert!(taker.final_price.lt(&maker.final_price));
    assert_eq!(maker.pairs, vec![pair]);
}

#[test]
fn both_trades_are_reached_only_within_the_bounds() {
    let pair = Pair(token(1), token(2));
    let sorted = SortedTrades {
        entries: vec![stream(
            pair,
            vec![
                trade(CexExchange::Okex, T - 300_000, Ratio::from_u64(100), Ratio::one()),
                trade(CexExchange::Okex, T + 400_000, Ratio::from_u64(101), Ratio::one()),
            ],
        )],
    };
    let price = |before: u64, after: u64| {
        let bounds = CexDexTradeConfig {
            time_window_after_us: 0,
            time_window_before_us: 0,
            optimistic_before_us: before,
            optimistic_after_us: after,
            quotes_fetch_time: 0,
        };
        sorted.get_optimistic_direct(bounds, &FeeSchedule::free(), T, pair, &ratio(3, 2), false, None)
    };
    assert!(price(200_001, 500_001).is_ok());
    assert!(price(300_000, 600_000).is_ok());
    assert!(matches!(price(200_000, 600_000), Err(PriceError::InsufficientVolume)));
    assert!(matches!(price(300_000, 500_000), Err(PriceError::InsufficientVolume)));
    assert!(matches!(price(300_000, 400_000), Err(PriceError::InsufficientVolume)));
}

#[test]
fn equal_weights_give_the_plain_average() {
    let pair = Pair(token(1), token(2));
    let sorted = SortedTrades {
        entries: vec![stream(
            pair,
            vec![
                trade(CexExchange::Okex, T - 300_000, Ratio::from_u64(100), Ratio::one()),
                trade(CexExchange::Okex, T + 400_000, Ratio::from_u64(101), Ratio::one()),
            ],
        )],
    };
    let (maker, taker) = sorted
        .get_optimistic_direct(config(), &FeeSchedule::free(), T, pair, &ratio(3, 2), false, None)
        .unwrap();
    assert!(maker.final_price.eq(&ratio(201, 2)));
    assert!(taker.final_price.eq(&ratio(201, 2)));
}

#[test]
fn fees_lower_maker_and_taker_prices() {
    let pair = Pair(token(1), token(2));
    let sorted = SortedTrades {
        entries: vec![stream(
            pair,
            vec![trade(CexExchange::Kucoin, T, Ratio::from_u64(200), Ratio::from_u64(3))],
        )],
    };
    let fees = FeeSchedule {
        entries: vec![
            ExchangeFees {
                exchange: CexExchange::Binance,
                maker: ratio(1, 2),
                taker: ratio(1, 2),
            },
            ExchangeFees {
                exchange: CexExchange::Kucoin,
                maker: ratio(1, 100),
                taker: ratio(1, 10),
            },
        ],
    };
    let (maker, taker) = sorted
        .get_optimistic_direct(config(), &fees, T, pair, &Ratio::from_u64(2), false, None)
        .unwrap();
    assert!(maker.final_price.eq(&Ratio::from_u64(198)));
    assert!(taker.final_price.eq(&Ratio::from_u64(180)));
    assert_eq!(maker.trades_used.len(), 1);
    assert!(maker.trades_used[0].volume.eq(&Ratio::from_u64(2)));
    assert!(maker.trades_used[0].price.eq(&Ratio::from_u64(200)));
    assert_eq!(maker.trades_used[0].exchange, CexExchange::Kucoin);
    assert_eq!(maker.trades_used[0].pair, pair);
    let (maker_fee, taker_fee) = fees.fees(CexExchange::Coinbase);
    assert!(maker_fee.is_zero() && taker_fee.is_zero());
}

#[test]
fn a_pair_without_a_stream_is_priced_through_its_flip() {
    let pair = Pair(token(1), token(2));
    let sorted = SortedTrades {
        entries: vec![stream(
            pair.flip(),
            vec![trade(CexExchange::Binance, T, Ratio::from_u64(4), Ratio::from_u64(10))],
        )],
    };
    let data = sorted.get_trades(pair).unwrap();
    assert_eq!(data.direction, Direction::Buy);
    assert!(data.trades[0].price().eq(&ratio(1, 4)));
    assert!(data.trades[0].amount().eq(&Ratio::from_u64(40)));
    let stored = sorted.get_trades(pair.flip()).unwrap();
    assert_eq!(stored.direction, Direction::Sell);
    assert!(stored.trades[0].price().eq(&Ratio::from_u64(4)));
    assert!(stored.trades[0].amount().eq(&Ratio::from_u64(10)));
    assert!(sorted.get_trades(Pair(token(1), token(3))).is_none());
}

#[test]
fn flipped_pair_has_the_reciprocal_price() {
    let pair = Pair(token(1), token(2));
    let trades = || {
        vec![
            trade(CexExchange::Binance, T, Ratio::from_u64(4), Ratio::from_u64(10)),
            trade(CexExchange::Okex, T, Ratio::from_u64(5), Ratio::from_u64(30)),
        ]
    };
    let sorted = SortedTrades { entries: vec![stream(pair, trades())] };
    let volume = Ratio::from_u64(40);
    let (maker, _) = sorted
        .get_optimistic_price(config(), &FeeSchedule::free(), T, pair, &volume, None, false)
        .unwrap();
    let flipped_volume = volume.mul(&maker.final_price);
    let (flipped, _) = sorted
        .get_optimistic_price(
            config(),
            &FeeSchedule::free(),
            T,
            pair.flip(),
            &flipped_volume,
            None,
            false,
        )
        .unwrap();
    assert!(maker.final_price.eq(&ratio(19, 4)));
    assert!(flipped.final_price.eq(&Ratio::one().div(&maker.final_price)));
}

#[test]
fn missing_stream_is_reported() {
    let sorted = SortedTrades { entries: vec![] };
    let pair = Pair(token(1), token(2));
    let result = sorted.get_optimistic_price(
        config(),
        &FeeSchedule::free(),
        T,
        pair,
        &Ratio::one(),
        None,
        false,
    );
    assert!(matches!(result, Err(PriceError::MissingTradeData)));
    assert!(sorted
        .get_optimistic_via_intermediary(
            config(),
            &FeeSchedule::free(),
            T,
            pair,
            &Ratio::one(),
            false,
            None
        )
        .is_none());
}

#[test]
fn too_little_volume_is_refused_unless_waived() {
    let pair = Pair(token(1), token(2));
    let sorted = SortedTrades {
        entries: vec![stream(
            pair,
            vec![trade(CexExchange::Binance, T, Ratio::from_u64(7), Ratio::from_u64(2))],
        )],
    };
    let refused = sorted.get_optimistic_direct(
        config(),
        &FeeSchedule::free(),
        T,
        pair,
        &Ratio::from_u64(3),
        false,
        None,
    );
    assert!(matches!(refused, Err(PriceError::InsufficientVolume)));
    let (maker, _) = sorted
        .get_optimistic_direct(
            config(),
            &FeeSchedule::free(),
            T,
            pair,
            &Ratio::from_u64(3),
            true,
            None,
        )
        .unwrap();
    assert!(maker.final_price.eq(&Ratio::from_u64(7)));
    assert!(maker.trades_used[0].volume.eq(&Ratio::from_u64(2)));
}

#[test]
fn trades_out_of_reach_carry_no_volume() {
    let pair = Pair(token(1), token(2));
    let sorted = SortedTrades {
        entries: vec![stream(
            pair,
            vec![
                trade(CexExchange::Binance, T - 2_100_000, Ratio::from_u64(7), Ratio::from_u64(2)),
                trade(CexExchange::Binance, T + 5_100_000, Ratio::from_u64(7), Ratio::from_u64(2)),
            ],
        )],
    };
    let waived = sorted.get_optimistic_direct(
        config(),
        &FeeSchedule::free(),
        T,
        pair,
        &Ratio::one(),
        true,
        None,
    );
    assert!(matches!(waived, Err(PriceError::NoVolume)));
    let strict = sorted.get_optimistic_direct(
        config(),
        &FeeSchedule::free(),
        T,
        pair,
        &Ratio::one(),
        false,
        None,
    );
    assert!(matches!(strict, Err(PriceError::InsufficientVolume)));
}

#[test]
fn trades_without_amount_give_no_price() {
    let pair = Pair(token(1), token(2));
    let empty = trade(CexExchange::Binance, T, Ratio::from_u64(7), Ratio::zero());
    let sorted = SortedTrades { entries: vec![stream(pair, vec![empty])] };
    let result = sorted.get_optimistic_direct(
        config(),
        &FeeSchedule::free(),
        T,
        pair,
        &Ratio::zero(),
        false,
        None,
    );
    assert!(matches!(result, Err(PriceError::NoVolume)));
}

#[test]
fn window_stops_at_its_bounds() {
    let pair = Pair(token(1), token(2));
    let tight = CexDexTradeConfig {
        time_window_after_us: 0,
        time_window_before_us: 0,
        optimistic_before_us: 100_000,
        optimistic_after_us: 500_000,
        quotes_fetch_time: 0,
    };
    let sorted = SortedTrades {
        entries: vec![stream(
            pair,
            vec![
                trade(CexExchange::Binance, T - 100_001, Ratio::from_u64(1), Ratio::from_u64(50)),
                trade(CexExchange::Binance, T - 100_000, Ratio::from_u64(9), Ratio::one()),
                trade(CexExchange::Binance, T + 400_000, Ratio::from_u64(7), Ratio::one()),
                trade(CexExchange::Binance, T + 400_001, Ratio::from_u64(1), Ratio::from_u64(50)),
            ],
        )],
    };
    let (maker, _) = sorted
        .get_optimistic_direct(
            tight,
            &FeeSchedule::free(),
            T,
            pair,
            &Ratio::from_u64(10),
            true,
            None,
        )
        .unwrap();
    assert_eq!(maker.trades_used.len(), 2);
    assert!(maker.final_price.eq(&Ratio::from_u64(8)));
}

#[test]
fn window_widens_before_the_block_only_beyond_the_scaling_bound() {
    let pair = Pair(token(1), token(2));
    let bounded = |after: u64| CexDexTradeConfig {
        time_window_after_us: 0,
        time_window_before_us: 0,
        optimistic_before_us: 2_000_000,
        optimistic_after_us: after,
        quotes_fetch_time: 0,
    };
    let sorted = SortedTrades {
        entries: vec![stream(
            pair,
            vec![
                trade(CexExchange::Binance, T - 100_000, Ratio::from_u64(9), Ratio::one()),
                trade(CexExchange::Binance, T + 300_000, Ratio::from_u64(7), Ratio::one()),
            ],
        )],
    };
    let price = |after: u64| {
        sorted
            .get_optimistic_direct(
                bounded(after),
                &FeeSchedule::free(),
                T,
                pair,
                &Ratio::from_u64(10),
                true,
                None,
            )
            .unwrap()
            .0
    };
    let at_the_bound = price(300_000);
    assert_eq!(at_the_bound.trades_used.len(), 1);
    assert!(at_the_bound.final_price.eq(&Ratio::from_u64(7)));
    let beyond = price(400_000);
    assert_eq!(beyond.trades_used.len(), 2);
    assert!(beyond.final_price.eq(&Ratio::from_u64(8)));
}

#[test]
fn queue_widens_after_the_block_first() {
    let trades = vec![
        trade(CexExchange::Binance, T - 100_000, Ratio::from_u64(9), Ratio::from_u64(1)),
        trade(CexExchange::Binance, T, Ratio::from_u64(9), Ratio::from_u64(2)),
        trade(CexExchange::Binance, T + 100_000, Ratio::from_u64(9), Ratio::from_u64(4)),
    ];
    let data = OptimisticTradeData { indices: (1, 2), trades, direction: Direction::Sell };
    let mut queue = TimeBasketQueue::new(data, T);
    assert!(queue.volume.is_zero());
    queue.construct_time_baskets();
    assert_eq!(queue.baskets.len(), 1);
    assert!(queue.volume.eq(&Ratio::from_u64(2)));
    queue.expand_time_bounds(0, 100_000);
    assert_eq!(queue.get_min_time_delta(), 0);
    assert_eq!(queue.get_max_time_delta(), 100_000);
    assert_eq!(queue.baskets.len(), 2);
    assert_eq!(queue.baskets[1].trades.len(), 1);
    assert!(queue.volume.eq(&Ratio::from_u64(6)));
    queue.expand_time_bounds(100_000, 100_000);
    assert_eq!(queue.get_min_time_delta(), 100_000);
    assert_eq!(queue.get_max_time_delta(), 200_000);
    assert!(queue.volume.eq(&Ratio::from_u64(7)));
    assert_eq!(queue.baskets[2].trades[0].timestamp(), T - 100_000);
}

#[test]
fn window_bounds_are_held_at_the_largest_number() {
    assert_eq!(saturating_add(u64::MAX - 1, 100_000), u64::MAX);
    assert_eq!(saturating_add(5, 100_000), 100_005);
    let everything = Window { pre: u64::MAX, post: u64::MAX };
    assert!(everything.contains(T, 0));
    assert!(everything.contains(T, u64::MAX));
    let narrow = Window { pre: 10, post: 20 };
    assert!(narrow.contains(T, T - 10));
    assert!(!narrow.contains(T, T - 11));
    assert!(narrow.contains(T, T + 20));
    assert!(!narrow.contains(T, T + 21));
}

#[test]
fn basket_gives_its_best_prices_first() {
    let trades = vec![
        trade(CexExchange::Binance, T, Ratio::from_u64(10), Ratio::from_u64(1)),
        trade(CexExchange::Okex, T, Ratio::from_u64(12), Ratio::from_u64(1)),
        trade(CexExchange::Kucoin, T, Ratio::from_u64(11), Ratio::from_u64(1)),
        trade(CexExchange::Huobi, T, Ratio::from_u64(12), Ratio::from_u64(1)),
    ];
    let selling = price_order(&trades, Direction::Sell);
    let order: Vec<CexExchange> = selling.iter().map(|t| t.exchange()).collect();
    assert_eq!(
        order,
        vec![CexExchange::Okex, CexExchange::Huobi, CexExchange::Kucoin, CexExchange::Binance]
    );
    let buying = price_order(&trades, Direction::Buy);
    let order: Vec<CexExchange> = buying.iter().map(|t| t.exchange()).collect();
    assert_eq!(
        order,
        vec![CexExchange::Binance, CexExchange::Kucoin, CexExchange::Okex, CexExchange::Huobi]
    );
    let basket = TimeBasket { trades, volume: Ratio::from_u64(4) };
    let (used, unfilled) = basket.get_trades_used(&ratio(5, 2), Direction::Sell);
    assert_eq!(used.len(), 3);
    assert_eq!(used[2].exchange(), CexExchange::Kucoin);
    assert!(used[2].amount().eq(&ratio(1, 2)));
    assert!(unfilled.is_zero());
    let (all, left) = basket.get_trades_used(&Ratio::from_u64(6), Direction::Buy);
    assert_eq!(all.len(), 4);
    assert!(left.eq(&Ratio::from_u64(2)));
    let (none, untouched) = basket.get_trades_used(&Ratio::zero(), Direction::Buy);
    assert!(none.is_empty());
    assert!(untouched.is_zero());
}

#[test]
fn quality_keeps_the_nearest_share_of_each_exchange() {
    assert_eq!(BASE_EXECUTION_QUALITY, 70);
    assert_eq!(quota_of(10, 70), 7);
    assert_eq!(quota_of(3, 70), 2);
    assert_eq!(quota_of(1, 70), 0);
    assert_eq!(quota_of(9, 100), 9);
    assert_eq!(quota_of(9, 250), 9);
    assert_eq!(quota_of(u128::MAX, 50), u128::MAX / 2);
    let near: Vec<CexTrades> = (0..4u64)
        .map(|i| trade(CexExchange::Binance, T + i, Ratio::from_u64(10), Ratio::one()))
        .collect();
    let far: Vec<CexTrades> = (0..6u64)
        .map(|i| {
            let exchange = if i < 4 { CexExchange::Binance } else { CexExchange::Okex };
            trade(exchange, T + 100 + i, Ratio::from_u64(10), Ratio::one())
        })
        .collect();
    let baskets = vec![
        TimeBasket { trades: near, volume: Ratio::from_u64(4) },
        TimeBasket { trades: far, volume: Ratio::from_u64(6) },
    ];
    let mut percents = vec![100usize; 14];
    percents[CexExchange::Binance.ordinal()] = 75;
    percents[CexExchange::Okex.ordinal()] = 50;
    let kept = apply_quality(&baskets, &percents);
    assert_eq!(kept.len(), 2);
    assert_eq!(kept[0].trades.len(), 4);
    assert!(kept[0].volume.eq(&Ratio::from_u64(4)));
    let second: Vec<(CexExchange, u64)> =
        kept[1].trades.iter().map(|t| (t.exchange(), t.timestamp())).collect();
    assert_eq!(
        second,
        vec![
            (CexExchange::Binance, T + 100),
            (CexExchange::Binance, T + 101),
            (CexExchange::Okex, T + 104),
        ]
    );
    assert!(kept[1].volume.eq(&Ratio::from_u64(3)));
}

#[test]
fn quality_table_falls_back_to_the_base_quality() {
    let pair = Pair(token(1), token(2));
    let table = QualityTable {
        entries: vec![QualityEntry { exchange: CexExchange::Okex, pair, percent: 40 }],
    };
    assert_eq!(table.quality(CexExchange::Okex, pair), 40);
    assert_eq!(table.quality(CexExchange::Okex, pair.flip()), 70);
    assert_eq!(table.quality(CexExchange::Binance, pair), 70);
    let percents = table.percents(pair);
    assert_eq!(percents.len(), 14);
    assert_eq!(percents[CexExchange::Okex.ordinal()], 40);
    assert_eq!(percents[CexExchange::Unknown.ordinal()], 70);
    let trades: Vec<CexTrades> = (0..10u64)
        .map(|i| trade(CexExchange::Binance, T, Ratio::from_u64(10 + i), Ratio::one()))
        .collect();
    let sorted = SortedTrades { entries: vec![stream(pair, trades)] };
    let filtered = sorted.get_optimistic_direct(
        config(),
        &FeeSchedule::free(),
        T,
        pair,
        &Ratio::from_u64(8),
        false,
        Some(&table),
    );
    assert!(matches!(filtered, Err(PriceError::InsufficientVolume)));
    let (maker, _) = sorted
        .get_optimistic_direct(
            config(),
            &FeeSchedule::free(),
            T,
            pair,
            &Ratio::from_u64(7),
            false,
            Some(&table),
        )
        .unwrap();
    assert_eq!(maker.trades_used.len(), 7);
    assert!(maker.final_price.eq(&Ratio::from_u64(13)));
}

#[test]
fn stable_pair_leg_is_priced_without_enough_volume() {
    let usdc = usdc_address();
    let usdt = usdt_address();
    let target = token(9);
    let sorted = SortedTrades {
        entries: vec![
            stream(
                Pair(usdc, usdt),
                vec![trade(CexExchange::Binance, T, Ratio::one(), Ratio::from_u64(10))],
            ),
            stream(
                Pair(usdt, target),
                vec![trade(CexExchange::Binance, T, Ratio::from_u64(2), Ratio::from_u64(1000))],
            ),
        ],
    };
    let pair = Pair(usdc, target);
    let (maker, taker) = sorted
        .get_optimistic_price(
            config(),
            &FeeSchedule::free(),
            T,
            pair,
            &Ratio::from_u64(100),
            None,
            false,
        )
        .unwrap();
    assert!(maker.final_price.eq(&Ratio::from_u64(2)));
    assert!(taker.final_price.eq(&Ratio::from_u64(2)));
    assert_eq!(maker.pairs, vec![Pair(usdc, usdt), Pair(usdt, target)]);
    assert_eq!(maker.trades_used.len(), 2);
    assert!(maker.trades_used[0].volume.eq(&Ratio::from_u64(10)));
    assert!(maker.trades_used[1].volume.eq(&Ratio::from_u64(100)));
}

#[test]
fn other_legs_still_need_their_volume() {
    let source = token(8);
    let middle = token(5);
    let target = token(9);
    let sorted = SortedTrades {
        entries: vec![
            stream(
                Pair(source, middle),
                vec![trade(CexExchange::Binance, T, Ratio::one(), Ratio::from_u64(10))],
            ),
            stream(
                Pair(middle, target),
                vec![trade(CexExchange::Binance, T, Ratio::from_u64(2), Ratio::from_u64(1000))],
            ),
        ],
    };
    let pair = Pair(source, target);
    let short = sorted.get_optimistic_price(
        config(),
        &FeeSchedule::free(),
        T,
        pair,
        &Ratio::from_u64(100),
        None,
        false,
    );
    assert!(matches!(short, Err(PriceError::MissingTradeData)));
    let (maker, _) = sorted
        .get_optimistic_price(
            config(),
            &FeeSchedule::free(),
            T,
            pair,
            &Ratio::from_u64(10),
            None,
            false,
        )
        .unwrap();
    assert!(maker.final_price.eq(&Ratio::from_u64(2)));
}

#[test]
fn best_intermediary_is_taken() {
    let source = token(8);
    let target = token(9);
    let weth = weth_address();
    let dai = dai_address();
    let leg = |from, to, price: u64| {
        stream(
            Pair(from, to),
            vec![trade(CexExchange::Binance, T, Ratio::from_u64(price), Ratio::from_u64(1000))],
        )
    };
    let sorted = SortedTrades {
        entries: vec![
            leg(source, weth, 2),
            leg(weth, target, 3),
            leg(source, dai, 5),
            leg(dai, target, 2),
        ],
    };
    let candidates = sorted.calculate_intermediary_addresses(&Pair(source, target));
    assert_eq!(
        candidates,
        vec![weth, usdc_address(), usdt_address(), dai, weth, dai]
    );
    let (maker, _) = sorted
        .get_optimistic_via_intermediary(
            config(),
            &FeeSchedule::free(),
            T,
            Pair(source, target),
            &Ratio::one(),
            false,
            None,
        )
        .unwrap();
    assert!(maker.final_price.eq(&Ratio::from_u64(10)));
    assert_eq!(maker.pairs, vec![Pair(source, dai), Pair(dai, target)]);
}

#[test]
fn prices_of_two_legs_multiply() {
    let first = ExchangePrice {
        trades_used: vec![],
        pairs: vec![Pair(token(1), token(2))],
        final_price: ratio(3, 2),
    };
    let second = ExchangePrice {
        trades_used: vec![],
        pairs: vec![Pair(token(2), token(3))],
        final_price: Ratio::from_u64(4),
    };
    let both = first.mul(second);
    assert!(both.final_price.eq(&Ratio::from_u64(6)));
    assert_eq!(both.pairs, vec![Pair(token(1), token(2)), Pair(token(2), token(3))]);
    let unit = ExchangePrice::unit(Pair(token(1), token(1)));
    assert!(unit.final_price.eq(&Ratio::one()));
}

#[test]
fn weight_decays_with_the_distance_from_the_block() {
    assert_eq!(calculate_decay(T, T), Decay::Post { elapsed_us: 0 });
    assert_eq!(calculate_decay(T, T - 300_000), Decay::Pre { elapsed_us: 300_000 });
    assert_eq!(calculate_decay(T, T + 400_000), Decay::Post { elapsed_us: 400_000 });
    assert!(calculate_weight_exponent(T, T).is_zero());
    let before = calculate_weight_exponent(T, T - 300_000);
    assert!(before.eq(&Ratio::zero().sub(&ratio(9, 100))));
    let after = calculate_weight_exponent(T, T + 400_000);
    assert!(after.eq(&Ratio::zero().sub(&ratio(48, 1000))));
    assert!(calculate_weight_exponent(T, T - 400_000).lt(&before));
    assert!(calculate_weight_exponent(T, T + 500_000).lt(&after));
    assert!(calculate_weight_exponent(T, T - 400_000).lt(&calculate_weight_exponent(T, T + 400_000)));
}

#[test]
fn a_trade_needs_amount_and_weight_within_their_bounds() {
    let make = |amount: Ratio, weight: Ratio| {
        CexTrades::new(CexExchange::Binance, T, Ratio::from_u64(3), amount, weight)
    };
    let minus_one = Ratio::zero().sub(&Ratio::one());
    assert!(make(Ratio::zero(), Ratio::one()).is_some());
    assert!(make(minus_one.clone(), Ratio::one()).is_none());
    assert!(make(Ratio::one(), Ratio::zero()).is_none());
    assert!(make(Ratio::one(), minus_one).is_none());
    assert!(make(Ratio::one(), ratio(1, 1000)).is_some());
    assert!(make(Ratio::one(), ratio(1001, 1000)).is_none());
    let sold = trade(CexExchange::Binance, T, Ratio::from_u64(4), Ratio::from_u64(3));
    assert!(sold.with_amount(Ratio::zero().sub(&ratio(1, 2))).is_none());
    assert!(sold.with_amount(Ratio::zero()).unwrap().amount().is_zero());
}

#[test]
fn a_trade_needs_a_price_above_zero() {
    assert!(CexTrades::new(CexExchange::Binance, T, Ratio::zero(), Ratio::one(), Ratio::one())
        .is_none());
    let negative = Ratio::zero().sub(&Ratio::one());
    assert!(CexTrades::new(CexExchange::Binance, T, negative, Ratio::one(), Ratio::one()).is_none());
    let sold = trade(CexExchange::Binance, T, Ratio::from_u64(4), Ratio::from_u64(3));
    let bought = sold.adjust_for_direction(Direction::Buy);
    assert!(bought.price().eq(&ratio(1, 4)));
    assert!(bought.amount().eq(&Ratio::from_u64(12)));
    assert_eq!(bought.timestamp(), T);
    let back = bought.adjust_for_direction(Direction::Buy);
    assert!(back.price().eq(&Ratio::from_u64(4)));
    assert!(back.amount().eq(&Ratio::from_u64(3)));
    let same = sold.adjust_for_direction(Direction::Sell);
    assert!(same.price().eq(&Ratio::from_u64(4)));
    let halved = sold.with_amount(ratio(3, 2)).unwrap();
    assert!(halved.amount().eq(&ratio(3, 2)));
    assert!(halved.weight().eq(&Ratio::one()));
}
