use brontes::cex::exchange::CexExchange;
use brontes::cex::optimistic::CexDexTradeConfig;
use brontes::cli::{
    determine_max_tasks, get_config_dir, Args, Commands, Database, FallbackRole, Inspectors,
    RunArgs, RunError, RunMode, TimeWindowArgs, Verbosity, DEFAULT_METRICS_PORT,
};
use brontes::primitives::usdt_address;

fn run_args() -> RunArgs {
    RunArgs {
        start_block: None,
        end_block: None,
        max_tasks: None,
        min_batch_size: 500,
        quote_asset: "0xdAC17F958D2ee523a2206206994597C13D831ec7".to_string(),
        inspectors: None,
        time_window_args: TimeWindowArgs {
            time_window_before: 3,
            time_window_after: 6,
            time_window_before_optimistic: 2,
            time_window_after_optimistic: 5,
            quotes_price_time: 0,
        },
        cex_exchanges: vec![
            CexExchange::Binance,
            CexExchange::Coinbase,
            CexExchange::Okex,
            CexExchange::BybitSpot,
            CexExchange::Kucoin,
        ],
        force_dex_pricing: false,
        force_no_dex_pricing: false,
        behind_tip: 10,
        cli_only: true,
        with_metrics: true,
        enable_fallback: false,
        fallback_server: None,
    }
}

#[test]
fn range_with_start_after_end_is_refused() {
    let mut args = run_args();
    args.start_block = Some(18_000_001);
    args.end_block = Some(18_000_000);
    assert_eq!(args.check_proper_range(), Err(RunError::StartAfterEnd));
    assert_eq!(args.plan(8).err(), Some(RunError::StartAfterEnd));
    assert_eq!(
        RunError::StartAfterEnd.message(),
        "start block must be less than end block"
    );
    args.end_block = Some(18_000_001);
    assert_eq!(args.check_proper_range(), Ok(()));
    args.end_block = None;
    assert_eq!(args.check_proper_range(), Ok(()));
    args.start_block = None;
    args.end_block = Some(5);
    assert_eq!(args.check_proper_range(), Ok(()));
}

#[test]
fn mode_follows_the_range() {
    let mut args = run_args();
    assert_eq!(args.mode(), RunMode::TipFollower { behind_tip: 10, until: None });
    args.start_block = Some(7);
    assert_eq!(args.mode(), RunMode::OpenEnded { start_block: 7 });
    args.end_block = Some(9);
    assert_eq!(args.mode(), RunMode::Historical { start_block: 7, end_block: 9 });
    args.start_block = None;
    assert_eq!(args.mode(), RunMode::TipFollower { behind_tip: 10, until: Some(9) });
}

#[test]
fn run_at_the_tip_starts_behind_it() {
    assert_eq!(
        RunMode::TipFollower { behind_tip: 10, until: None }.block_range(18_000_000),
        (17_999_990, None)
    );
    assert_eq!(RunMode::TipFollower { behind_tip: 10, until: Some(5) }.block_range(4), (0, Some(5)));
    assert_eq!(RunMode::OpenEnded { start_block: 7 }.block_range(18_000_000), (7, None));
    assert_eq!(
        RunMode::Historical { start_block: 7, end_block: 9 }.block_range(18_000_000),
        (7, Some(9))
    );
}

#[test]
fn windows_are_turned_into_microseconds() {
    let mut args = run_args();
    args.time_window_args.quotes_price_time = 250_000;
    assert_eq!(
        args.trade_config(),
        CexDexTradeConfig {
            time_window_after_us: 6_000_000,
            time_window_before_us: 3_000_000,
            optimistic_before_us: 2_000_000,
            optimistic_after_us: 5_000_000,
            quotes_fetch_time: 250_000,
        }
    );
    assert_eq!(args.load_time_window(), 6);
    args.time_window_args.time_window_before_optimistic = 60;
    assert_eq!(args.load_time_window(), 60);
    assert!(args.time_window_args.check_fits());
    args.time_window_args.time_window_after = 18_446_744_073_709;
    assert!(args.time_window_args.check_fits());
    args.time_window_args.time_window_after = 18_446_744_073_710;
    assert!(!args.time_window_args.check_fits());
}

#[test]
fn tasks_default_to_four_fifths_of_the_cores() {
    assert_eq!(determine_max_tasks(Some(3), 64), 3);
    assert_eq!(determine_max_tasks(None, 10), 8);
    assert_eq!(determine_max_tasks(None, 16), 12);
    assert_eq!(determine_max_tasks(None, 1), 0);
    assert_eq!(determine_max_tasks(None, u64::MAX), 14_757_395_258_967_641_292);
}

#[test]
fn inspectors_without_need_of_dex_prices_turn_them_off() {
    let mut args = run_args();
    assert!(!args.is_only_cex_dex());
    args.inspectors = Some(vec![Inspectors::CexDex]);
    assert!(args.is_only_cex_dex());
    args.inspectors = Some(vec![Inspectors::CexDex, Inspectors::Sandwich]);
    assert!(!args.is_only_cex_dex());
    args.inspectors = Some(vec![Inspectors::Sandwich, Inspectors::CexDexMarkout]);
    assert!(args.is_only_cex_dex());
    let plan = args.plan(10).unwrap();
    assert!(plan.force_no_dex_pricing);
    assert!(!plan.force_dex_pricing);
    args.inspectors = Some(vec![]);
    assert!(!args.is_only_cex_dex());
    assert!(!args.plan(10).unwrap().force_no_dex_pricing);
}

#[test]
fn plan_carries_the_arguments() {
    let mut args = run_args();
    args.start_block = Some(100);
    args.end_block = Some(200);
    let plan = args.plan(10).unwrap();
    assert_eq!(plan.mode, RunMode::Historical { start_block: 100, end_block: 200 });
    assert_eq!(plan.max_tasks, 8);
    assert_eq!(plan.min_batch_size, 500);
    assert_eq!(plan.quote_asset, usdt_address());
    assert_eq!(plan.load_window, 6);
    assert_eq!(plan.trade_config.optimistic_after_us, 5_000_000);
    assert!(plan.cli_only);
    assert!(plan.with_metrics);
    assert!(!plan.force_dex_pricing);
    assert!(!plan.force_no_dex_pricing);
}

#[test]
fn forcing_and_forbidding_dex_prices_is_refused() {
    let mut args = run_args();
    args.force_dex_pricing = true;
    assert!(args.plan(10).unwrap().force_dex_pricing);
    args.force_no_dex_pricing = true;
    assert_eq!(args.plan(10).err(), Some(RunError::ConflictingDexPricing));
    args.force_dex_pricing = false;
    assert!(args.plan(10).unwrap().force_no_dex_pricing);
    args.quote_asset = "USDT".to_string();
    assert_eq!(args.plan(10).err(), Some(RunError::InvalidQuoteAsset));
    assert!(!RunError::ConflictingDexPricing.message().is_empty());
    assert!(!RunError::InvalidQuoteAsset.message().is_empty());
}

#[test]
fn failover_role_follows_the_switches() {
    let mut args = run_args();
    assert!(matches!(args.fallback_role(), FallbackRole::Disabled));
    args.fallback_server = Some("10.0.0.1:7000".to_string());
    assert!(matches!(args.fallback_role(), FallbackRole::Disabled));
    args.enable_fallback = true;
    match args.fallback_role() {
        FallbackRole::Client { server, interval_secs } => {
            assert_eq!(server, "10.0.0.1:7000");
            assert_eq!(interval_secs, 4);
        }
        _ => panic!("a named server makes a client"),
    }
    args.fallback_server = None;
    match args.fallback_role() {
        FallbackRole::Monitor { timeout_secs } => assert_eq!(timeout_secs, 7),
        _ => panic!("no server makes a monitor"),
    }
}

#[test]
fn program_arguments_hold_a_command() {
    let args = Args {
        command: Commands::Run(run_args()),
        brontes_db_path: Some("/data/brontes".to_string()),
        verbosity: Verbosity { verbosity: 2, quiet: false },
        metrics_port: DEFAULT_METRICS_PORT,
    };
    assert_eq!(args.metrics_port, 6923);
    assert!(matches!(args.command, Commands::Run(_)));
    let db = Commands::Database(Database { arguments: vec!["export".to_string()] });
    assert!(matches!(db, Commands::Database(_)));
    assert_eq!(get_config_dir(), "./config");
}
