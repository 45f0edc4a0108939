//! The command line as plain values, and what a run is to do with it.

use crate::cex::exchange::CexExchange;
use crate::cex::optimistic::CexDexTradeConfig;
use crate::primitives::{address_of_text, Address};
use vstd::prelude::*;

verus! {

/// Microseconds in a second.
pub const SECONDS_TO_US: u64 = 1_000_000;

/// The port on which metrics are served where none is given.
pub const DEFAULT_METRICS_PORT: u16 = 6923;

/// Seconds between two heartbeats that a client sends.
pub const HEARTBEAT_INTERVAL_SECS: u64 = 4;

/// Seconds without a heartbeat after which a monitor flushes its tables.
pub const HEARTBEAT_TIMEOUT_SECS: u64 = 7;

/// How much is logged.
#[derive(Clone, Copy, Debug, PartialEq, Eq, Structural)]
pub struct Verbosity {
    pub verbosity: u8,
    pub quiet: bool,
}

/// The arguments of the whole program.
pub struct Args {
    pub command: Commands,
    /// Path to the database.
    pub brontes_db_path: Option<String>,
    pub verbosity: Verbosity,
    pub metrics_port: u16,
}

/// The arguments of the database command, as they were given.
pub struct Database {
    pub arguments: Vec<String>,
}

/// The commands of the program.
pub enum Commands {
    /// Run the pipeline.
    Run(RunArgs),
    /// Database commands.
    Database(Database),
}

/// The analyses that can be run on a block.
#[derive(Clone, Copy, Debug, PartialEq, Eq, Hash, Structural)]
pub enum Inspectors {
    AtomicArb,
    CexDex,
    Jit,
    Liquidations,
    Sandwich,
    CexDexMarkout,
}

/// The time bounds around a block. The four windows are in whole seconds;
/// the quote time is in microseconds.
#[derive(Clone, Copy, Debug, PartialEq, Eq, Structural)]
pub struct TimeWindowArgs {
    pub time_window_before: u64,
    pub time_window_after: u64,
    pub time_window_before_optimistic: u64,
    pub time_window_after_optimistic: u64,
    pub quotes_price_time: u64,
}

/// The arguments of the run command.
pub struct RunArgs {
    /// First block; without one the run follows the tip.
    pub start_block: Option<u64>,
    /// Last block; without one the run goes on until it is stopped.
    pub end_block: Option<u64>,
    /// Number of worker tasks; without one, four fifths of the physical
    /// cores.
    pub max_tasks: Option<u64>,
    pub min_batch_size: u64,
    /// Address of the asset in which prices are quoted.
    pub quote_asset: String,
    /// The inspectors to run; without a list, all.
    pub inspectors: Option<Vec<Inspectors>>,
    pub time_window_args: TimeWindowArgs,
    pub cex_exchanges: Vec<CexExchange>,
    /// Prices are computed for every block, whatever the store holds.
    pub force_dex_pricing: bool,
    /// No price is computed at all.
    pub force_no_dex_pricing: bool,
    /// How many blocks behind the tip a run at the tip stays.
    pub behind_tip: u64,
    pub cli_only: bool,
    pub with_metrics: bool,
    pub enable_fallback: bool,
    /// Address of the fallback server to which heartbeats are sent.
    pub fallback_server: Option<String>,
}

/// Why a run cannot start.
#[derive(Clone, Copy, Debug, PartialEq, Eq, Structural)]
pub enum RunError {
    /// The first block lies after the last.
    StartAfterEnd,
    /// Prices are both forced and forbidden.
    ConflictingDexPricing,
    /// The quote asset is no address.
    InvalidQuoteAsset,
}

impl RunError {
    /// The error in words.
    pub fn message(&self) -> (text: String)
        ensures
            text@ == match *self {
                RunError::StartAfterEnd => "start block must be less than end block"@,
                RunError::ConflictingDexPricing =>
                    "dex pricing cannot be both forced and turned off"@,
                RunError::InvalidQuoteAsset => "quote asset is not an address"@,
            },
    {
        match self {
            RunError::StartAfterEnd => "start block must be less than end block".to_owned(),
            RunError::ConflictingDexPricing =>
                "dex pricing cannot be both forced and turned off".to_owned(),
            RunError::InvalidQuoteAsset => "quote asset is not an address".to_owned(),
        }
    }
}

/// Over which blocks a run goes.
#[derive(Clone, Copy, Debug, PartialEq, Eq, Structural)]
pub enum RunMode {
    /// From a first to a last block.
    Historical { start_block: u64, end_block: u64 },
    /// From a first block on, until stopped.
    OpenEnded { start_block: u64 },
    /// At the tip of the chain, a number of blocks behind it; up to the
    /// last block where one is given.
    TipFollower { behind_tip: u64, until: Option<u64> },
}

impl RunMode {
    /// The first block of the run and, where the run ends, its last: a run
    /// at the tip starts as many blocks behind the tip as it is to stay.
    pub open spec fn range_spec(self, tip: u64) -> (u64, Option<u64>) {
        match self {
            RunMode::Historical { start_block, end_block } => (start_block, Some(end_block)),
            RunMode::OpenEnded { start_block } => (start_block, None),
            RunMode::TipFollower { behind_tip, until } => (
                if tip >= behind_tip {
                    (tip - behind_tip) as u64
                } else {
                    0
                },
                until,
            ),
        }
    }

    /// The first block of the run and, where the run ends, its last.
    pub fn block_range(&self, tip: u64) -> (range: (u64, Option<u64>))
        ensures
            range == self.range_spec(tip),
    {
        match *self {
            RunMode::Historical { start_block, end_block } => (start_block, Some(end_block)),
            RunMode::OpenEnded { start_block } => (start_block, None),
            RunMode::TipFollower { behind_tip, until } => (
                if tip >= behind_tip {
                    tip - behind_tip
                } else {
                    0
                },
                until,
            ),
        }
    }
}

/// The part that a run takes in the failover protocol.
pub enum FallbackRole {
    /// No failover.
    Disabled,
    /// Heartbeats are sent to a server, one every so many seconds.
    Client { server: String, interval_secs: u64 },
    /// Heartbeats are awaited; after so many seconds without one the tables
    /// are flushed.
    Monitor { timeout_secs: u64 },
}

/// What a run is to do.
pub struct RunPlan {
    pub mode: RunMode,
    pub max_tasks: u64,
    pub min_batch_size: u64,
    pub quote_asset: Address,
    pub force_dex_pricing: bool,
    pub force_no_dex_pricing: bool,
    pub load_window: usize,
    pub trade_config: CexDexTradeConfig,
    pub cli_only: bool,
    pub with_metrics: bool,
}

/// The larger of two numbers.
pub open spec fn max_of(a: u64, b: u64) -> u64 {
    if a >= b {
        a
    } else {
        b
    }
}

/// Four fifths of the physical cores, rounded down.
pub open spec fn default_tasks(physical_cores: u64) -> u64 {
    (physical_cores * 4 / 5) as u64
}

/// The number of worker tasks: as given, else four fifths of the physical
/// cores.
pub fn determine_max_tasks(max_tasks: Option<u64>, physical_cores: u64) -> (tasks: u64)
    ensures
        tasks == match max_tasks {
            Some(given) => given,
            None => default_tasks(physical_cores),
        },
{
    match max_tasks {
        Some(given) => given,
        None => {
            let wide: u128 = physical_cores as u128 * 4 / 5;
            wide as u64
        },
    }
}

/// Whether the inspectors need no DEX prices: the only one is the CEX-DEX
/// inspector, or the markout inspector is among them.
pub open spec fn only_cex_dex(inspectors: Option<Vec<Inspectors>>) -> bool {
    match inspectors {
        Some(list) => (list@.len() == 1 && list@.contains(Inspectors::CexDex)) || list@.contains(
            Inspectors::CexDexMarkout,
        ),
        None => false,
    }
}

impl TimeWindowArgs {
    /// Whether every window, in microseconds, fits in 64 bits.
    pub open spec fn fits(self) -> bool {
        &&& self.time_window_before * SECONDS_TO_US <= u64::MAX
        &&& self.time_window_after * SECONDS_TO_US <= u64::MAX
        &&& self.time_window_before_optimistic * SECONDS_TO_US <= u64::MAX
        &&& self.time_window_after_optimistic * SECONDS_TO_US <= u64::MAX
    }

    /// The windows in microseconds.
    pub open spec fn in_microseconds(self) -> CexDexTradeConfig {
        CexDexTradeConfig {
            time_window_after_us: (self.time_window_after * SECONDS_TO_US) as u64,
            time_window_before_us: (self.time_window_before * SECONDS_TO_US) as u64,
            optimistic_before_us: (self.time_window_before_optimistic * SECONDS_TO_US) as u64,
            optimistic_after_us: (self.time_window_after_optimistic * SECONDS_TO_US) as u64,
            quotes_fetch_time: self.quotes_price_time,
        }
    }

    /// The longest of the four windows, in seconds.
    pub open spec fn longest(self) -> u64 {
        max_of(
            max_of(
                max_of(self.time_window_before, self.time_window_after),
                self.time_window_before_optimistic,
            ),
            self.time_window_after_optimistic,
        )
    }

    /// Whether every window, in microseconds, fits in 64 bits.
    pub fn check_fits(&self) -> (b: bool)
        ensures
            b == self.fits(),
    {
        let limit: u64 = u64::MAX / SECONDS_TO_US;
        self.time_window_before <= limit && self.time_window_after <= limit
            && self.time_window_before_optimistic <= limit && self.time_window_after_optimistic
            <= limit
    }
}

/// The longest of the four windows, in seconds, held at the largest
/// `usize`.
pub open spec fn load_window_of(windows: TimeWindowArgs) -> usize {
    if windows.longest() > usize::MAX {
        usize::MAX
    } else {
        windows.longest() as usize
    }
}

/// The larger of two numbers.
fn larger(a: u64, b: u64) -> (m: u64)
    ensures
        m == max_of(a, b),
{
    if a >= b {
        a
    } else {
        b
    }
}

impl RunArgs {
    /// The range of blocks is refused where its first block lies after its
    /// last.
    pub fn check_proper_range(&self) -> (res: Result<(), RunError>)
        ensures
            res == match (self.start_block, self.end_block) {
                (Some(start), Some(end)) => if start > end {
                    Err(RunError::StartAfterEnd)
                } else {
                    Ok(())
                },
                _ => Ok(()),
            },
    {
        match (self.start_block, self.end_block) {
            (Some(start), Some(end)) => {
                if start > end {
                    return Err(RunError::StartAfterEnd);
                }
            },
            _ => {},
        }
        Ok(())
    }

    /// The time window, in seconds, for which trades are loaded: the
    /// longest of the four, held at the largest `usize`.
    pub fn load_time_window(&self) -> (window: usize)
        ensures
            window == load_window_of(self.time_window_args),
    {
        let w = &self.time_window_args;
        let longest = larger(
            larger(
                larger(w.time_window_before, w.time_window_after),
                w.time_window_before_optimistic,
            ),
            w.time_window_after_optimistic,
        );
        if longest > usize::MAX as u64 {
            usize::MAX
        } else {
            longest as usize
        }
    }

    /// The time bounds of the pricers, in microseconds.
    pub fn trade_config(&self) -> (config: CexDexTradeConfig)
        requires
            self.time_window_args.fits(),
        ensures
            config == self.time_window_args.in_microseconds(),
    {
        let w = &self.time_window_args;
        CexDexTradeConfig {
            time_window_after_us: w.time_window_after * SECONDS_TO_US,
            time_window_before_us: w.time_window_before * SECONDS_TO_US,
            optimistic_before_us: w.time_window_before_optimistic * SECONDS_TO_US,
            optimistic_after_us: w.time_window_after_optimistic * SECONDS_TO_US,
            quotes_fetch_time: w.quotes_price_time,
        }
    }

    /// Over which blocks the run goes.
    pub fn mode(&self) -> (mode: RunMode)
        ensures
            mode == match (self.start_block, self.end_block) {
                (Some(start), Some(end)) => RunMode::Historical {
                    start_block: start,
                    end_block: end,
                },
                (Some(start), None) => RunMode::OpenEnded { start_block: start },
                (None, end) => RunMode::TipFollower {
                    behind_tip: self.behind_tip,
                    until: end,
                },
            },
    {
        match (self.start_block, self.end_block) {
            (Some(start), Some(end)) => RunMode::Historical { start_block: start, end_block: end },
            (Some(start), None) => RunMode::OpenEnded { start_block: start },
            (None, end) => RunMode::TipFollower { behind_tip: self.behind_tip, until: end },
        }
    }

    /// Whether the inspectors need no DEX prices.
    pub fn is_only_cex_dex(&self) -> (b: bool)
        ensures
            b == only_cex_dex(self.inspectors),
    {
        match &self.inspectors {
            Some(list) => {
                let mut has_cex_dex = false;
                let mut has_markout = false;
                let mut i: usize = 0;
                while i < list.len()
                    invariant
                        i <= list.len(),
                        has_cex_dex <==> exists|j: int|
                            0 <= j < i && list@[j] == Inspectors::CexDex,
                        has_markout <==> exists|j: int|
                            0 <= j < i && list@[j] == Inspectors::CexDexMarkout,
                    decreases list.len() - i,
                {
                    if list[i] == Inspectors::CexDex {
                        has_cex_dex = true;
                    }
                    if list[i] == Inspectors::CexDexMarkout {
                        has_markout = true;
                    }
                    i = i + 1;
                }
                (list.len() == 1 && has_cex_dex) || has_markout
            },
            None => false,
        }
    }

    /// The part that the run takes in the failover protocol: none unless
    /// failover is enabled; then a client of the server that is named, else
    /// a monitor.
    pub fn fallback_role(&self) -> (role: FallbackRole)
        ensures
            role == if !self.enable_fallback {
                FallbackRole::Disabled
            } else {
                match self.fallback_server {
                    Some(server) => FallbackRole::Client {
                        server,
                        interval_secs: HEARTBEAT_INTERVAL_SECS,
                    },
                    None => FallbackRole::Monitor { timeout_secs: HEARTBEAT_TIMEOUT_SECS },
                }
            },
    {
        if self.enable_fallback {
            match &self.fallback_server {
                Some(server) => FallbackRole::Client {
                    server: server.clone(),
                    interval_secs: HEARTBEAT_INTERVAL_SECS,
                },
                None => FallbackRole::Monitor { timeout_secs: HEARTBEAT_TIMEOUT_SECS },
            }
        } else {
            FallbackRole::Disabled
        }
    }

    /// What the run is to do, or why it cannot start: the range is checked
    /// first, then the two switches for DEX prices, which exclude each
    /// other, then the quote asset. Where the inspectors need no DEX
    /// prices, none are computed.
    pub fn plan(&self, physical_cores: u64) -> (res: Result<RunPlan, RunError>)
        requires
            self.time_window_args.fits(),
        ensures
            res is Err <==> self.plan_error() is Some,
            res matches Err(e) ==> self.plan_error() == Some(e),
            res matches Ok(plan) ==> {
                &&& Some(plan.quote_asset) == address_of_text(self.quote_asset@)
                &&& plan.max_tasks == match self.max_tasks {
                    Some(given) => given,
                    None => default_tasks(physical_cores),
                }
                &&& plan.min_batch_size == self.min_batch_size
                &&& plan.force_dex_pricing == self.force_dex_pricing
                &&& plan.force_no_dex_pricing == (self.force_no_dex_pricing || only_cex_dex(
                    self.inspectors,
                ))
                &&& plan.trade_config == self.time_window_args.in_microseconds()
                &&& plan.load_window == load_window_of(self.time_window_args)
                &&& plan.cli_only == self.cli_only
                &&& plan.with_metrics == self.with_metrics
                &&& plan.mode == match (self.start_block, self.end_block) {
                    (Some(start), Some(end)) => RunMode::Historical {
                        start_block: start,
                        end_block: end,
                    },
                    (Some(start), None) => RunMode::OpenEnded { start_block: start },
                    (None, end) => RunMode::TipFollower {
                        behind_tip: self.behind_tip,
                        until: end,
                    },
                }
            },
    {
        match self.check_proper_range() {
            Err(e) => {
                return Err(e);
            },
            Ok(()) => {},
        }
        if self.force_dex_pricing && self.force_no_dex_pricing {
            return Err(RunError::ConflictingDexPricing);
        }
        let quote_asset = match Address::parse(self.quote_asset.as_str()) {
            Some(address) => address,
            None => {
                return Err(RunError::InvalidQuoteAsset);
            },
        };
        let only = self.is_only_cex_dex();
        Ok(
            RunPlan {
                mode: self.mode(),
                max_tasks: determine_max_tasks(self.max_tasks, physical_cores),
                min_batch_size: self.min_batch_size,
                quote_asset,
                force_dex_pricing: self.force_dex_pricing,
                force_no_dex_pricing: self.force_no_dex_pricing || only,
                load_window: self.load_time_window(),
                trade_config: self.trade_config(),
                cli_only: self.cli_only,
                with_metrics: self.with_metrics,
            },
        )
    }

    /// Why the run cannot start, if it cannot.
    pub open spec fn plan_error(&self) -> Option<RunError> {
        if self.start_block matches Some(start) && self.end_block matches Some(end) && start
            > end {
            Some(RunError::StartAfterEnd)
        } else if self.force_dex_pricing && self.force_no_dex_pricing {
            Some(RunError::ConflictingDexPricing)
        } else if address_of_text(self.quote_asset@) is None {
            Some(RunError::InvalidQuoteAsset)
        } else {
            None
        }
    }
}

/// The directory of the configuration, relative to the working directory.
pub fn get_config_dir() -> (directory: String)
    ensures
        directory@ == "./config"@,
{
    "./config".to_owned()
}

} // verus!
