//! What the trace parser decides: what a block's traces and receipts make
//! together, and what the classifier configuration writes to the store.

use crate::primitives::{address_of_text, Address, B256};
use vstd::prelude::*;

verus! {

/// Why a block or a transaction yielded no traces.
#[derive(Clone, Copy, Debug, PartialEq, Eq, Structural)]
pub enum TraceParseErrorKind {
    /// The tracer knows no such block.
    TracesMissingBlock,
    /// The tracer failed.
    TracesError,
}

/// What is recorded of the parsing of one transaction.
#[derive(Clone, Copy, Debug, PartialEq, Eq, Structural)]
pub struct TransactionStats {
    pub block_num: u64,
    pub tx_hash: B256,
    pub tx_idx: u16,
    pub err: Option<TraceParseErrorKind>,
}

/// What is recorded of the parsing of one block.
pub struct BlockStats {
    pub block_num: u64,
    pub txs: Vec<TransactionStats>,
    pub err: Option<TraceParseErrorKind>,
}

impl BlockStats {
    /// The record of a block with no transaction parsed yet.
    pub fn new(block_num: u64, err: Option<TraceParseErrorKind>) -> (stats: BlockStats)
        ensures
            stats.block_num == block_num,
            stats.err == err,
            stats.txs@ == Seq::<TransactionStats>::empty(),
    {
        BlockStats { block_num, txs: Vec::new(), err }
    }
}

/// The trace of one transaction with what its receipt says of its gas.
#[derive(Clone, Copy, Debug, PartialEq, Eq, Structural)]
pub struct TxTrace {
    pub block_number: u64,
    pub tx_hash: B256,
    pub tx_index: u64,
    pub gas_used: u128,
    pub effective_price: u128,
    pub is_success: bool,
}

/// What the receipt of a transaction says.
#[derive(Clone, Copy, Debug, PartialEq, Eq, Structural)]
pub struct TransactionReceipt {
    pub transaction_index: u64,
    pub gas_used: Option<u128>,
    pub effective_gas_price: u128,
}

/// What the tracer answered for a block.
pub enum TracerAnswer<T> {
    /// The block's data.
    Found(T),
    /// The tracer knows no such block.
    Missing,
    /// The tracer failed.
    Failed,
}

/// The traces of a block and the record of how they were got: a block
/// that the tracer does not know, or on which it failed, is recorded with
/// its error.
pub fn trace_outcome(block_num: u64, answer: TracerAnswer<Vec<TxTrace>>) -> (out: (
    Option<Vec<TxTrace>>,
    BlockStats,
))
    ensures
        out.1.block_num == block_num,
        out.1.txs@.len() == 0,
        match answer {
            TracerAnswer::Found(traces) => out.0 == Some(traces) && out.1.err is None,
            TracerAnswer::Missing => out.0 is None && out.1.err == Some(
                TraceParseErrorKind::TracesMissingBlock,
            ),
            TracerAnswer::Failed => out.0 is None && out.1.err == Some(
                TraceParseErrorKind::TracesError,
            ),
        },
{
    let mut stats = BlockStats::new(block_num, None);
    let trace = match answer {
        TracerAnswer::Found(traces) => Some(traces),
        TracerAnswer::Missing => {
            stats.err = Some(TraceParseErrorKind::TracesMissingBlock);
            None
        },
        TracerAnswer::Failed => {
            stats.err = Some(TraceParseErrorKind::TracesError);
            None
        },
    };
    (trace, stats)
}

/// The receipts of a block and the record of how they were got: a block
/// that the tracer does not know, or on which it failed, is recorded with
/// its error.
pub fn receipts_outcome(block_num: u64, answer: TracerAnswer<Vec<TransactionReceipt>>) -> (out: (
    Option<Vec<TransactionReceipt>>,
    BlockStats,
))
    ensures
        out.1.block_num == block_num,
        out.1.txs@.len() == 0,
        match answer {
            TracerAnswer::Found(receipts) => out.0 == Some(receipts) && out.1.err is None,
            TracerAnswer::Missing => out.0 is None && out.1.err == Some(
                TraceParseErrorKind::TracesMissingBlock,
            ),
            TracerAnswer::Failed => out.0 is None && out.1.err == Some(
                TraceParseErrorKind::TracesError,
            ),
        },
{
    let mut stats = BlockStats::new(block_num, None);
    let receipts = match answer {
        TracerAnswer::Found(receipts) => Some(receipts),
        TracerAnswer::Missing => {
            stats.err = Some(TraceParseErrorKind::TracesMissingBlock);
            None
        },
        TracerAnswer::Failed => {
            stats.err = Some(TraceParseErrorKind::TracesError);
            None
        },
    };
    (receipts, stats)
}

/// The largest index that the record of a transaction can hold.
pub const MAX_TX_INDEX: u64 = 0xffff;

/// A trace with the gas that its receipt reports.
pub open spec fn with_gas(trace: TxTrace, gas_used: u128, effective_gas_price: u128) -> TxTrace {
    TxTrace { gas_used, effective_price: effective_gas_price, ..trace }
}

/// Puts what the receipt reports of the gas into the trace of a
/// transaction, and makes the record of its parsing. The record holds the
/// transaction's index in sixteen bits, so the index is at most
/// [`MAX_TX_INDEX`].
pub fn parse_transaction(
    tx_trace: TxTrace,
    block_num: u64,
    tx_hash: B256,
    tx_idx: u64,
    gas_used: u128,
    effective_gas_price: u128,
) -> (out: (TxTrace, TransactionStats))
    requires
        tx_idx <= MAX_TX_INDEX,
    ensures
        out.0 == with_gas(tx_trace, gas_used, effective_gas_price),
        out.1 == (TransactionStats { block_num, tx_hash, tx_idx: tx_idx as u16, err: None }),
{
    let stats = TransactionStats { block_num, tx_hash, tx_idx: tx_idx as u16, err: None };
    let mut tx_trace = tx_trace;
    tx_trace.effective_price = effective_gas_price;
    tx_trace.gas_used = gas_used;
    (tx_trace, stats)
}

/// The gas that a receipt reports, or zero where it reports none.
pub open spec fn reported_gas(receipt: TransactionReceipt) -> u128 {
    match receipt.gas_used {
        Some(gas) => gas,
        None => 0,
    }
}

/// The number of transactions that have both a trace and a receipt.
pub open spec fn joined_len(traces: Seq<TxTrace>, receipts: Seq<TransactionReceipt>) -> int {
    if traces.len() <= receipts.len() {
        traces.len() as int
    } else {
        receipts.len() as int
    }
}

/// Whether every receipt reports the gas that its transaction used, and an
/// index that the record of a transaction can hold.
pub open spec fn complete(receipts: Seq<TransactionReceipt>) -> bool {
    forall|i: int|
        0 <= i < receipts.len() ==> (#[trigger] receipts[i]).gas_used is Some
            && receipts[i].transaction_index <= MAX_TX_INDEX
}

/// Whether every receipt reports the gas that its transaction used, and an
/// index that the record of a transaction can hold.
pub fn receipts_complete(receipts: &Vec<TransactionReceipt>) -> (b: bool)
    ensures
        b == complete(receipts@),
{
    let mut i: usize = 0;
    while i < receipts.len()
        invariant
            i <= receipts.len(),
            forall|j: int|
                0 <= j < i ==> (#[trigger] receipts[j]).gas_used is Some
                    && receipts[j].transaction_index <= MAX_TX_INDEX,
        decreases receipts.len() - i,
    {
        if receipts[i].gas_used.is_none() || receipts[i].transaction_index > MAX_TX_INDEX {
            return false;
        }
        i = i + 1;
    }
    true
}

/// Whether `traces` and `stats` are what the traces of a block and its
/// receipts make together: each transaction with both a trace and a
/// receipt has, in block order, its trace with the gas used and the gas
/// price of its receipt, and its record.
pub open spec fn is_joined(
    traces: Seq<TxTrace>,
    stats: BlockStats,
    block_trace: Seq<TxTrace>,
    block_receipts: Seq<TransactionReceipt>,
    block_num: u64,
) -> bool {
    &&& traces.len() == joined_len(block_trace, block_receipts)
    &&& forall|i: int|
        0 <= i < traces.len() ==> traces[i] == with_gas(
            block_trace[i],
            reported_gas(block_receipts[i]),
            block_receipts[i].effective_gas_price,
        )
    &&& stats.block_num == block_num
    &&& stats.err is None
    &&& stats.txs.len() == traces.len()
    &&& forall|i: int|
        0 <= i < traces.len() ==> stats.txs[i] == (TransactionStats {
            block_num,
            tx_hash: block_trace[i].tx_hash,
            tx_idx: block_receipts[i].transaction_index as u16,
            err: None,
        })
}

/// Joins the traces of a block with its receipts, in block order: each
/// trace gets the gas used and the gas price of its receipt, and each
/// transaction its record. A transaction without a receipt is left out.
pub fn fill_metadata(
    block_trace: Vec<TxTrace>,
    block_receipts: Vec<TransactionReceipt>,
    block_num: u64,
) -> (out: (Vec<TxTrace>, BlockStats))
    requires
        complete(block_receipts@),
    ensures
        is_joined(out.0@, out.1, block_trace@, block_receipts@, block_num),
{
    let mut stats = BlockStats::new(block_num, None);
    let mut traces: Vec<TxTrace> = Vec::new();
    let mut tx_stats: Vec<TransactionStats> = Vec::new();
    let mut i: usize = 0;
    while i < block_trace.len() && i < block_receipts.len()
        invariant
            i <= block_trace.len(),
            i <= block_receipts.len(),
            traces.len() == i,
            tx_stats.len() == i,
            complete(block_receipts@),
            forall|j: int|
                0 <= j < i ==> traces[j] == with_gas(
                    block_trace[j],
                    reported_gas(block_receipts[j]),
                    block_receipts[j].effective_gas_price,
                ),
            forall|j: int|
                0 <= j < i ==> tx_stats[j] == (TransactionStats {
                    block_num,
                    tx_hash: block_trace[j].tx_hash,
                    tx_idx: block_receipts[j].transaction_index as u16,
                    err: None,
                }),
        decreases block_trace.len() - i,
    {
        let trace = block_trace[i];
        let receipt = block_receipts[i];
        let gas_used = match receipt.gas_used {
            Some(gas) => gas,
            None => 0,
        };
        let (filled, tx_stat) = parse_transaction(
            trace,
            block_num,
            trace.tx_hash,
            receipt.transaction_index,
            gas_used,
            receipt.effective_gas_price,
        );
        traces.push(filled);
        tx_stats.push(tx_stat);
        i = i + 1;
    }
    stats.txs = tx_stats;
    (traces, stats)
}

/// What came of a block that the store does not hold.
pub enum BlockOutcome {
    /// The traces or the receipts are missing: the block is skipped, and
    /// the record that carries the error is reported.
    Missing { stats: BlockStats },
    /// The block was traced: its traces are to be stored, and their record
    /// is reported.
    Traced { traces: Vec<TxTrace>, stats: BlockStats },
}

/// The error with which missing receipts are recorded: the one that their
/// record carries, and that of a missing block where it carries none.
pub open spec fn receipts_error(err: Option<TraceParseErrorKind>) -> TraceParseErrorKind {
    match err {
        Some(kind) => kind,
        None => TraceParseErrorKind::TracesMissingBlock,
    }
}

/// What comes of a block that the store does not hold, from what the
/// tracer answered for its traces and for its receipts. With both, the
/// block is traced. Without traces, the block is skipped with the record of
/// its traces; with traces and without receipts, it is skipped with a
/// record that carries the error of the receipts.
pub fn execute_block(
    block_num: u64,
    parity_trace: (Option<Vec<TxTrace>>, BlockStats),
    receipts: (Option<Vec<TransactionReceipt>>, BlockStats),
) -> (outcome: BlockOutcome)
    requires
        receipts.0 matches Some(list) ==> complete(list@),
    ensures
        match (parity_trace.0, receipts.0) {
            (Some(traces), Some(list)) => outcome matches BlockOutcome::Traced {
                traces: filled,
                stats,
            } && is_joined(filled@, stats, traces@, list@, block_num),
            (Some(_), None) => outcome matches BlockOutcome::Missing { stats } && stats.block_num
                == block_num && stats.txs@.len() == 0 && stats.err == Some(
                receipts_error(receipts.1.err),
            ),
            (None, _) => outcome matches BlockOutcome::Missing { stats } && stats
                == parity_trace.1,
        },
{
    match (parity_trace.0, receipts.0) {
        (Some(traces), Some(list)) => {
            let (filled, stats) = fill_metadata(traces, list, block_num);
            BlockOutcome::Traced { traces: filled, stats }
        },
        (Some(_), None) => {
            let err = match receipts.1.err {
                Some(kind) => kind,
                None => TraceParseErrorKind::TracesMissingBlock,
            };
            BlockOutcome::Missing { stats: BlockStats::new(block_num, Some(err)) }
        },
        (None, _) => BlockOutcome::Missing { stats: parity_trace.1 },
    }
}

/// The decentralized protocols that pools belong to.
#[derive(Clone, Copy, Debug, PartialEq, Eq, Hash, Structural)]
pub enum Protocol {
    UniswapV2,
    SushiSwapV2,
    UniswapV3,
    SushiSwapV3,
    CurveCryptoSwap,
    AaveV2,
    AaveV3,
    UniswapX,
}

/// The protocol that a name denotes.
pub open spec fn protocol_of_name(name: Seq<char>) -> Option<Protocol> {
    if name == "UniswapV2"@ {
        Some(Protocol::UniswapV2)
    } else if name == "SushiSwapV2"@ {
        Some(Protocol::SushiSwapV2)
    } else if name == "UniswapV3"@ {
        Some(Protocol::UniswapV3)
    } else if name == "SushiSwapV3"@ {
        Some(Protocol::SushiSwapV3)
    } else if name == "CurveCryptoSwap"@ {
        Some(Protocol::CurveCryptoSwap)
    } else if name == "AaveV2"@ {
        Some(Protocol::AaveV2)
    } else if name == "AaveV3"@ {
        Some(Protocol::AaveV3)
    } else if name == "UniswapX"@ {
        Some(Protocol::UniswapX)
    } else {
        None
    }
}

impl Protocol {
    /// The protocol that a name denotes.
    pub fn parse(name: &String) -> (protocol: Option<Protocol>)
        ensures
            protocol == protocol_of_name(name@),
    {
        if *name == "UniswapV2".to_owned() {
            Some(Protocol::UniswapV2)
        } else if *name == "SushiSwapV2".to_owned() {
            Some(Protocol::SushiSwapV2)
        } else if *name == "UniswapV3".to_owned() {
            Some(Protocol::UniswapV3)
        } else if *name == "SushiSwapV3".to_owned() {
            Some(Protocol::SushiSwapV3)
        } else if *name == "CurveCryptoSwap".to_owned() {
            Some(Protocol::CurveCryptoSwap)
        } else if *name == "AaveV2".to_owned() {
            Some(Protocol::AaveV2)
        } else if *name == "AaveV3".to_owned() {
            Some(Protocol::AaveV3)
        } else if *name == "UniswapX".to_owned() {
            Some(Protocol::UniswapX)
        } else {
            None
        }
    }
}

/// A token as the classifier configuration names it.
pub struct TokenInfoWithAddressToml {
    pub symbol: String,
    pub decimals: u8,
    pub address: Address,
}

/// One pool of the classifier configuration, as it was read.
pub struct PoolConfig {
    pub protocol: String,
    pub address: String,
    pub init_block: u64,
    pub token_info: Vec<TokenInfoWithAddressToml>,
}

/// The pool that one entry of the configuration puts into the store.
#[derive(Clone, Copy, Debug, PartialEq, Eq, Structural)]
pub struct PoolInsert {
    pub init_block: u64,
    pub address: Address,
    pub token0: Address,
    pub token1: Address,
    pub protocol: Protocol,
}

/// Why an entry of the configuration is refused.
#[derive(Clone, Copy, Debug, PartialEq, Eq, Structural)]
pub enum ConfigError {
    UnknownProtocol,
    InvalidAddress,
}

/// The two tokens of a pool: the first two that the entry names, or the
/// zero address twice where it names fewer.
pub open spec fn pool_tokens(token_info: Seq<TokenInfoWithAddressToml>) -> (Address, Address) {
    if token_info.len() < 2 {
        (Address::zero_spec(), Address::zero_spec())
    } else {
        (token_info[0].address, token_info[1].address)
    }
}

/// The pool that an entry of the configuration puts into the store, or why
/// the entry is refused. Every token that the entry names is written too.
pub open spec fn pool_of(entry: PoolConfig) -> Result<PoolInsert, ConfigError> {
    match protocol_of_name(entry.protocol@) {
        None => Err(ConfigError::UnknownProtocol),
        Some(protocol) => match address_of_text(entry.address@) {
            None => Err(ConfigError::InvalidAddress),
            Some(address) => Ok(
                PoolInsert {
                    init_block: entry.init_block,
                    address,
                    token0: pool_tokens(entry.token_info@).0,
                    token1: pool_tokens(entry.token_info@).1,
                    protocol,
                },
            ),
        },
    }
}

/// The pool that an entry of the classifier configuration puts into the
/// store, or why the entry is refused.
pub fn store_config_data(entry: &PoolConfig) -> (res: Result<PoolInsert, ConfigError>)
    ensures
        res == pool_of(*entry),
{
    let protocol = match Protocol::parse(&entry.protocol) {
        Some(protocol) => protocol,
        None => {
            return Err(ConfigError::UnknownProtocol);
        },
    };
    let address = match Address::parse(entry.address.as_str()) {
        Some(address) => address,
        None => {
            return Err(ConfigError::InvalidAddress);
        },
    };
    let tokens = if entry.token_info.len() < 2 {
        (Address::default(), Address::default())
    } else {
        (entry.token_info[0].address, entry.token_info[1].address)
    };
    Ok(
        PoolInsert {
            init_block: entry.init_block,
            address,
            token0: tokens.0,
            token1: tokens.1,
            protocol,
        },
    )
}

} // verus!
