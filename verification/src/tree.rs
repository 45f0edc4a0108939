//! The block tree as far as the composer reads it: the header and, for
//! each transaction, its gas details.

use crate::parser::TxTrace;
use crate::primitives::{Address, B256};
use vstd::prelude::*;

verus! {

/// A block header.
#[derive(Clone, Copy, Debug, PartialEq, Eq, Structural)]
pub struct Header {
    pub number: u64,
    pub hash: B256,
    pub timestamp: u64,
    pub beneficiary: Address,
    pub base_fee: u64,
}

/// What a transaction paid for its gas. The priority fee is what is paid
/// above the base fee, which is burnt.
#[derive(Clone, Copy, Debug, PartialEq, Eq, Structural)]
pub struct GasDetails {
    pub coinbase_transfer: Option<u128>,
    pub priority_fee: u128,
    pub gas_used: u128,
    pub effective_gas_price: u128,
}

/// The root of one transaction's call tree.
#[derive(Clone, Copy, Debug, PartialEq, Eq, Structural)]
pub struct Root {
    pub tx_hash: B256,
    pub tx_idx: u64,
    pub gas_details: GasDetails,
}

/// The transactions of one block, in block order.
pub struct BlockTree {
    pub header: Header,
    pub tx_roots: Vec<Root>,
}

/// The gas that the transactions used, in total.
pub open spec fn cumulative_gas_used(roots: Seq<Root>) -> int
    decreases roots.len(),
{
    if roots.len() == 0 {
        0
    } else {
        cumulative_gas_used(roots.drop_last()) + roots.last().gas_details.gas_used
    }
}

/// The priority fees of the transactions, in total.
pub open spec fn cumulative_priority_fee(roots: Seq<Root>) -> int
    decreases roots.len(),
{
    if roots.len() == 0 {
        0
    } else {
        cumulative_priority_fee(roots.drop_last()) + roots.last().gas_details.priority_fee
    }
}

/// Why no tree can be built of a block's traces.
#[derive(Clone, Copy, Debug, PartialEq, Eq, Structural)]
pub enum TreeError {
    /// The traces are not those of the transactions zero, one, two and so
    /// on, in this order.
    Inconsistent,
}

/// What a transaction pays for a unit of gas above the base fee.
pub open spec fn priority_fee_of(effective_price: u128, base_fee: u64) -> u128 {
    if effective_price >= base_fee {
        (effective_price - base_fee) as u128
    } else {
        0
    }
}

/// The root of a transaction: its gas used and its gas price are those of
/// its receipt, and its priority fee is its gas price less the base fee.
pub open spec fn root_of(trace: TxTrace, base_fee: u64) -> Root {
    Root {
        tx_hash: trace.tx_hash,
        tx_idx: trace.tx_index,
        gas_details: GasDetails {
            coinbase_transfer: None,
            priority_fee: priority_fee_of(trace.effective_price, base_fee),
            gas_used: trace.gas_used,
            effective_gas_price: trace.effective_price,
        },
    }
}

/// Whether the traces are those of the transactions zero, one, two and so
/// on, in this order.
pub open spec fn dense(traces: Seq<TxTrace>) -> bool {
    forall|i: int| 0 <= i < traces.len() ==> (#[trigger] traces[i]).tx_index == i
}

/// The roots of the traces, in order.
pub open spec fn roots_of(traces: Seq<TxTrace>, base_fee: u64) -> Seq<Root> {
    traces.map_values(|t: TxTrace| root_of(t, base_fee))
}

/// The gas that the receipts of the traces report, in total.
pub open spec fn receipt_gas(traces: Seq<TxTrace>) -> int
    decreases traces.len(),
{
    if traces.len() == 0 {
        0
    } else {
        receipt_gas(traces.drop_last()) + traces.last().gas_used
    }
}

/// The gas prices of the traces, in total.
pub open spec fn total_gas_price(traces: Seq<TxTrace>) -> int
    decreases traces.len(),
{
    if traces.len() == 0 {
        0
    } else {
        total_gas_price(traces.drop_last()) + traces.last().effective_price
    }
}

/// The tree of a block: one root for each trace, in block order; no tree
/// where the traces are not those of the transactions zero, one, two and
/// so on.
pub fn build_tree(header: Header, traces: &Vec<TxTrace>) -> (res: Result<BlockTree, TreeError>)
    ensures
        res is Ok <==> dense(traces@),
        res matches Ok(tree) ==> tree.header == header && tree.tx_roots@ == roots_of(
            traces@,
            header.base_fee,
        ),
{
    let mut tx_roots: Vec<Root> = Vec::new();
    let mut i: usize = 0;
    while i < traces.len()
        invariant
            i <= traces.len(),
            tx_roots.len() == i,
            forall|j: int| 0 <= j < i ==> (#[trigger] traces[j]).tx_index == j,
            forall|j: int| 0 <= j < i ==> tx_roots[j] == root_of(traces[j], header.base_fee),
        decreases traces.len() - i,
    {
        let trace = traces[i];
        if trace.tx_index != i as u64 {
            return Err(TreeError::Inconsistent);
        }
        let priority_fee = if trace.effective_price >= header.base_fee as u128 {
            trace.effective_price - header.base_fee as u128
        } else {
            0
        };
        tx_roots.push(
            Root {
                tx_hash: trace.tx_hash,
                tx_idx: trace.tx_index,
                gas_details: GasDetails {
                    coinbase_transfer: None,
                    priority_fee,
                    gas_used: trace.gas_used,
                    effective_gas_price: trace.effective_price,
                },
            },
        );
        i = i + 1;
    }
    Ok(BlockTree { header, tx_roots })
}

/// The gas that a tree's transactions used is the gas that their receipts
/// report.
pub proof fn tree_gas_is_receipt_gas(traces: Seq<TxTrace>, base_fee: u64)
    ensures
        cumulative_gas_used(roots_of(traces, base_fee)) == receipt_gas(traces),
    decreases traces.len(),
{
    if traces.len() > 0 {
        tree_gas_is_receipt_gas(traces.drop_last(), base_fee);
        assert(roots_of(traces, base_fee).drop_last() =~= roots_of(traces.drop_last(), base_fee));
    }
}

/// The priority fees of a tree hold no part of the base fee: they are the
/// gas prices less the base fee, once for each transaction, where every
/// transaction pays at least the base fee.
pub proof fn priority_fees_exclude_base_fee(traces: Seq<TxTrace>, base_fee: u64)
    requires
        forall|i: int| 0 <= i < traces.len() ==> (#[trigger] traces[i]).effective_price >= base_fee,
    ensures
        cumulative_priority_fee(roots_of(traces, base_fee)) == total_gas_price(traces)
            - traces.len() * base_fee,
    decreases traces.len(),
{
    if traces.len() > 0 {
        let init = traces.drop_last();
        priority_fees_exclude_base_fee(init, base_fee);
        assert(roots_of(traces, base_fee).drop_last() =~= roots_of(init, base_fee));
        assert(traces.len() * base_fee == init.len() * base_fee + base_fee) by (nonlinear_arith)
            requires
                traces.len() == init.len() + 1,
        ;
    }
}

/// Whether the gas used and the priority fees of the block each fit, in
/// total, in 128 bits.
pub fn totals_fit(tree: &BlockTree) -> (b: bool)
    ensures
        b == (cumulative_gas_used(tree.tx_roots@) <= u128::MAX && cumulative_priority_fee(
            tree.tx_roots@,
        ) <= u128::MAX),
{
    let ghost roots = tree.tx_roots@;
    let mut gas_used: u128 = 0;
    let mut priority_fee: u128 = 0;
    let mut i: usize = 0;
    while i < tree.tx_roots.len()
        invariant
            i <= tree.tx_roots.len(),
            roots == tree.tx_roots@,
            gas_used == cumulative_gas_used(roots.take(i as int)),
            priority_fee == cumulative_priority_fee(roots.take(i as int)),
        decreases tree.tx_roots.len() - i,
    {
        let details = tree.tx_roots[i].gas_details;
        proof {
            assert(roots.take(i + 1).drop_last() =~= roots.take(i as int));
            lemma_totals_grow(roots, i + 1);
        }
        if gas_used > u128::MAX - details.gas_used || priority_fee > u128::MAX
            - details.priority_fee {
            return false;
        }
        gas_used = gas_used + details.gas_used;
        priority_fee = priority_fee + details.priority_fee;
        i = i + 1;
    }
    assert(roots.take(i as int) =~= roots);
    true
}

/// The totals of a part of the transactions do not exceed those of all.
pub proof fn lemma_totals_grow(roots: Seq<Root>, n: int)
    requires
        0 <= n <= roots.len(),
    ensures
        0 <= cumulative_gas_used(roots.take(n)) <= cumulative_gas_used(roots),
        0 <= cumulative_priority_fee(roots.take(n)) <= cumulative_priority_fee(roots),
    decreases roots.len() - n,
{
    if n == roots.len() {
        assert(roots.take(n) =~= roots);
        lemma_totals_nonnegative(roots);
    } else {
        lemma_totals_grow(roots, n + 1);
        assert(roots.take(n + 1).drop_last() =~= roots.take(n));
        lemma_totals_nonnegative(roots.take(n));
    }
}

/// The totals are never negative.
pub proof fn lemma_totals_nonnegative(roots: Seq<Root>)
    ensures
        0 <= cumulative_gas_used(roots),
        0 <= cumulative_priority_fee(roots),
    decreases roots.len(),
{
    if roots.len() > 0 {
        lemma_totals_nonnegative(roots.drop_last());
    }
}

} // verus!
