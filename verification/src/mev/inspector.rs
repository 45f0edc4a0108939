//! The inspector that gathers the results of all others for one block at
//! a time.

use crate::mev::header::{
    is_block_header, pre_process, total_bribe, total_priority_fee_paid, BlockPreprocessing,
};
use crate::mev::rules::{compose_bundles, composed_bundles, ComposerResults};
use crate::mev::types::{Bundle, MetadataCombined, PossibleMevCollection};
use crate::tree::{cumulative_gas_used, cumulative_priority_fee, BlockTree};
use vstd::prelude::*;

verus! {

/// Gathers what the inspectors emit for a block and composes it. Between
/// a new tree and the resolution of its inspectors it is processing, and
/// holds the totals of the block's transactions.
pub struct DaddyInspector {
    pre_processing: Option<BlockPreprocessing>,
}

impl DaddyInspector {
    /// The totals of the block that is being processed, if one is.
    pub closed spec fn totals(&self) -> Option<BlockPreprocessing> {
        self.pre_processing
    }

    /// An inspector at rest.
    pub fn new() -> (inspector: DaddyInspector)
        ensures
            inspector.totals() is None,
    {
        DaddyInspector { pre_processing: None }
    }

    /// Whether a block is being processed.
    pub fn is_processing(&self) -> (b: bool)
        ensures
            b == self.totals() is Some,
    {
        self.pre_processing.is_some()
    }

    /// Takes up a block: its totals are computed and held until its
    /// inspectors have resolved.
    pub fn on_new_tree(&mut self, tree: &BlockTree)
        requires
            cumulative_gas_used(tree.tx_roots@) <= u128::MAX,
            cumulative_priority_fee(tree.tx_roots@) <= u128::MAX,
        ensures
            final(self).totals() == Some(
                BlockPreprocessing {
                    cumulative_gas_used: cumulative_gas_used(tree.tx_roots@) as u128,
                    cumulative_priority_fee: cumulative_priority_fee(tree.tx_roots@) as u128,
                    builder_address: tree.header.beneficiary,
                },
            ),
    {
        self.pre_processing = Some(pre_process(tree));
    }

    /// Composes what the inspectors emitted for the block that is being
    /// processed, and comes to rest.
    pub fn on_baby_resolution(
        &mut self,
        metadata: &MetadataCombined,
        possible_mev: PossibleMevCollection,
        baby_data: Vec<Bundle>,
    ) -> (results: ComposerResults)
        requires
            old(self).totals() is Some,
            total_bribe(baby_data.deep_view()) <= u128::MAX,
            total_priority_fee_paid(baby_data.deep_view()) <= u128::MAX,
        ensures
            final(self).totals() is None,
            (results.block_details.mev_count, results.mev_details.deep_view())
                == composed_bundles(baby_data.deep_view()),
            is_block_header(
                results.block_details,
                *metadata,
                old(self).totals()->Some_0,
                possible_mev,
                composed_bundles(baby_data.deep_view()).1,
            ),
    {
        let pre_processing = self.pre_processing.unwrap();
        self.pre_processing = None;
        compose_bundles(baby_data, possible_mev, &pre_processing, metadata)
    }
}

} // verus!
