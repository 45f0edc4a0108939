//! The composition table and the composer's whole run over one block.

use crate::mev::composer::{
    after_compose, after_reduce, compose_all, compose_dep_filter, filter_and_count_bundles,
    filtered, get_compose_fn, kept_by_profit, lemma_first_composable, reduced,
    replace_dep_filter, ComposeFunction,
};
use crate::mev::header::{
    build_mev_header, is_block_header, pre_process, total_bribe, total_priority_fee_paid, Amount,
    BlockPreprocessing,
};
use crate::mev::totals::composer_adds_no_payment;
use crate::mev::sorted::{sort_mev_by_type, sorted_by_type, SortedMev, SortedView};
use crate::mev::types::{
    Bundle, BundleView, MetadataCombined, MevBlock, MevCount, MevType, PossibleMevCollection,
};
use crate::tree::{cumulative_gas_used, cumulative_priority_fee, BlockTree};
use vstd::prelude::*;

verus! {

/// One line of the composition table: bundles of the kinds `deps` are
/// reduced by those of kind `head`, or composed into bundles of kind `head`.
pub struct Rule {
    pub head: MevType,
    pub compose: Option<ComposeFunction>,
    pub deps: Vec<MevType>,
}

/// What a [`Rule`] denotes.
pub struct RuleView {
    pub head: MevType,
    pub compose: Option<ComposeFunction>,
    pub deps: Seq<MevType>,
}

impl View for Rule {
    type V = RuleView;

    open spec fn view(&self) -> RuleView {
        RuleView { head: self.head, compose: self.compose, deps: self.deps@ }
    }
}

impl RuleView {
    /// A rule that composes names exactly two kinds, and two that differ.
    pub open spec fn wf(self) -> bool {
        self.compose is Some ==> self.deps.len() == 2 && self.deps[0] != self.deps[1]
    }
}

/// The groups after one rule.
pub open spec fn after_rule(sorted: SortedView, rule: RuleView) -> SortedView {
    match rule.compose {
        Some(_) => after_compose(sorted, rule.head, rule.deps[0], rule.deps[1]),
        None => after_reduce(sorted, rule.head, rule.deps),
    }
}

/// The groups after the rules, one after the other.
pub open spec fn after_rules(sorted: SortedView, rules: Seq<RuleView>) -> SortedView
    decreases rules.len(),
{
    if rules.len() == 0 {
        sorted
    } else {
        after_rule(after_rules(sorted, rules.drop_last()), rules.last())
    }
}

/// The composition table. First a sandwich takes up the backruns and the
/// just-in-time bundles that lie within it; then a sandwich and a
/// just-in-time bundle over the same transactions become a composed
/// sandwich.
pub open spec fn composition_table() -> Seq<RuleView> {
    seq![
        RuleView {
            head: MevType::Sandwich,
            compose: None,
            deps: seq![MevType::Backrun, MevType::Jit],
        },
        RuleView {
            head: MevType::JitSandwich,
            compose: Some(ComposeFunction::SandwichJit),
            deps: seq![MevType::Sandwich, MevType::Jit],
        },
    ]
}

/// The groups after the whole composition table.
pub open spec fn composed_groups(sorted: SortedView) -> SortedView {
    after_rules(sorted, composition_table())
}

/// The composition table.
pub fn mev_filter() -> (table: Vec<Rule>)
    ensures
        table.len() == 2,
        table[0]@ == composition_table()[0],
        table[1]@ == composition_table()[1],
{
    let mut reduce_deps: Vec<MevType> = Vec::new();
    reduce_deps.push(MevType::Backrun);
    reduce_deps.push(MevType::Jit);
    let mut compose_deps: Vec<MevType> = Vec::new();
    compose_deps.push(MevType::Sandwich);
    compose_deps.push(MevType::Jit);
    assert(reduce_deps@ =~= seq![MevType::Backrun, MevType::Jit]);
    assert(compose_deps@ =~= seq![MevType::Sandwich, MevType::Jit]);
    let mut table: Vec<Rule> = Vec::new();
    table.push(
        Rule {
            head: MevType::Sandwich,
            compose: get_compose_fn(MevType::Sandwich),
            deps: reduce_deps,
        },
    );
    table.push(
        Rule {
            head: MevType::JitSandwich,
            compose: get_compose_fn(MevType::JitSandwich),
            deps: compose_deps,
        },
    );
    table
}

/// Applies one rule of the table to the groups.
pub fn apply_rule(rule: &Rule, sorted_mev: &mut SortedMev)
    requires
        rule@.wf(),
    ensures
        final(sorted_mev).deep_view() == after_rule(old(sorted_mev).deep_view(), rule@),
{
    match rule.compose {
        Some(compose_fn) => {
            compose_dep_filter(rule.head, &rule.deps, compose_fn, sorted_mev);
        },
        None => {
            replace_dep_filter(rule.head, &rule.deps, sorted_mev);
        },
    }
}

/// Applies the composition table to the groups.
pub fn compose_groups(sorted_mev: &mut SortedMev)
    ensures
        final(sorted_mev).deep_view() == composed_groups(old(sorted_mev).deep_view()),
{
    let ghost start = sorted_mev.deep_view();
    let table = mev_filter();
    let ghost rules = composition_table();
    assert(after_rules(start, rules.drop_last().drop_last()) == start);
    apply_rule(&table[0], sorted_mev);
    assert(sorted_mev.deep_view() == after_rules(start, rules.drop_last()));
    apply_rule(&table[1], sorted_mev);
}

/// Reducing removes bundles and adds none.
pub proof fn lemma_reduced_len(deps: Seq<BundleView>, heads: Seq<BundleView>)
    ensures
        reduced(deps, heads).len() <= deps.len(),
    decreases deps.len(),
{
    if deps.len() > 0 {
        lemma_reduced_len(deps.drop_last(), heads);
    }
}

/// Reducing does not add to the number of bundles.
pub proof fn lemma_after_reduce_len(sorted: SortedView, head: MevType, deps: Seq<MevType>)
    ensures
        after_reduce(sorted, head, deps).total_len() <= sorted.total_len(),
    decreases deps.len(),
{
    if deps.len() > 0 {
        lemma_after_reduce_len(sorted, head, deps.drop_last());
        let prior = after_reduce(sorted, head, deps.drop_last());
        lemma_reduced_len(prior.get(deps.last()), prior.get(head));
    }
}

/// Composing takes each sandwich once and no just-in-time bundle twice.
pub proof fn lemma_compose_all_len(sandwiches: Seq<BundleView>, jits: Seq<BundleView>)
    ensures
        compose_all(sandwiches, jits).kept.len() + compose_all(sandwiches, jits).made.len()
            == sandwiches.len(),
        compose_all(sandwiches, jits).rest.len() + compose_all(sandwiches, jits).made.len()
            == jits.len(),
    decreases sandwiches.len(),
{
    if sandwiches.len() > 0 {
        lemma_compose_all_len(sandwiches.drop_last(), jits);
        let prior = compose_all(sandwiches.drop_last(), jits);
        lemma_first_composable(prior.rest, sandwiches.last(), 0);
    }
}

/// The composition table does not add to the number of bundles.
pub proof fn lemma_composed_groups_len(sorted: SortedView)
    ensures
        composed_groups(sorted).total_len() <= sorted.total_len(),
{
    let rules = composition_table();
    let one = after_rules(sorted, rules.drop_last());
    assert(after_rules(sorted, rules.drop_last().drop_last()) == sorted);
    lemma_after_reduce_len(sorted, MevType::Sandwich, rules[0].deps);
    lemma_compose_all_len(one.get(MevType::Sandwich), one.get(MevType::Jit));
}

/// Filtering by profit removes bundles and adds none.
pub proof fn lemma_kept_by_profit_len(bundles: Seq<BundleView>, profitable_only: bool)
    ensures
        kept_by_profit(bundles, profitable_only).len() <= bundles.len(),
    decreases bundles.len(),
{
    if bundles.len() > 0 {
        lemma_kept_by_profit_len(bundles.drop_last(), profitable_only);
    }
}

/// The count of a kind: the number of its bundles, and none where there
/// is no bundle of it.
pub open spec fn count_of(kept: nat) -> Option<u64> {
    if kept == 0 {
        None
    } else {
        Some(kept as u64)
    }
}

/// The counts of a block are the numbers of its bundles: the total is the
/// number of all bundles kept, and each kind's count is the number of the
/// bundles kept of that kind.
pub proof fn counts_match_bundles(sorted: SortedView)
    requires
        sorted.total_len() <= u64::MAX,
    ensures
        filtered(sorted).0.mev_count == filtered(sorted).1.len(),
        filtered(sorted).0.sandwich_count == count_of(kept_by_profit(sorted.sandwich, true).len()),
        filtered(sorted).0.atomic_backrun_count == count_of(
            kept_by_profit(sorted.backrun, true).len(),
        ),
        filtered(sorted).0.jit_sandwich_count == count_of(
            kept_by_profit(sorted.jit_sandwich, false).len(),
        ),
        filtered(sorted).0.jit_count == count_of(kept_by_profit(sorted.jit, true).len()),
        filtered(sorted).0.cex_dex_count == count_of(kept_by_profit(sorted.cex_dex, false).len()),
        filtered(sorted).0.liquidation_count == count_of(
            kept_by_profit(sorted.liquidation, false).len(),
        ),
{
    lemma_kept_by_profit_len(sorted.sandwich, true);
    lemma_kept_by_profit_len(sorted.backrun, true);
    lemma_kept_by_profit_len(sorted.jit_sandwich, false);
    lemma_kept_by_profit_len(sorted.jit, true);
    lemma_kept_by_profit_len(sorted.cex_dex, false);
    lemma_kept_by_profit_len(sorted.liquidation, false);
    lemma_kept_by_profit_len(sorted.unknown, false);
}

/// What the composer gives for one block.
pub struct ComposerResults {
    pub block_details: MevBlock,
    pub mev_details: Vec<Bundle>,
}

/// The bundles that the composer keeps of those that the inspectors
/// emitted, and their counts.
pub open spec fn composed_bundles(emitted: Seq<BundleView>) -> (MevCount, Seq<BundleView>) {
    filtered(composed_groups(sorted_by_type(emitted)))
}

/// Composes the bundles that the inspectors emitted for a block whose
/// totals are at hand: the bundles are grouped by kind, reduced and
/// composed by the table, filtered by profit and counted, and the header
/// is aggregated over the bundles that are kept.
pub fn compose_bundles(
    orchestra_data: Vec<Bundle>,
    possible_mev: PossibleMevCollection,
    pre_processing: &BlockPreprocessing,
    metadata: &MetadataCombined,
) -> (results: ComposerResults)
    requires
        total_bribe(orchestra_data.deep_view()) <= u128::MAX,
        total_priority_fee_paid(orchestra_data.deep_view()) <= u128::MAX,
    ensures
        (results.block_details.mev_count, results.mev_details.deep_view()) == composed_bundles(
            orchestra_data.deep_view(),
        ),
        is_block_header(
            results.block_details,
            *metadata,
            *pre_processing,
            possible_mev,
            composed_bundles(orchestra_data.deep_view()).1,
        ),
{
    proof {
        composer_adds_no_payment(orchestra_data.deep_view(), Amount::Bribe);
        composer_adds_no_payment(orchestra_data.deep_view(), Amount::PriorityFee);
    }
    let mut sorted_mev = sort_mev_by_type(orchestra_data);
    proof {
        lemma_composed_groups_len(sorted_mev.deep_view());
    }
    compose_groups(&mut sorted_mev);
    let (mev_count, filtered_bundles) = filter_and_count_bundles(sorted_mev);
    let mut header = build_mev_header(metadata, pre_processing, possible_mev, &filtered_bundles);
    header.mev_count = mev_count;
    ComposerResults { block_details: header, mev_details: filtered_bundles }
}

/// Runs the composer over the bundles that the inspectors emitted for one
/// block: the totals of the block's transactions are taken from its tree,
/// and the bundles are composed.
pub fn compose_mev_results(
    orchestra_data: Vec<Bundle>,
    possible_mev: PossibleMevCollection,
    tree: &BlockTree,
    metadata: &MetadataCombined,
) -> (results: ComposerResults)
    requires
        cumulative_gas_used(tree.tx_roots@) <= u128::MAX,
        cumulative_priority_fee(tree.tx_roots@) <= u128::MAX,
        total_bribe(orchestra_data.deep_view()) <= u128::MAX,
        total_priority_fee_paid(orchestra_data.deep_view()) <= u128::MAX,
    ensures
        (results.block_details.mev_count, results.mev_details.deep_view()) == composed_bundles(
            orchestra_data.deep_view(),
        ),
        is_block_header(
            results.block_details,
            *metadata,
            BlockPreprocessing {
                cumulative_gas_used: cumulative_gas_used(tree.tx_roots@) as u128,
                cumulative_priority_fee: cumulative_priority_fee(tree.tx_roots@) as u128,
                builder_address: tree.header.beneficiary,
            },
            possible_mev,
            composed_bundles(orchestra_data.deep_view()).1,
        ),
        results.block_details.cumulative_gas_used == cumulative_gas_used(tree.tx_roots@),
        results.block_details.cumulative_priority_fee == cumulative_priority_fee(tree.tx_roots@),
{
    let pre_processing = pre_process(tree);
    compose_bundles(orchestra_data, possible_mev, &pre_processing, metadata)
}

} // verus!
