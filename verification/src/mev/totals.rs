//! What the composer does to the amounts that the bundles paid: it adds
//! nothing to them.

use crate::mev::composer::{
    after_compose, after_reduce, compose_all, composable, composed, filtered, first_composable,
    kept_by_profit, lemma_first_composable, needs_profit, reduced, with_group,
};
use crate::mev::header::{amount_of, paid, Amount};
use crate::mev::rules::{after_rule, after_rules, composed_bundles, composed_groups, composition_table, RuleView};
use crate::mev::sorted::{of_type, sorted_by_type, SortedView};
use crate::mev::types::{BundleView, MevCount, MevType};
use vstd::prelude::*;

verus! {

/// What the bundles of all kinds paid of an amount, in total.
pub open spec fn paid_by_all(sorted: SortedView, which: Amount) -> int {
    paid(sorted.sandwich, which) + paid(sorted.backrun, which) + paid(sorted.jit_sandwich, which)
        + paid(sorted.jit, which) + paid(sorted.cex_dex, which) + paid(sorted.liquidation, which)
        + paid(sorted.unknown, which)
}

/// No bundle pays less than nothing.
pub proof fn lemma_paid_nonnegative(bundles: Seq<BundleView>, which: Amount)
    ensures
        0 <= paid(bundles, which),
    decreases bundles.len(),
{
    if bundles.len() > 0 {
        lemma_paid_nonnegative(bundles.drop_last(), which);
        assert(amount_of(bundles.last().data, which) >= 0);
    }
}

/// What two runs of bundles paid adds up.
pub proof fn lemma_paid_by_both(first: Seq<BundleView>, second: Seq<BundleView>, which: Amount)
    ensures
        paid(first + second, which) == paid(first, which) + paid(second, which),
    decreases second.len(),
{
    if second.len() == 0 {
        assert(first + second =~= first);
    } else {
        lemma_paid_by_both(first, second.drop_last(), which);
        assert((first + second).drop_last() =~= first + second.drop_last());
        assert((first + second).last() == second.last());
    }
}

/// Without one of them the bundles paid less by what it paid.
pub proof fn lemma_paid_without(bundles: Seq<BundleView>, i: int, which: Amount)
    requires
        0 <= i < bundles.len(),
    ensures
        paid(bundles.remove(i), which) == paid(bundles, which) - amount_of(bundles[i].data, which),
{
    let before = bundles.take(i);
    let after = bundles.skip(i + 1);
    assert(bundles.remove(i) =~= before + after);
    assert(bundles =~= before.push(bundles[i]) + after);
    lemma_paid_by_both(before, after, which);
    lemma_paid_by_both(before.push(bundles[i]), after, which);
    assert(before.push(bundles[i]).drop_last() =~= before);
}

/// Grouping by kind keeps what the bundles paid.
pub proof fn lemma_grouping_keeps_paid(bundles: Seq<BundleView>, which: Amount)
    ensures
        paid_by_all(sorted_by_type(bundles), which) == paid(bundles, which),
    decreases bundles.len(),
{
    if bundles.len() > 0 {
        let init = bundles.drop_last();
        let last = bundles.last();
        lemma_grouping_keeps_paid(init, which);
        let kind = last.header.mev_type;
        assert(of_type(bundles, kind).drop_last() =~= of_type(init, kind));
    }
}

/// Reducing adds nothing to what the bundles paid.
pub proof fn lemma_reduced_paid(deps: Seq<BundleView>, heads: Seq<BundleView>, which: Amount)
    ensures
        paid(reduced(deps, heads), which) <= paid(deps, which),
    decreases deps.len(),
{
    if deps.len() > 0 {
        lemma_reduced_paid(deps.drop_last(), heads, which);
        let rest = reduced(deps.drop_last(), heads);
        assert(rest.push(deps.last()).drop_last() =~= rest);
        assert(amount_of(deps.last().data, which) >= 0);
    }
}

/// Reducing adds nothing to what the bundles of all kinds paid.
pub proof fn lemma_after_reduce_paid(
    sorted: SortedView,
    head: MevType,
    deps: Seq<MevType>,
    which: Amount,
)
    ensures
        paid_by_all(after_reduce(sorted, head, deps), which) <= paid_by_all(sorted, which),
    decreases deps.len(),
{
    if deps.len() > 0 {
        lemma_after_reduce_paid(sorted, head, deps.drop_last(), which);
        let prior = after_reduce(sorted, head, deps.drop_last());
        lemma_reduced_paid(prior.get(deps.last()), prior.get(head), which);
    }
}

/// A composed bundle paid what its two parts paid.
pub proof fn lemma_composed_paid(sandwich: BundleView, jit: BundleView, which: Amount)
    requires
        composable(sandwich, jit),
    ensures
        amount_of(composed(sandwich, jit).data, which) == amount_of(sandwich.data, which)
            + amount_of(jit.data, which),
{
}

/// Composing keeps what the bundles paid.
pub proof fn lemma_compose_all_paid(
    sandwiches: Seq<BundleView>,
    jits: Seq<BundleView>,
    which: Amount,
)
    ensures
        paid(compose_all(sandwiches, jits).kept, which) + paid(
            compose_all(sandwiches, jits).rest,
            which,
        ) + paid(compose_all(sandwiches, jits).made, which) == paid(sandwiches, which) + paid(
            jits,
            which,
        ),
    decreases sandwiches.len(),
{
    if sandwiches.len() > 0 {
        let prior = compose_all(sandwiches.drop_last(), jits);
        let sandwich = sandwiches.last();
        lemma_compose_all_paid(sandwiches.drop_last(), jits, which);
        lemma_first_composable(prior.rest, sandwich, 0);
        match first_composable(prior.rest, sandwich, 0) {
            Some(i) => {
                lemma_paid_without(prior.rest, i, which);
                lemma_composed_paid(sandwich, prior.rest[i], which);
                let joined = composed(sandwich, prior.rest[i]);
                assert(prior.made.push(joined).drop_last() =~= prior.made);
            },
            None => {
                assert(prior.kept.push(sandwich).drop_last() =~= prior.kept);
            },
        }
    }
}

/// The composition table adds nothing to what the bundles of all kinds
/// paid.
pub proof fn lemma_composed_groups_paid(sorted: SortedView, which: Amount)
    ensures
        paid_by_all(composed_groups(sorted), which) <= paid_by_all(sorted, which),
{
    let rules = composition_table();
    assert(rules.drop_last() =~= seq![rules[0]]);
    assert(rules.drop_last().drop_last() =~= Seq::<RuleView>::empty());
    let one = after_rules(sorted, rules.drop_last());
    assert(after_rules(sorted, rules.drop_last().drop_last()) == sorted);
    assert(rules.drop_last().last() == rules[0]);
    assert(one == after_rule(sorted, rules[0]));
    lemma_after_reduce_paid(sorted, MevType::Sandwich, rules[0].deps, which);
    let made = compose_all(one.get(MevType::Sandwich), one.get(MevType::Jit));
    lemma_compose_all_paid(one.get(MevType::Sandwich), one.get(MevType::Jit), which);
    lemma_paid_by_both(one.get(MevType::JitSandwich), made.made, which);
    assert(composed_groups(sorted) == after_compose(
        one,
        MevType::JitSandwich,
        MevType::Sandwich,
        MevType::Jit,
    ));
}

/// Filtering by profit adds nothing to what the bundles paid.
pub proof fn lemma_kept_by_profit_paid(
    bundles: Seq<BundleView>,
    profitable_only: bool,
    which: Amount,
)
    ensures
        paid(kept_by_profit(bundles, profitable_only), which) <= paid(bundles, which),
    decreases bundles.len(),
{
    if bundles.len() > 0 {
        lemma_kept_by_profit_paid(bundles.drop_last(), profitable_only, which);
        let rest = kept_by_profit(bundles.drop_last(), profitable_only);
        assert(rest.push(bundles.last()).drop_last() =~= rest);
        assert(amount_of(bundles.last().data, which) >= 0);
    }
}

/// Filtering one kind adds to what the bundles kept paid no more than the
/// bundles of that kind paid.
proof fn lemma_with_group_paid(
    state: (MevCount, Seq<BundleView>),
    group: Seq<BundleView>,
    mev_type: MevType,
    which: Amount,
)
    ensures
        paid(with_group(state, group, mev_type).1, which) <= paid(state.1, which) + paid(
            group,
            which,
        ),
{
    let kept = kept_by_profit(group, needs_profit(mev_type));
    lemma_kept_by_profit_paid(group, needs_profit(mev_type), which);
    lemma_paid_by_both(state.1, kept, which);
}

/// The bundles that are kept paid no more than the bundles of all kinds.
pub proof fn lemma_filtered_paid(sorted: SortedView, which: Amount)
    ensures
        paid(filtered(sorted).1, which) <= paid_by_all(sorted, which),
{
    let s0 = (MevCount::empty(), Seq::<BundleView>::empty());
    let s1 = with_group(s0, sorted.sandwich, MevType::Sandwich);
    let s2 = with_group(s1, sorted.backrun, MevType::Backrun);
    let s3 = with_group(s2, sorted.jit_sandwich, MevType::JitSandwich);
    let s4 = with_group(s3, sorted.jit, MevType::Jit);
    let s5 = with_group(s4, sorted.cex_dex, MevType::CexDex);
    let s6 = with_group(s5, sorted.liquidation, MevType::Liquidation);
    lemma_with_group_paid(s0, sorted.sandwich, MevType::Sandwich, which);
    lemma_with_group_paid(s1, sorted.backrun, MevType::Backrun, which);
    lemma_with_group_paid(s2, sorted.jit_sandwich, MevType::JitSandwich, which);
    lemma_with_group_paid(s3, sorted.jit, MevType::Jit, which);
    lemma_with_group_paid(s4, sorted.cex_dex, MevType::CexDex, which);
    lemma_with_group_paid(s5, sorted.liquidation, MevType::Liquidation, which);
    lemma_with_group_paid(s6, sorted.unknown, MevType::Unknown, which);
}

/// The bundles that the composer keeps paid no more than the bundles that
/// were emitted: composing counts no payment twice and adds none.
pub proof fn composer_adds_no_payment(emitted: Seq<BundleView>, which: Amount)
    ensures
        0 <= paid(composed_bundles(emitted).1, which) <= paid(emitted, which),
{
    let sorted = sorted_by_type(emitted);
    lemma_grouping_keeps_paid(emitted, which);
    lemma_composed_groups_paid(sorted, which);
    lemma_filtered_paid(composed_groups(sorted), which);
    lemma_paid_nonnegative(composed_bundles(emitted).1, which);
}

} // verus!
