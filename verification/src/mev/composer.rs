//! The composer: bundles that overlap are reduced, a sandwich and a
//! just-in-time bundle over the same transactions become one, unprofitable
//! bundles are dropped, and the rest is counted.

use crate::mev::sorted::{SortedMev, SortedView};
use crate::mev::types::{
    hashes_of, Bundle, BundleData, BundleHeader, BundleView, HeaderView, JitLiquiditySandwich,
    MevCount, MevType,
};
use crate::primitives::B256;
use crate::util::{is_subset_of, lemma_union_members, reversed, same_set, subset_of};
use vstd::prelude::*;

verus! {

/// Whether one of `hashes` occurs in `others`.
pub open spec fn overlaps(hashes: Seq<B256>, others: Seq<B256>) -> bool {
    exists|i: int| 0 <= i < hashes.len() && others.contains(#[trigger] hashes[i])
}

/// The positions of the first bundles that span one of `tx_hashes`, in
/// rising order.
pub open spec fn matching_positions(bundles: Seq<BundleView>, tx_hashes: Seq<B256>) -> Seq<usize>
    decreases bundles.len(),
{
    if bundles.len() == 0 {
        Seq::empty()
    } else {
        let rest = matching_positions(bundles.drop_last(), tx_hashes);
        if overlaps(hashes_of(bundles.last().data), tx_hashes) {
            rest.push((bundles.len() - 1) as usize)
        } else {
            rest
        }
    }
}

/// Whether one of `hashes` occurs in `others`.
pub fn any_shared(hashes: &Vec<B256>, others: &[B256]) -> (b: bool)
    ensures
        b == overlaps(hashes@, others@),
{
    let mut i: usize = 0;
    while i < hashes.len()
        invariant
            i <= hashes.len(),
            forall|j: int| 0 <= j < i ==> !others@.contains(#[trigger] hashes@[j]),
        decreases hashes.len() - i,
    {
        let hash = hashes[i];
        let mut k: usize = 0;
        while k < others.len()
            invariant
                k <= others.len(),
                i < hashes.len(),
                hash == hashes@[i as int],
                forall|j: int| 0 <= j < k ==> others@[j] != hash,
            decreases others.len() - k,
        {
            if others[k] == hash {
                return true;
            }
            k = k + 1;
        }
        i = i + 1;
    }
    false
}

/// The positions of the bundles that span one of `tx_hashes`.
pub fn find_mev_with_matching_tx_hashes(mev_data_list: &[Bundle], tx_hashes: &[B256]) -> (out: Vec<
    usize,
>)
    ensures
        out@ == matching_positions(mev_data_list.deep_view(), tx_hashes@),
{
    let ghost all = mev_data_list.deep_view();
    let mut out: Vec<usize> = Vec::new();
    let mut index: usize = 0;
    while index < mev_data_list.len()
        invariant
            index <= mev_data_list.len(),
            all == mev_data_list.deep_view(),
            out@ == matching_positions(all.take(index as int), tx_hashes@),
        decreases mev_data_list.len() - index,
    {
        let tx_hashes_in_mev = mev_data_list[index].data.mev_transaction_hashes();
        proof {
            assert(all.take(index + 1).drop_last() =~= all.take(index as int));
        }
        if any_shared(&tx_hashes_in_mev, tx_hashes) {
            out.push(index);
        }
        index = index + 1;
    }
    assert(all.take(index as int) =~= all);
    out
}

/// Whether bundles of this kind are kept only with a profit.
pub open spec fn needs_profit(mev_type: MevType) -> bool {
    mev_type == MevType::Sandwich || mev_type == MevType::Jit || mev_type == MevType::Backrun
}

/// The bundles that are kept: all of them, or those with a profit above
/// zero where `profitable_only` holds.
pub open spec fn kept_by_profit(bundles: Seq<BundleView>, profitable_only: bool) -> Seq<BundleView>
    decreases bundles.len(),
{
    if bundles.len() == 0 {
        Seq::empty()
    } else {
        let rest = kept_by_profit(bundles.drop_last(), profitable_only);
        if !profitable_only || bundles.last().header.profit_usd > 0real {
            rest.push(bundles.last())
        } else {
            rest
        }
    }
}

/// The counts with that of one kind set; the unknown kind has no count.
pub open spec fn counted(count: MevCount, mev_type: MevType, n: u64) -> MevCount {
    match mev_type {
        MevType::Sandwich => MevCount { sandwich_count: Some(n), ..count },
        MevType::CexDex => MevCount { cex_dex_count: Some(n), ..count },
        MevType::Jit => MevCount { jit_count: Some(n), ..count },
        MevType::JitSandwich => MevCount { jit_sandwich_count: Some(n), ..count },
        MevType::Backrun => MevCount { atomic_backrun_count: Some(n), ..count },
        MevType::Liquidation => MevCount { liquidation_count: Some(n), ..count },
        MevType::Unknown => count,
    }
}

/// The counts after `n` bundles of one kind were kept: the total grows by
/// `n`, and the kind gets its count unless `n` is zero.
pub open spec fn tallied(count: MevCount, mev_type: MevType, n: nat) -> MevCount {
    let with_total = MevCount { mev_count: (count.mev_count + n) as u64, ..count };
    if n != 0 {
        counted(with_total, mev_type, n as u64)
    } else {
        with_total
    }
}

/// The counts and the bundles after the bundles of one kind were filtered.
pub open spec fn with_group(
    state: (MevCount, Seq<BundleView>),
    group: Seq<BundleView>,
    mev_type: MevType,
) -> (MevCount, Seq<BundleView>) {
    let kept = kept_by_profit(group, needs_profit(mev_type));
    (tallied(state.0, mev_type, kept.len()), state.1 + kept)
}

/// The counts and the bundles that are kept of all kinds, kind after kind:
/// sandwiches, backruns, composed sandwiches, just-in-time bundles, CEX-DEX
/// arbitrages, liquidations, and the rest.
pub open spec fn filtered(sorted: SortedView) -> (MevCount, Seq<BundleView>) {
    let s0 = (MevCount::empty(), Seq::<BundleView>::empty());
    let s1 = with_group(s0, sorted.sandwich, MevType::Sandwich);
    let s2 = with_group(s1, sorted.backrun, MevType::Backrun);
    let s3 = with_group(s2, sorted.jit_sandwich, MevType::JitSandwich);
    let s4 = with_group(s3, sorted.jit, MevType::Jit);
    let s5 = with_group(s4, sorted.cex_dex, MevType::CexDex);
    let s6 = with_group(s5, sorted.liquidation, MevType::Liquidation);
    with_group(s6, sorted.unknown, MevType::Unknown)
}

/// Sets the count of one kind; the unknown kind has no count.
pub fn update_mev_count(mev_count: &mut MevCount, mev_type: MevType, count: u64)
    ensures
        *final(mev_count) == counted(*old(mev_count), mev_type, count),
{
    match mev_type {
        MevType::Sandwich => {
            mev_count.sandwich_count = Some(count);
        },
        MevType::CexDex => {
            mev_count.cex_dex_count = Some(count);
        },
        MevType::Jit => {
            mev_count.jit_count = Some(count);
        },
        MevType::JitSandwich => {
            mev_count.jit_sandwich_count = Some(count);
        },
        MevType::Backrun => {
            mev_count.atomic_backrun_count = Some(count);
        },
        MevType::Liquidation => {
            mev_count.liquidation_count = Some(count);
        },
        MevType::Unknown => {},
    }
}

/// The bundles that are kept, in order.
pub fn keep_by_profit(bundles: Vec<Bundle>, profitable_only: bool) -> (kept: Vec<Bundle>)
    ensures
        kept.deep_view() == kept_by_profit(bundles.deep_view(), profitable_only),
        kept.len() <= bundles.len(),
{
    let ghost items = bundles@;
    let ghost all = bundles.deep_view();
    let mut rest = reversed(bundles);
    let mut kept: Vec<Bundle> = Vec::new();
    while rest.len() > 0
        invariant
            rest.len() <= items.len(),
            all.len() == items.len(),
            forall|j: int| 0 <= j < items.len() ==> all[j] == (#[trigger] items[j]).deep_view(),
            rest@ == items.reverse().take(rest.len() as int),
            kept.len() <= items.len() - rest.len(),
            kept.deep_view() == kept_by_profit(
                all.take(items.len() - rest.len()),
                profitable_only,
            ),
        decreases rest.len(),
    {
        let ghost i = items.len() - rest.len();
        let bundle = rest.pop().unwrap();
        proof {
            assert(all.take(i + 1).drop_last() =~= all.take(i));
        }
        if !profitable_only || bundle.header.profit_usd.is_positive() {
            kept.push(bundle);
        }
    }
    assert(all.take(items.len() as int) =~= all);
    kept
}

/// Filters the bundles of one kind, counts what is kept and adds it to
/// the bundles kept so far.
fn tally_group(
    bundles: Vec<Bundle>,
    mev_type: MevType,
    mev_count: &mut MevCount,
    all_filtered_bundles: &mut Vec<Bundle>,
)
    requires
        old(mev_count).mev_count + bundles.len() <= u64::MAX,
    ensures
        (*final(mev_count), final(all_filtered_bundles).deep_view()) == with_group(
            (*old(mev_count), old(all_filtered_bundles).deep_view()),
            bundles.deep_view(),
            mev_type,
        ),
        final(mev_count).mev_count <= old(mev_count).mev_count + bundles.len(),
{
    let profitable_only = mev_type == MevType::Sandwich || mev_type == MevType::Jit || mev_type
        == MevType::Backrun;
    let mut filtered_bundles = keep_by_profit(bundles, profitable_only);
    let count = filtered_bundles.len() as u64;
    mev_count.mev_count = mev_count.mev_count + count;
    if count != 0 {
        update_mev_count(mev_count, mev_type, count);
    }
    all_filtered_bundles.append(&mut filtered_bundles);
}

/// Drops the sandwiches, just-in-time bundles and backruns without a profit
/// above zero, counts the bundles kept of each kind, and gives them kind
/// after kind.
pub fn filter_and_count_bundles(sorted_mev: SortedMev) -> (out: (MevCount, Vec<Bundle>))
    requires
        sorted_mev.deep_view().total_len() <= u64::MAX,
    ensures
        (out.0, out.1.deep_view()) == filtered(sorted_mev.deep_view()),
{
    let mut mev_count = MevCount::default();
    let mut all_filtered_bundles: Vec<Bundle> = Vec::new();
    let SortedMev { sandwich, backrun, jit_sandwich, jit, cex_dex, liquidation, unknown } =
        sorted_mev;
    tally_group(sandwich, MevType::Sandwich, &mut mev_count, &mut all_filtered_bundles);
    tally_group(backrun, MevType::Backrun, &mut mev_count, &mut all_filtered_bundles);
    tally_group(jit_sandwich, MevType::JitSandwich, &mut mev_count, &mut all_filtered_bundles);
    tally_group(jit, MevType::Jit, &mut mev_count, &mut all_filtered_bundles);
    tally_group(cex_dex, MevType::CexDex, &mut mev_count, &mut all_filtered_bundles);
    tally_group(liquidation, MevType::Liquidation, &mut mev_count, &mut all_filtered_bundles);
    tally_group(unknown, MevType::Unknown, &mut mev_count, &mut all_filtered_bundles);
    (mev_count, all_filtered_bundles)
}

/// Whether `head` takes `dep` up: the transactions of `dep` are all among
/// those of `head`, the same set included. The one exception is a
/// just-in-time bundle over exactly the transactions of a sandwich, which
/// is left to be composed with it.
pub open spec fn takes_up(head: BundleView, dep: BundleView) -> bool {
    is_subset_of(hashes_of(dep.data), hashes_of(head.data)) && !composable(head, dep)
}

/// Whether one of `heads` takes `dep` up.
pub open spec fn subsumed(dep: BundleView, heads: Seq<BundleView>) -> bool {
    exists|i: int| 0 <= i < heads.len() && takes_up(#[trigger] heads[i], dep)
}

/// A bundle that is no just-in-time bundle is taken up exactly where its
/// transactions are all among those of one of `heads`.
pub proof fn subset_is_taken_up(dep: BundleView, heads: Seq<BundleView>)
    requires
        !(dep.data is Jit),
    ensures
        subsumed(dep, heads) <==> exists|i: int|
            0 <= i < heads.len() && is_subset_of(
                hashes_of(dep.data),
                hashes_of(#[trigger] heads[i].data),
            ),
{
    if subsumed(dep, heads) {
        let i = choose|i: int| 0 <= i < heads.len() && takes_up(#[trigger] heads[i], dep);
        assert(is_subset_of(hashes_of(dep.data), hashes_of(heads[i].data)));
    }
    if exists|i: int|
        0 <= i < heads.len() && is_subset_of(
            hashes_of(dep.data),
            hashes_of(#[trigger] heads[i].data),
        ) {
        let i = choose|i: int|
            0 <= i < heads.len() && is_subset_of(
                hashes_of(dep.data),
                hashes_of(#[trigger] heads[i].data),
            );
        assert(takes_up(heads[i], dep));
    }
}

/// The bundles of `deps` that none of `heads` subsumes, in order.
pub open spec fn reduced(deps: Seq<BundleView>, heads: Seq<BundleView>) -> Seq<BundleView>
    decreases deps.len(),
{
    if deps.len() == 0 {
        Seq::empty()
    } else {
        let rest = reduced(deps.drop_last(), heads);
        if subsumed(deps.last(), heads) {
            rest
        } else {
            rest.push(deps.last())
        }
    }
}

/// The groups after the bundles of the kinds `deps` that a bundle of kind
/// `head` subsumes were removed, kind after kind.
pub open spec fn after_reduce(sorted: SortedView, head: MevType, deps: Seq<MevType>) -> SortedView
    decreases deps.len(),
{
    if deps.len() == 0 {
        sorted
    } else {
        let prior = after_reduce(sorted, head, deps.drop_last());
        let dep = deps.last();
        if dep == head {
            prior
        } else {
            prior.set(dep, reduced(prior.get(dep), prior.get(head)))
        }
    }
}

/// Whether one of `heads` takes up the bundle that spans `hashes`.
fn is_subsumed(
    hashes: &Vec<B256>,
    is_jit: bool,
    heads: &Vec<Bundle>,
    Ghost(dep): Ghost<BundleView>,
) -> (b: bool)
    requires
        hashes@ == hashes_of(dep.data),
        is_jit == (dep.data is Jit),
    ensures
        b == subsumed(dep, heads.deep_view()),
{
    let mut i: usize = 0;
    while i < heads.len()
        invariant
            i <= heads.len(),
            hashes@ == hashes_of(dep.data),
            is_jit == (dep.data is Jit),
            forall|j: int| 0 <= j < i ==> !takes_up(#[trigger] heads.deep_view()[j], dep),
        decreases heads.len() - i,
    {
        let head_hashes = heads[i].data.mev_transaction_hashes();
        let head_is_sandwich = match &heads[i].data {
            BundleData::Sandwich(_) => true,
            _ => false,
        };
        assert(heads.deep_view()[i as int].data == heads[i as int].data);
        if subset_of(hashes, &head_hashes) {
            let left_to_compose = head_is_sandwich && is_jit && subset_of(&head_hashes, hashes);
            if !left_to_compose {
                return true;
            }
        }
        i = i + 1;
    }
    false
}

/// The bundles of `deps` that none of `heads` subsumes, in order.
pub fn reduce_group(deps: Vec<Bundle>, heads: &Vec<Bundle>) -> (kept: Vec<Bundle>)
    ensures
        kept.deep_view() == reduced(deps.deep_view(), heads.deep_view()),
{
    let ghost items = deps@;
    let ghost all = deps.deep_view();
    let mut rest = reversed(deps);
    let mut kept: Vec<Bundle> = Vec::new();
    while rest.len() > 0
        invariant
            rest.len() <= items.len(),
            all.len() == items.len(),
            forall|j: int| 0 <= j < items.len() ==> all[j] == (#[trigger] items[j]).deep_view(),
            rest@ == items.reverse().take(rest.len() as int),
            kept.deep_view() == reduced(all.take(items.len() - rest.len()), heads.deep_view()),
        decreases rest.len(),
    {
        let ghost i = items.len() - rest.len();
        let bundle = rest.pop().unwrap();
        proof {
            assert(all.take(i + 1).drop_last() =~= all.take(i));
        }
        let hashes = bundle.data.mev_transaction_hashes();
        let is_jit = match &bundle.data {
            BundleData::Jit(_) => true,
            _ => false,
        };
        if !is_subsumed(&hashes, is_jit, heads, Ghost(bundle.deep_view())) {
            kept.push(bundle);
        }
    }
    assert(all.take(items.len() as int) =~= all);
    kept
}

/// Removes, of the kinds `deps`, the bundles whose transactions are all
/// among those of a bundle of kind `head_mev_type`; a just-in-time bundle
/// over exactly the transactions of a sandwich stays, to be composed.
pub fn replace_dep_filter(head_mev_type: MevType, deps: &Vec<MevType>, sorted_mev: &mut SortedMev)
    ensures
        final(sorted_mev).deep_view() == after_reduce(
            old(sorted_mev).deep_view(),
            head_mev_type,
            deps@,
        ),
{
    let ghost start = sorted_mev.deep_view();
    let mut k: usize = 0;
    while k < deps.len()
        invariant
            k <= deps.len(),
            sorted_mev.deep_view() == after_reduce(start, head_mev_type, deps@.take(k as int)),
        decreases deps.len() - k,
    {
        let dep = deps[k];
        proof {
            assert(deps@.take(k + 1).drop_last() =~= deps@.take(k as int));
        }
        if dep != head_mev_type {
            let ghost prior = sorted_mev.deep_view();
            let dep_mev = sorted_mev.take_group(dep);
            let kept = reduce_group(dep_mev, sorted_mev.group(head_mev_type));
            sorted_mev.put_group(dep, kept);
            assert(sorted_mev.deep_view() == prior.set(
                dep,
                reduced(prior.get(dep), prior.get(head_mev_type)),
            ));
        }
        k = k + 1;
    }
    assert(deps@.take(k as int) =~= deps@);
}

/// Whether a sandwich and a just-in-time bundle span the same transactions.
pub open spec fn composable(sandwich: BundleView, jit: BundleView) -> bool {
    sandwich.data is Sandwich && jit.data is Jit && same_set(
        hashes_of(sandwich.data),
        hashes_of(jit.data),
    )
}

/// The position of the first bundle from `from` on that `sandwich` can be
/// composed with.
pub open spec fn first_composable(jits: Seq<BundleView>, sandwich: BundleView, from: int) -> Option<
    int,
>
    decreases jits.len() - from,
{
    if from < 0 || from >= jits.len() {
        None
    } else if composable(sandwich, jits[from]) {
        Some(from)
    } else {
        first_composable(jits, sandwich, from + 1)
    }
}

/// The bundle that a sandwich and a just-in-time bundle make together: it
/// takes its place in the block from the sandwich, holds both as its parts,
/// and its profit and bribe are the sums of theirs.
pub open spec fn composed(sandwich: BundleView, jit: BundleView) -> BundleView {
    BundleView {
        header: HeaderView {
            block_number: sandwich.header.block_number,
            tx_hash: sandwich.header.tx_hash,
            mev_type: MevType::JitSandwich,
            profit_usd: sandwich.header.profit_usd + jit.header.profit_usd,
            bribe_usd: sandwich.header.bribe_usd + jit.header.bribe_usd,
        },
        data: match (sandwich.data, jit.data) {
            (BundleData::Sandwich(s), BundleData::Jit(j)) => BundleData::JitSandwich(
                JitLiquiditySandwich { sandwich: s, jit: j },
            ),
            _ => sandwich.data,
        },
    }
}

/// What composing leaves and makes.
pub struct Composition {
    /// The sandwiches that found no partner.
    pub kept: Seq<BundleView>,
    /// The just-in-time bundles that no sandwich took.
    pub rest: Seq<BundleView>,
    /// The composed bundles.
    pub made: Seq<BundleView>,
    /// For each sandwich, in order, the bundle that it became or itself.
    pub merged: Seq<BundleView>,
}

/// Composes each sandwich, in order, with the first just-in-time bundle
/// still there that spans the same transactions.
pub open spec fn compose_all(sandwiches: Seq<BundleView>, jits: Seq<BundleView>) -> Composition
    decreases sandwiches.len(),
{
    if sandwiches.len() == 0 {
        Composition { kept: Seq::empty(), rest: jits, made: Seq::empty(), merged: Seq::empty() }
    } else {
        let prior = compose_all(sandwiches.drop_last(), jits);
        let sandwich = sandwiches.last();
        match first_composable(prior.rest, sandwich, 0) {
            Some(i) => Composition {
                kept: prior.kept,
                rest: prior.rest.remove(i),
                made: prior.made.push(composed(sandwich, prior.rest[i])),
                merged: prior.merged.push(composed(sandwich, prior.rest[i])),
            },
            None => Composition {
                kept: prior.kept.push(sandwich),
                merged: prior.merged.push(sandwich),
                ..prior
            },
        }
    }
}

/// The groups after the bundles of kind `first` were composed with those
/// of kind `second` into bundles of kind `parent`: the composed bundles
/// follow the bundles of kind `parent`. Where `parent` is `first`, each
/// composed bundle stands where its first part stood; where it is
/// `second`, the composed bundles follow the bundles of that kind that
/// found no partner.
pub open spec fn after_compose(
    sorted: SortedView,
    parent: MevType,
    first: MevType,
    second: MevType,
) -> SortedView {
    let made = compose_all(sorted.get(first), sorted.get(second));
    if parent == first {
        sorted.set(first, made.merged).set(second, made.rest)
    } else if parent == second {
        sorted.set(first, made.kept).set(second, made.rest + made.made)
    } else {
        sorted.set(first, made.kept).set(second, made.rest).set(
            parent,
            sorted.get(parent) + made.made,
        )
    }
}

/// A position that [`first_composable`] gives is in range and holds a
/// partner.
pub proof fn lemma_first_composable(jits: Seq<BundleView>, sandwich: BundleView, from: int)
    requires
        0 <= from,
    ensures
        first_composable(jits, sandwich, from) matches Some(i) ==> from <= i < jits.len()
            && composable(sandwich, jits[i]),
    decreases jits.len() - from,
{
    if from < jits.len() && !composable(sandwich, jits[from]) {
        lemma_first_composable(jits, sandwich, from + 1);
    }
}

/// A composed bundle spans exactly the transactions of its two parts.
pub proof fn composed_spans_both(sandwich: BundleView, jit: BundleView, hash: B256)
    requires
        sandwich.data is Sandwich,
        jit.data is Jit,
    ensures
        hashes_of(composed(sandwich, jit).data).contains(hash) <==> hashes_of(
            sandwich.data,
        ).contains(hash) || hashes_of(jit.data).contains(hash),
{
    lemma_union_members(hashes_of(sandwich.data), hashes_of(jit.data), hash);
}

/// How two bundles are composed.
#[derive(Clone, Copy, Debug, PartialEq, Eq, Structural)]
pub enum ComposeFunction {
    /// A sandwich and a just-in-time bundle become a composed sandwich.
    SandwichJit,
}

/// How bundles are composed into bundles of a kind, if they are.
pub fn get_compose_fn(mev_type: MevType) -> (f: Option<ComposeFunction>)
    ensures
        f == if mev_type == MevType::JitSandwich {
            Some(ComposeFunction::SandwichJit)
        } else {
            None
        },
{
    match mev_type {
        MevType::JitSandwich => Some(ComposeFunction::SandwichJit),
        _ => None,
    }
}

/// The bundle that a sandwich and a just-in-time bundle make together.
pub fn compose_sandwich_jit(sandwich: Bundle, jit: Bundle) -> (out: Bundle)
    requires
        sandwich.data is Sandwich,
        jit.data is Jit,
    ensures
        out.deep_view() == composed(sandwich.deep_view(), jit.deep_view()),
{
    let Bundle { header: sandwich_header, data: sandwich_data } = sandwich;
    let Bundle { header: jit_header, data: jit_data } = jit;
    let header = BundleHeader {
        block_number: sandwich_header.block_number,
        tx_hash: sandwich_header.tx_hash,
        mev_type: MevType::JitSandwich,
        profit_usd: sandwich_header.profit_usd.add(&jit_header.profit_usd),
        bribe_usd: sandwich_header.bribe_usd.add(&jit_header.bribe_usd),
    };
    match (sandwich_data, jit_data) {
        (BundleData::Sandwich(s), BundleData::Jit(j)) => Bundle {
            header,
            data: BundleData::JitSandwich(JitLiquiditySandwich { sandwich: s, jit: j }),
        },
        (other, _) => Bundle { header, data: other },
    }
}

/// The position of the first bundle that `sandwich` can be composed with.
fn find_composable(jits: &Vec<Bundle>, sandwich: &Bundle) -> (found: Option<usize>)
    ensures
        found matches Some(i) ==> first_composable(
            jits.deep_view(),
            sandwich.deep_view(),
            0,
        ) == Some(i as int) && i < jits.len() && composable(
            sandwich.deep_view(),
            jits.deep_view()[i as int],
        ),
        found is None ==> first_composable(jits.deep_view(), sandwich.deep_view(), 0) is None,
{
    let is_sandwich = match &sandwich.data {
        BundleData::Sandwich(_) => true,
        _ => false,
    };
    let hashes = sandwich.data.mev_transaction_hashes();
    let mut i: usize = 0;
    while i < jits.len()
        invariant
            i <= jits.len(),
            is_sandwich == (sandwich.data is Sandwich),
            hashes@ == hashes_of(sandwich.data),
            first_composable(jits.deep_view(), sandwich.deep_view(), 0) == first_composable(
                jits.deep_view(),
                sandwich.deep_view(),
                i as int,
            ),
        decreases jits.len() - i,
    {
        let is_jit = match &jits[i].data {
            BundleData::Jit(_) => true,
            _ => false,
        };
        if is_sandwich && is_jit {
            let other = jits[i].data.mev_transaction_hashes();
            if subset_of(&hashes, &other) && subset_of(&other, &hashes) {
                return Some(i);
            }
        }
        i = i + 1;
    }
    None
}

/// Composes each bundle of the first kind with the first bundle of the
/// second kind that spans the same transactions; both leave their groups
/// and the bundle they make joins the group of kind `parent_mev_type`.
/// Exactly two kinds are composed, and they differ: a kind has no
/// partners among its own bundles.
pub fn compose_dep_filter(
    parent_mev_type: MevType,
    composable_types: &Vec<MevType>,
    compose: ComposeFunction,
    sorted_mev: &mut SortedMev,
)
    requires
        composable_types.len() == 2,
        composable_types[0] != composable_types[1],
    ensures
        final(sorted_mev).deep_view() == after_compose(
            old(sorted_mev).deep_view(),
            parent_mev_type,
            composable_types[0],
            composable_types[1],
        ),
{
    let first = composable_types[0];
    let second = composable_types[1];
    let into_first = parent_mev_type == first;
    let into_second = parent_mev_type == second;
    let ghost start = sorted_mev.deep_view();
    let zero_txes = sorted_mev.take_group(first);
    let mut one_txes = sorted_mev.take_group(second);
    let mut made = if into_first || into_second {
        Vec::new()
    } else {
        sorted_mev.take_group(parent_mev_type)
    };
    let mut kept: Vec<Bundle> = Vec::new();
    let ghost items = zero_txes@;
    let ghost all = zero_txes.deep_view();
    let ghost parents = made.deep_view();
    let mut rest = reversed(zero_txes);
    assert(all.take(0) =~= Seq::<BundleView>::empty());
    assert(kept.deep_view() =~= Seq::<BundleView>::empty());
    assert(made.deep_view() =~= parents + Seq::<BundleView>::empty());
    while rest.len() > 0
        invariant
            rest.len() <= items.len(),
            all.len() == items.len(),
            forall|j: int| 0 <= j < items.len() ==> all[j] == (#[trigger] items[j]).deep_view(),
            rest@ == items.reverse().take(rest.len() as int),
            kept.deep_view() == if into_first {
                compose_all(all.take(items.len() - rest.len()), start.get(second)).merged
            } else {
                compose_all(all.take(items.len() - rest.len()), start.get(second)).kept
            },
            one_txes.deep_view() == compose_all(
                all.take(items.len() - rest.len()),
                start.get(second),
            ).rest,
            made.deep_view() == if into_first {
                parents
            } else {
                parents + compose_all(all.take(items.len() - rest.len()), start.get(second)).made
            },
        decreases rest.len(),
    {
        let ghost i = items.len() - rest.len();
        let ghost prior = compose_all(all.take(i), start.get(second));
        let bundle = rest.pop().unwrap();
        proof {
            assert(all.take(i + 1).drop_last() =~= all.take(i));
        }
        match find_composable(&one_txes, &bundle) {
            Some(index) => {
                let partner = one_txes.remove(index);
                let joined = match compose {
                    ComposeFunction::SandwichJit => compose_sandwich_jit(bundle, partner),
                };
                if into_first {
                    let ghost before = kept.deep_view();
                    kept.push(joined);
                    assert(kept.deep_view() =~= before.push(joined.deep_view()));
                } else {
                    let ghost before = made.deep_view();
                    made.push(joined);
                    assert(made.deep_view() =~= before.push(joined.deep_view()));
                    assert(made.deep_view() =~= parents + prior.made.push(joined.deep_view()));
                }
            },
            None => {
                let ghost before = kept.deep_view();
                kept.push(bundle);
                assert(kept.deep_view() =~= before.push(bundle.deep_view()));
            },
        }
    }
    assert(all.take(items.len() as int) =~= all);
    if into_second {
        let ghost left = one_txes.deep_view();
        let ghost joined = made.deep_view();
        one_txes.append(&mut made);
        assert(one_txes.deep_view() =~= left + joined);
        assert(parents =~= Seq::<BundleView>::empty());
        assert(joined =~= compose_all(all, start.get(second)).made);
        sorted_mev.put_group(first, kept);
        sorted_mev.put_group(second, one_txes);
    } else if into_first {
        sorted_mev.put_group(first, kept);
        sorted_mev.put_group(second, one_txes);
    } else {
        sorted_mev.put_group(first, kept);
        sorted_mev.put_group(second, one_txes);
        sorted_mev.put_group(parent_mev_type, made);
    }
}

} // verus!
