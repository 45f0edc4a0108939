//! Bundles grouped by kind.

use crate::mev::types::{Bundle, BundleView, MevType};
use crate::util::reversed;
use vstd::prelude::*;

verus! {

/// The bundles of one block, one list for each kind, each in the order in
/// which the bundles were emitted.
pub struct SortedMev {
    pub sandwich: Vec<Bundle>,
    pub backrun: Vec<Bundle>,
    pub jit_sandwich: Vec<Bundle>,
    pub jit: Vec<Bundle>,
    pub cex_dex: Vec<Bundle>,
    pub liquidation: Vec<Bundle>,
    pub unknown: Vec<Bundle>,
}

/// What a [`SortedMev`] denotes.
pub struct SortedView {
    pub sandwich: Seq<BundleView>,
    pub backrun: Seq<BundleView>,
    pub jit_sandwich: Seq<BundleView>,
    pub jit: Seq<BundleView>,
    pub cex_dex: Seq<BundleView>,
    pub liquidation: Seq<BundleView>,
    pub unknown: Seq<BundleView>,
}

impl SortedView {
    /// The bundles of one kind.
    pub open spec fn get(self, mev_type: MevType) -> Seq<BundleView> {
        match mev_type {
            MevType::Sandwich => self.sandwich,
            MevType::Backrun => self.backrun,
            MevType::JitSandwich => self.jit_sandwich,
            MevType::Jit => self.jit,
            MevType::CexDex => self.cex_dex,
            MevType::Liquidation => self.liquidation,
            MevType::Unknown => self.unknown,
        }
    }

    /// The same groups but for one kind, whose bundles are `bundles`.
    pub open spec fn set(self, mev_type: MevType, bundles: Seq<BundleView>) -> SortedView {
        match mev_type {
            MevType::Sandwich => SortedView { sandwich: bundles, ..self },
            MevType::Backrun => SortedView { backrun: bundles, ..self },
            MevType::JitSandwich => SortedView { jit_sandwich: bundles, ..self },
            MevType::Jit => SortedView { jit: bundles, ..self },
            MevType::CexDex => SortedView { cex_dex: bundles, ..self },
            MevType::Liquidation => SortedView { liquidation: bundles, ..self },
            MevType::Unknown => SortedView { unknown: bundles, ..self },
        }
    }

    /// The number of bundles of all kinds.
    pub open spec fn total_len(self) -> nat {
        self.sandwich.len() + self.backrun.len() + self.jit_sandwich.len() + self.jit.len()
            + self.cex_dex.len() + self.liquidation.len() + self.unknown.len()
    }
}

impl DeepView for SortedMev {
    type V = SortedView;

    open spec fn deep_view(&self) -> SortedView {
        SortedView {
            sandwich: self.sandwich.deep_view(),
            backrun: self.backrun.deep_view(),
            jit_sandwich: self.jit_sandwich.deep_view(),
            jit: self.jit.deep_view(),
            cex_dex: self.cex_dex.deep_view(),
            liquidation: self.liquidation.deep_view(),
            unknown: self.unknown.deep_view(),
        }
    }
}

/// The bundles of `bundles` whose kind is `mev_type`, in order.
pub open spec fn of_type(bundles: Seq<BundleView>, mev_type: MevType) -> Seq<BundleView>
    decreases bundles.len(),
{
    if bundles.len() == 0 {
        Seq::empty()
    } else {
        let rest = of_type(bundles.drop_last(), mev_type);
        if bundles.last().header.mev_type == mev_type {
            rest.push(bundles.last())
        } else {
            rest
        }
    }
}

/// The bundles grouped by kind.
pub open spec fn sorted_by_type(bundles: Seq<BundleView>) -> SortedView {
    SortedView {
        sandwich: of_type(bundles, MevType::Sandwich),
        backrun: of_type(bundles, MevType::Backrun),
        jit_sandwich: of_type(bundles, MevType::JitSandwich),
        jit: of_type(bundles, MevType::Jit),
        cex_dex: of_type(bundles, MevType::CexDex),
        liquidation: of_type(bundles, MevType::Liquidation),
        unknown: of_type(bundles, MevType::Unknown),
    }
}

/// Grouping by kind neither loses nor adds a bundle.
pub proof fn lemma_sorted_total_len(bundles: Seq<BundleView>)
    ensures
        sorted_by_type(bundles).total_len() == bundles.len(),
    decreases bundles.len(),
{
    if bundles.len() > 0 {
        lemma_sorted_total_len(bundles.drop_last());
    }
}

impl SortedMev {
    /// No bundle of any kind.
    pub fn new() -> (sorted: SortedMev)
        ensures
            sorted.deep_view() == sorted_by_type(Seq::empty()),
    {
        let sorted = SortedMev {
            sandwich: Vec::new(),
            backrun: Vec::new(),
            jit_sandwich: Vec::new(),
            jit: Vec::new(),
            cex_dex: Vec::new(),
            liquidation: Vec::new(),
            unknown: Vec::new(),
        };
        assert(sorted.unknown.deep_view() =~= Seq::<BundleView>::empty());
        sorted
    }

    /// The bundles of one kind.
    pub fn group(&self, mev_type: MevType) -> (bundles: &Vec<Bundle>)
        ensures
            bundles.deep_view() == self.deep_view().get(mev_type),
    {
        match mev_type {
            MevType::Sandwich => &self.sandwich,
            MevType::Backrun => &self.backrun,
            MevType::JitSandwich => &self.jit_sandwich,
            MevType::Jit => &self.jit,
            MevType::CexDex => &self.cex_dex,
            MevType::Liquidation => &self.liquidation,
            MevType::Unknown => &self.unknown,
        }
    }

    /// Takes the bundles of one kind out, leaving none of that kind.
    pub fn take_group(&mut self, mev_type: MevType) -> (bundles: Vec<Bundle>)
        ensures
            bundles.deep_view() == old(self).deep_view().get(mev_type),
            final(self).deep_view() == old(self).deep_view().set(mev_type, Seq::empty()),
    {
        let mut bundles: Vec<Bundle> = Vec::new();
        assert(bundles.deep_view() =~= Seq::<BundleView>::empty());
        match mev_type {
            MevType::Sandwich => std::mem::swap(&mut self.sandwich, &mut bundles),
            MevType::Backrun => std::mem::swap(&mut self.backrun, &mut bundles),
            MevType::JitSandwich => std::mem::swap(&mut self.jit_sandwich, &mut bundles),
            MevType::Jit => std::mem::swap(&mut self.jit, &mut bundles),
            MevType::CexDex => std::mem::swap(&mut self.cex_dex, &mut bundles),
            MevType::Liquidation => std::mem::swap(&mut self.liquidation, &mut bundles),
            MevType::Unknown => std::mem::swap(&mut self.unknown, &mut bundles),
        }
        bundles
    }

    /// Puts `bundles` in the place of the bundles of one kind.
    pub fn put_group(&mut self, mev_type: MevType, bundles: Vec<Bundle>)
        ensures
            final(self).deep_view() == old(self).deep_view().set(mev_type, bundles.deep_view()),
    {
        match mev_type {
            MevType::Sandwich => {
                self.sandwich = bundles;
            },
            MevType::Backrun => {
                self.backrun = bundles;
            },
            MevType::JitSandwich => {
                self.jit_sandwich = bundles;
            },
            MevType::Jit => {
                self.jit = bundles;
            },
            MevType::CexDex => {
                self.cex_dex = bundles;
            },
            MevType::Liquidation => {
                self.liquidation = bundles;
            },
            MevType::Unknown => {
                self.unknown = bundles;
            },
        }
    }

    /// Adds a bundle to the group of its kind.
    pub fn push(&mut self, bundle: Bundle)
        ensures
            final(self).deep_view() == old(self).deep_view().set(
                bundle.deep_view().header.mev_type,
                old(self).deep_view().get(bundle.deep_view().header.mev_type).push(
                    bundle.deep_view(),
                ),
            ),
    {
        let ghost view = bundle.deep_view();
        let ghost before = self.deep_view().get(view.header.mev_type);
        match bundle.header.mev_type {
            MevType::Sandwich => {
                self.sandwich.push(bundle);
                assert(self.sandwich.deep_view() =~= before.push(view));
            },
            MevType::Backrun => {
                self.backrun.push(bundle);
                assert(self.backrun.deep_view() =~= before.push(view));
            },
            MevType::JitSandwich => {
                self.jit_sandwich.push(bundle);
                assert(self.jit_sandwich.deep_view() =~= before.push(view));
            },
            MevType::Jit => {
                self.jit.push(bundle);
                assert(self.jit.deep_view() =~= before.push(view));
            },
            MevType::CexDex => {
                self.cex_dex.push(bundle);
                assert(self.cex_dex.deep_view() =~= before.push(view));
            },
            MevType::Liquidation => {
                self.liquidation.push(bundle);
                assert(self.liquidation.deep_view() =~= before.push(view));
            },
            MevType::Unknown => {
                self.unknown.push(bundle);
                assert(self.unknown.deep_view() =~= before.push(view));
            },
        }
    }
}

/// Groups the bundles by their kind; within a kind they keep their order.
pub fn sort_mev_by_type(orchestra_data: Vec<Bundle>) -> (sorted: SortedMev)
    ensures
        sorted.deep_view() == sorted_by_type(orchestra_data.deep_view()),
        sorted.deep_view().total_len() == orchestra_data.len(),
{
    let ghost items = orchestra_data@;
    let ghost all = orchestra_data.deep_view();
    let mut rest = reversed(orchestra_data);
    let mut sorted = SortedMev::new();
    while rest.len() > 0
        invariant
            rest.len() <= items.len(),
            all.len() == items.len(),
            forall|j: int| 0 <= j < items.len() ==> all[j] == (#[trigger] items[j]).deep_view(),
            rest@ == items.reverse().take(rest.len() as int),
            sorted.deep_view() == sorted_by_type(all.take(items.len() - rest.len())),
        decreases rest.len(),
    {
        let ghost n = rest.len() as int;
        let ghost i = items.len() - n;
        let bundle = rest.pop().unwrap();
        proof {
            assert(all.take(i + 1).drop_last() =~= all.take(i));
        }
        sorted.push(bundle);
    }
    proof {
        assert(all.take(items.len() as int) =~= all);
        lemma_sorted_total_len(all);
    }
    sorted
}

} // verus!
