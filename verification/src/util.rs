//! Small helpers on vectors.

use crate::primitives::B256;
use vstd::prelude::*;

verus! {

/// The elements of `v` in the opposite order.
pub fn reversed<T>(v: Vec<T>) -> (r: Vec<T>)
    ensures
        r@ == v@.reverse(),
{
    let ghost all = v@;
    let mut v = v;
    let mut r: Vec<T> = Vec::new();
    while v.len() > 0
        invariant
            v.len() <= all.len(),
            v@ == all.take(v.len() as int),
            r@ == all.skip(v.len() as int).reverse(),
        decreases v.len(),
    {
        let x = v.pop().unwrap();
        r.push(x);
    }
    r
}

/// Whether every element of `a` occurs in `b`.
pub open spec fn is_subset_of(a: Seq<B256>, b: Seq<B256>) -> bool {
    forall|i: int| 0 <= i < a.len() ==> b.contains(#[trigger] a[i])
}

/// Whether the two sequences hold the same set of elements.
pub open spec fn same_set(a: Seq<B256>, b: Seq<B256>) -> bool {
    is_subset_of(a, b) && is_subset_of(b, a)
}

/// Whether `hash` occurs in `list`.
pub fn contains_hash(list: &Vec<B256>, hash: B256) -> (b: bool)
    ensures
        b == list@.contains(hash),
{
    let mut i: usize = 0;
    while i < list.len()
        invariant
            i <= list.len(),
            forall|j: int| 0 <= j < i ==> list@[j] != hash,
        decreases list.len() - i,
    {
        if list[i] == hash {
            return true;
        }
        i = i + 1;
    }
    false
}

/// Whether every element of `a` occurs in `b`.
pub fn subset_of(a: &Vec<B256>, b: &Vec<B256>) -> (r: bool)
    ensures
        r == is_subset_of(a@, b@),
{
    let mut i: usize = 0;
    while i < a.len()
        invariant
            i <= a.len(),
            forall|j: int| 0 <= j < i ==> b@.contains(#[trigger] a@[j]),
        decreases a.len() - i,
    {
        if !contains_hash(b, a[i]) {
            return false;
        }
        i = i + 1;
    }
    true
}

/// The elements of `a`, then those of `b` that `a` lacks, in order.
pub open spec fn union_of(a: Seq<B256>, b: Seq<B256>) -> Seq<B256>
    decreases b.len(),
{
    if b.len() == 0 {
        a
    } else {
        let rest = union_of(a, b.drop_last());
        if a.contains(b.last()) {
            rest
        } else {
            rest.push(b.last())
        }
    }
}

/// The elements of `a`, then those of `b` that `a` lacks, in order.
pub fn union(a: &Vec<B256>, b: &Vec<B256>) -> (out: Vec<B256>)
    ensures
        out@ == union_of(a@, b@),
{
    let mut out: Vec<B256> = a.clone();
    let mut i: usize = 0;
    while i < b.len()
        invariant
            i <= b.len(),
            out@ == union_of(a@, b@.take(i as int)),
        decreases b.len() - i,
    {
        proof {
            assert(b@.take(i + 1).drop_last() =~= b@.take(i as int));
        }
        if !contains_hash(a, b[i]) {
            out.push(b[i]);
        }
        i = i + 1;
    }
    assert(b@.take(i as int) =~= b@);
    out
}

/// An element is in the union exactly when it is in one of the two.
pub proof fn lemma_union_members(a: Seq<B256>, b: Seq<B256>, h: B256)
    ensures
        union_of(a, b).contains(h) <==> a.contains(h) || b.contains(h),
    decreases b.len(),
{
    if b.len() > 0 {
        let init = b.drop_last();
        lemma_union_members(a, init, h);
        let rest = union_of(a, init);
        if b.contains(h) {
            let i = choose|i: int| 0 <= i < b.len() && b[i] == h;
            if i < b.len() - 1 {
                assert(init[i] == h);
            }
        }
        if init.contains(h) {
            let i = choose|i: int| 0 <= i < init.len() && init[i] == h;
        }
        if !a.contains(b.last()) {
            let grown = rest.push(b.last());
            assert(grown[grown.len() - 1] == b.last());
            if rest.contains(h) {
                let i = choose|i: int| 0 <= i < rest.len() && rest[i] == h;
                assert(grown[i] == h);
            }
            if grown.contains(h) {
                let i = choose|i: int| 0 <= i < grown.len() && grown[i] == h;
                if i < rest.len() {
                }
            }
        }
    }
}

} // verus!
