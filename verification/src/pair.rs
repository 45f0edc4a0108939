//! Ordered token pairs.

use crate::primitives::Address;
use vstd::prelude::*;

verus! {

/// A pair of tokens. The order carries direction: `Pair(a, b)` prices `a` in
/// units of `b`, so a pair and its flip are different pairs.
#[derive(Clone, Copy, Debug, PartialEq, Eq, Hash, Structural)]
pub struct Pair(pub Address, pub Address);

impl Pair {
    /// The same two tokens in the other direction.
    pub open spec fn flip_spec(self) -> Pair {
        Pair(self.1, self.0)
    }

    /// The same two tokens in the other direction.
    pub fn flip(&self) -> (p: Pair)
        ensures
            p == self.flip_spec(),
    {
        Pair(self.1, self.0)
    }

    /// Whether both sides are the same token.
    pub fn is_identity(&self) -> (b: bool)
        ensures
            b == (self.0 == self.1),
    {
        self.0 == self.1
    }
}

/// Flipping twice gives the pair back.
pub proof fn flip_is_an_involution(p: Pair)
    ensures
        p.flip_spec().flip_spec() == p,
{
}

} // verus!
