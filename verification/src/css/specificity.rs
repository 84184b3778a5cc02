//! Selector specificity: the weight by which selectors take precedence.

use std::cmp::Ordering;
use vstd::prelude::*;
use vstd::std_specs::cmp::PartialOrdSpecImpl;

verus! {

/// The weight of a selector: the number of ids, of classes, and of tag names
/// in it. Specificities are ordered by the first count, then the second,
/// then the third.
#[derive(Debug, Clone, Copy, PartialEq, Eq, Ord, Structural)]
pub struct Specificity(u32, u32, u32);

/// How two triples compare, first components first.
pub open spec fn lexicographic(a: (u32, u32, u32), b: (u32, u32, u32)) -> Ordering {
    if a.0 < b.0 {
        Ordering::Less
    } else if a.0 > b.0 {
        Ordering::Greater
    } else if a.1 < b.1 {
        Ordering::Less
    } else if a.1 > b.1 {
        Ordering::Greater
    } else if a.2 < b.2 {
        Ordering::Less
    } else if a.2 > b.2 {
        Ordering::Greater
    } else {
        Ordering::Equal
    }
}

impl View for Specificity {
    type V = (u32, u32, u32);

    closed spec fn view(&self) -> (u32, u32, u32) {
        (self.0, self.1, self.2)
    }
}

impl Specificity {
    pub fn new(ids: u32, classes: u32, tags: u32) -> (s: Self)
        ensures
            s@ == (ids, classes, tags),
    {
        Specificity(ids, classes, tags)
    }

    pub fn id_count(&self) -> (n: u32)
        ensures
            n == self@.0,
    {
        self.0
    }

    pub fn class_count(&self) -> (n: u32)
        ensures
            n == self@.1,
    {
        self.1
    }

    pub fn tag_count(&self) -> (n: u32)
        ensures
            n == self@.2,
    {
        self.2
    }

    /// Two specificities with the same counts are the same.
    pub proof fn lemma_view_is_faithful(self, other: Self)
        ensures
            self@ == other@ <==> self == other,
    {
    }
}

impl PartialOrd for Specificity {
    fn partial_cmp(&self, other: &Self) -> (r: Option<Ordering>) {
        if self.0 < other.0 {
            Some(Ordering::Less)
        } else if self.0 > other.0 {
            Some(Ordering::Greater)
        } else if self.1 < other.1 {
            Some(Ordering::Less)
        } else if self.1 > other.1 {
            Some(Ordering::Greater)
        } else if self.2 < other.2 {
            Some(Ordering::Less)
        } else if self.2 > other.2 {
            Some(Ordering::Greater)
        } else {
            Some(Ordering::Equal)
        }
    }
}

impl PartialOrdSpecImpl for Specificity {
    open spec fn obeys_partial_cmp_spec() -> bool {
        true
    }

    open spec fn partial_cmp_spec(&self, other: &Self) -> Option<Ordering> {
        Some(lexicographic(self@, other@))
    }
}

/// Comparing a triple with itself gives `Equal`, and only equal triples
/// compare `Equal`.
pub proof fn lemma_order_equal(a: (u32, u32, u32), b: (u32, u32, u32))
    ensures
        lexicographic(a, b) == Ordering::Equal <==> a == b,
{
}

/// Swapping the sides swaps `Less` and `Greater`, so any two triples are
/// comparable.
pub proof fn lemma_order_antisymmetric(a: (u32, u32, u32), b: (u32, u32, u32))
    ensures
        lexicographic(a, b) == Ordering::Less <==> lexicographic(b, a) == Ordering::Greater,
{
}

/// The order is transitive.
pub proof fn lemma_order_transitive(a: (u32, u32, u32), b: (u32, u32, u32), c: (u32, u32, u32))
    requires
        lexicographic(a, b) == Ordering::Less,
        lexicographic(b, c) == Ordering::Less,
    ensures
        lexicographic(a, c) == Ordering::Less,
{
}

} // verus!
