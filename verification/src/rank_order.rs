use vstd::prelude::*;
use core::cmp::Ordering;
use vstd::std_specs::cmp::PartialOrdSpecImpl;

use crate::rank::{level_of, Rank};

verus! {

/// Tiers compare by their position on the ladder.
pub open spec fn compare_ranks(a: Rank, b: Rank) -> Option<Ordering> {
    if level_of(a) < level_of(b) {
        Some(Ordering::Less)
    } else if level_of(a) == level_of(b) {
        Some(Ordering::Equal)
    } else {
        Some(Ordering::Greater)
    }
}

impl PartialOrd for Rank {
    /// Compares two tiers by their position on the ladder.
    fn partial_cmp(&self, other: &Rank) -> (r: Option<Ordering>) {
        let a = self.level();
        let b = other.level();
        if a < b {
            Some(Ordering::Less)
        } else if a == b {
            Some(Ordering::Equal)
        } else {
            Some(Ordering::Greater)
        }
    }
}

impl PartialOrdSpecImpl for Rank {
    open spec fn obeys_partial_cmp_spec() -> bool {
        true
    }

    open spec fn partial_cmp_spec(&self, other: &Rank) -> Option<Ordering> {
        compare_ranks(*self, *other)
    }
}

} // verus!
