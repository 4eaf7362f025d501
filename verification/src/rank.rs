use vstd::prelude::*;
use vstd::string::*;

verus! {

/// The ladder tiers, from lowest to highest.
#[derive(PartialEq, Eq, Structural, Clone, Copy, Debug)]
pub enum Rank {
    Unrated,
    Gold,
    Emerald,
    Diamond,
}

/// Lowest point total that earns `Gold`.
pub const GOLD_THRESHOLD: u16 = 1100;

/// Lowest point total that earns `Emerald`.
pub const EMERALD_THRESHOLD: u16 = 1300;

/// Lowest point total that earns `Diamond`.
pub const DIAMOND_THRESHOLD: u16 = 1500;

/// The tier that a point total earns.
pub open spec fn rank_of(points: int) -> Rank {
    if points >= DIAMOND_THRESHOLD {
        Rank::Diamond
    } else if points >= EMERALD_THRESHOLD {
        Rank::Emerald
    } else if points >= GOLD_THRESHOLD {
        Rank::Gold
    } else {
        Rank::Unrated
    }
}

/// Position of a tier on the ladder: `Unrated` is 0 and `Diamond` is 3.
pub open spec fn level_of(rank: Rank) -> int {
    match rank {
        Rank::Unrated => 0,
        Rank::Gold => 1,
        Rank::Emerald => 2,
        Rank::Diamond => 3,
    }
}

/// The name under which a tier is shown and stored.
pub open spec fn rank_name(rank: Rank) -> Seq<char> {
    match rank {
        Rank::Unrated => "Unrated"@,
        Rank::Gold => "Gold"@,
        Rank::Emerald => "Emerald"@,
        Rank::Diamond => "Diamond"@,
    }
}

impl Rank {
    /// Position of the tier on the ladder.
    pub fn level(&self) -> (l: u8)
        ensures
            l == level_of(*self),
    {
        match self {
            Rank::Unrated => 0,
            Rank::Gold => 1,
            Rank::Emerald => 2,
            Rank::Diamond => 3,
        }
    }

    /// The name of the tier: `Unrated`, `Gold`, `Emerald` or `Diamond`.
    pub fn to_string(&self) -> (s: String)
        ensures
            s@ == rank_name(*self),
    {
        match self {
            Rank::Unrated => String::from_str("Unrated"),
            Rank::Gold => String::from_str("Gold"),
            Rank::Emerald => String::from_str("Emerald"),
            Rank::Diamond => String::from_str("Diamond"),
        }
    }

    /// Whether this tier stands strictly above `other`.
    pub fn outranks(&self, other: &Rank) -> (b: bool)
        ensures
            b == (level_of(*self) > level_of(*other)),
    {
        self.level() > other.level()
    }
}

impl From<u16> for Rank {
    /// The tier that `value` points earn.
    fn from(value: u16) -> (r: Rank) {
        if value >= DIAMOND_THRESHOLD {
            Rank::Diamond
        } else if value >= EMERALD_THRESHOLD {
            Rank::Emerald
        } else if value >= GOLD_THRESHOLD {
            Rank::Gold
        } else {
            Rank::Unrated
        }
    }
}

impl vstd::std_specs::convert::FromSpecImpl<u16> for Rank {
    open spec fn obeys_from_spec() -> bool {
        true
    }

    open spec fn from_spec(v: u16) -> Rank {
        rank_of(v as int)
    }
}

/// A higher point total never earns a lower tier.
pub proof fn lemma_rank_monotone(p: int, q: int)
    requires
        p <= q,
    ensures
        level_of(rank_of(p)) <= level_of(rank_of(q)),
{
}

} // verus!
