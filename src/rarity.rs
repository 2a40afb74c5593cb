use vstd::prelude::*;

verus! {

/// Lowest rarity number of the Uncommon tier.
pub const UNCOMMON_FROM: u64 = 200;

/// Lowest rarity number of the Rare tier.
pub const RARE_FROM: u64 = 1000;

/// Lowest rarity number of the Epic tier.
pub const EPIC_FROM: u64 = 5000;

/// Lowest rarity number of the Legendary tier.
pub const LEGENDARY_FROM: u64 = 25000;

/// The five ordered rarity tiers.
#[derive(Clone, Copy, Debug, PartialEq, Eq, Structural, PartialOrd, Ord)]
pub enum ItemRarity {
    Common,
    Uncommon,
    Rare,
    Epic,
    Legendary,
}

/// The tier that a rarity number falls into; each bound belongs to the higher tier.
pub open spec fn tier_of(n: nat) -> ItemRarity {
    if n < UNCOMMON_FROM {
        ItemRarity::Common
    } else if n < RARE_FROM {
        ItemRarity::Uncommon
    } else if n < EPIC_FROM {
        ItemRarity::Rare
    } else if n < LEGENDARY_FROM {
        ItemRarity::Epic
    } else {
        ItemRarity::Legendary
    }
}

impl ItemRarity {
    /// The tier of rarity number `n`.
    pub fn from_rarity_num(n: u64) -> (r: ItemRarity)
        ensures
            r == tier_of(n as nat),
    {
        if n < UNCOMMON_FROM {
            ItemRarity::Common
        } else if n < RARE_FROM {
            ItemRarity::Uncommon
        } else if n < EPIC_FROM {
            ItemRarity::Rare
        } else if n < LEGENDARY_FROM {
            ItemRarity::Epic
        } else {
            ItemRarity::Legendary
        }
    }
}

impl From<u64> for ItemRarity {
    fn from(n: u64) -> (r: ItemRarity) {
        ItemRarity::from_rarity_num(n)
    }
}

impl vstd::std_specs::convert::FromSpecImpl<u64> for ItemRarity {
    open spec fn obeys_from_spec() -> bool {
        true
    }

    open spec fn from_spec(n: u64) -> ItemRarity {
        tier_of(n as nat)
    }
}

} // verus!
