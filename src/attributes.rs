use vstd::prelude::*;
use crate::items::{Item, Occupation};

verus! {

/// The kinds into which some items are classified.
#[derive(Clone, Copy, Debug, Hash, PartialEq, Eq, Structural, PartialOrd, Ord)]
pub enum ItemType {
    Tool,
    Clothing,
    Pet,
    Food,
}

impl ItemType {
    /// Tools, clothing and pets can be equipped; food cannot.
    pub fn equippable(&self) -> (r: bool)
        ensures
            r == !(*self is Food),
    {
        match self {
            ItemType::Tool | ItemType::Clothing | ItemType::Pet => true,
            ItemType::Food => false,
        }
    }

    /// The kind's display name.
    pub fn name(&self) -> (r: &'static str) {
        match self {
            ItemType::Tool => "Tool",
            ItemType::Clothing => "Clothing",
            ItemType::Pet => "Pet",
            ItemType::Food => "Food",
        }
    }
}

/// Bonuses on the five character attributes.
#[derive(Clone, Copy, Debug, PartialEq, Eq, Structural)]
pub struct Stats {
    pub strength: i8,
    pub endurance: i8,
    pub agility: i8,
    pub intelligence: i8,
    pub perception: i8,
}

/// All five bonuses zero.
pub open spec fn no_stats() -> Stats {
    Stats { strength: 0, endurance: 0, agility: 0, intelligence: 0, perception: 0 }
}

impl Default for Stats {
    fn default() -> (r: Stats)
        ensures
            r == no_stats(),
    {
        Stats { strength: 0, endurance: 0, agility: 0, intelligence: 0, perception: 0 }
    }
}

impl Item {
    /// The kind of the item, if it has one.
    pub open spec fn kind(self) -> Option<ItemType> {
        match self {
            Item::ChainMail
            | Item::LeatherArmor
            | Item::Backpack
            | Item::Helmet
            | Item::FishingHat
            | Item::Overall
            | Item::Boots
            | Item::RingOfIntelligence
            | Item::RingOfStrength
            | Item::RingOfPerception
            | Item::RingOfEndurance
            | Item::RingOfAgility
            | Item::RhinoHornHelmet
            | Item::Gloves
            | Item::BearClawGloves
            | Item::Headlamp
            | Item::BearClawBoots
            | Item::GoldenRing
            | Item::RhinoHornPants
            | Item::CrystalNecklace => Some(ItemType::Clothing),

            Item::Bow
            | Item::PoisonedBow
            | Item::Sword
            | Item::Longsword
            | Item::Spear
            | Item::PoisonedSpear
            | Item::Crossbow
            | Item::Pickaxe
            | Item::Axe
            | Item::Pitchfork
            | Item::Musket
            | Item::Dynamite
            | Item::FishingRod
            | Item::PaperMap
            | Item::Wheelbarrow
            | Item::Plough
            | Item::Lantern
            | Item::FishingNet
            | Item::Dagger
            | Item::TigerFangDagger
            | Item::Bag
            | Item::DiamondAxe
            | Item::DiamondPickaxe
            | Item::DiamondSword
            | Item::DynamiteCrossbow => Some(ItemType::Tool),

            Item::Parrot
            | Item::Wolf
            | Item::Cat
            | Item::Dragon
            | Item::Donkey
            | Item::Bird
            | Item::Horse => Some(ItemType::Pet),

            Item::Apple
            | Item::Blueberry
            | Item::Bread
            | Item::BlueberryCake
            | Item::CookedFish
            | Item::CookedMeat
            | Item::BakedPotato
            | Item::Soup
            | Item::ApplePie => Some(ItemType::Food),
            _ => None,
        }
    }

    /// The kind of the item, if it has one.
    pub fn item_type(self) -> (r: Option<ItemType>)
        ensures
            r == self.kind(),
    {
        match self {
            Item::ChainMail
            | Item::LeatherArmor
            | Item::Backpack
            | Item::Helmet
            | Item::FishingHat
            | Item::Overall
            | Item::Boots
            | Item::RingOfIntelligence
            | Item::RingOfStrength
            | Item::RingOfPerception
            | Item::RingOfEndurance
            | Item::RingOfAgility
            | Item::RhinoHornHelmet
            | Item::Gloves
            | Item::BearClawGloves
            | Item::Headlamp
            | Item::BearClawBoots
            | Item::GoldenRing
            | Item::RhinoHornPants
            | Item::CrystalNecklace => Some(ItemType::Clothing),

            Item::Bow
            | Item::PoisonedBow
            | Item::Sword
            | Item::Longsword
            | Item::Spear
            | Item::PoisonedSpear
            | Item::Crossbow
            | Item::Pickaxe
            | Item::Axe
            | Item::Pitchfork
            | Item::Musket
            | Item::Dynamite
            | Item::FishingRod
            | Item::PaperMap
            | Item::Wheelbarrow
            | Item::Plough
            | Item::Lantern
            | Item::FishingNet
            | Item::Dagger
            | Item::TigerFangDagger
            | Item::Bag
            | Item::DiamondAxe
            | Item::DiamondPickaxe
            | Item::DiamondSword
            | Item::DynamiteCrossbow => Some(ItemType::Tool),

            Item::Parrot
            | Item::Wolf
            | Item::Cat
            | Item::Dragon
            | Item::Donkey
            | Item::Bird
            | Item::Horse => Some(ItemType::Pet),

            Item::Apple
            | Item::Blueberry
            | Item::Bread
            | Item::BlueberryCake
            | Item::CookedFish
            | Item::CookedMeat
            | Item::BakedPotato
            | Item::Soup
            | Item::ApplePie => Some(ItemType::Food),
            _ => None,
        }
    }

    /// The stat bonuses that the item gives; zero for items without an entry.
    pub open spec fn stat_bonus(self) -> Stats {
        match self {
            Item::ChainMail => Stats {
                strength: 0,
                endurance: 0,
                agility: -2i8,
                intelligence: 0,
                perception: 0,
            },
            Item::LeatherArmor => Stats {
                strength: 0,
                endurance: 0,
                agility: 0,
                intelligence: 0,
                perception: 0,
            },
            Item::Backpack => Stats {
                strength: 0,
                endurance: 0,
                agility: -2i8,
                intelligence: 0,
                perception: 0,
            },
            Item::Musket => Stats {
                strength: 0,
                endurance: 0,
                agility: -2i8,
                intelligence: 0,
                perception: 0,
            },
            Item::Parrot => Stats {
                strength: 0,
                endurance: 0,
                agility: 0,
                intelligence: 4,
                perception: 4,
            },
            Item::Bird => Stats {
                strength: 0,
                endurance: 0,
                agility: 0,
                intelligence: 0,
                perception: 4,
            },
            Item::Horse => Stats {
                strength: 4,
                endurance: 4,
                agility: 4,
                intelligence: 0,
                perception: 0,
            },
            Item::Cat => Stats {
                strength: 0,
                endurance: 0,
                agility: 6,
                intelligence: 0,
                perception: 6,
            },
            Item::Boots => Stats {
                strength: 0,
                endurance: 4,
                agility: 0,
                intelligence: 0,
                perception: 0,
            },
            Item::Gloves => Stats {
                strength: 0,
                endurance: 0,
                agility: 4,
                intelligence: 0,
                perception: 0,
            },
            Item::BearClawBoots => Stats {
                strength: 4,
                endurance: 4,
                agility: 0,
                intelligence: 0,
                perception: 0,
            },
            Item::BearClawGloves => Stats {
                strength: 4,
                endurance: 0,
                agility: 4,
                intelligence: 0,
                perception: 0,
            },
            Item::TigerFangDagger => Stats {
                strength: 0,
                endurance: 0,
                agility: 4,
                intelligence: 0,
                perception: 4,
            },
            Item::PaperMap => Stats {
                strength: 0,
                endurance: 0,
                agility: 0,
                intelligence: 2,
                perception: 0,
            },
            Item::Lantern => Stats {
                strength: 0,
                endurance: 0,
                agility: 0,
                intelligence: 0,
                perception: 4,
            },
            Item::Headlamp => Stats {
                strength: 0,
                endurance: 0,
                agility: 0,
                intelligence: 0,
                perception: 6,
            },
            Item::GoldenRing => Stats {
                strength: 1,
                endurance: 1,
                agility: 1,
                intelligence: 1,
                perception: 1,
            },
            Item::RingOfIntelligence => Stats {
                strength: 0,
                endurance: 0,
                agility: 0,
                intelligence: 8,
                perception: 0,
            },
            Item::RingOfStrength => Stats {
                strength: 8,
                endurance: 0,
                agility: 0,
                intelligence: 0,
                perception: 0,
            },
            Item::RingOfPerception => Stats {
                strength: 0,
                endurance: 0,
                agility: 0,
                intelligence: 0,
                perception: 8,
            },
            Item::RingOfEndurance => Stats {
                strength: 0,
                endurance: 8,
                agility: 0,
                intelligence: 0,
                perception: 0,
            },
            Item::RingOfAgility => Stats {
                strength: 0,
                endurance: 0,
                agility: 8,
                intelligence: 0,
                perception: 0,
            },
            Item::CrystalNecklace => Stats {
                strength: 6,
                endurance: 6,
                agility: 6,
                intelligence: 6,
                perception: 6,
            },
            Item::RhinoHornPants => Stats {
                strength: 8,
                endurance: 8,
                agility: 0,
                intelligence: -4i8,
                perception: 0,
            },
            _ => no_stats(),
        }
    }

    /// The stat bonuses that the item gives; zero for items without an entry.
    pub fn provides_stats(self) -> (r: Stats)
        ensures
            r == self.stat_bonus(),
    {
        match self {
            Item::ChainMail => Stats {
                strength: 0,
                endurance: 0,
                agility: -2i8,
                intelligence: 0,
                perception: 0,
            },
            Item::LeatherArmor => Stats {
                strength: 0,
                endurance: 0,
                agility: 0,
                intelligence: 0,
                perception: 0,
            },
            Item::Backpack => Stats {
                strength: 0,
                endurance: 0,
                agility: -2i8,
                intelligence: 0,
                perception: 0,
            },
            Item::Musket => Stats {
                strength: 0,
                endurance: 0,
                agility: -2i8,
                intelligence: 0,
                perception: 0,
            },
            Item::Parrot => Stats {
                strength: 0,
                endurance: 0,
                agility: 0,
                intelligence: 4,
                perception: 4,
            },
            Item::Bird => Stats {
                strength: 0,
                endurance: 0,
                agility: 0,
                intelligence: 0,
                perception: 4,
            },
            Item::Horse => Stats {
                strength: 4,
                endurance: 4,
                agility: 4,
                intelligence: 0,
                perception: 0,
            },
            Item::Cat => Stats {
                strength: 0,
                endurance: 0,
                agility: 6,
                intelligence: 0,
                perception: 6,
            },
            Item::Boots => Stats {
                strength: 0,
                endurance: 4,
                agility: 0,
                intelligence: 0,
                perception: 0,
            },
            Item::Gloves => Stats {
                strength: 0,
                endurance: 0,
                agility: 4,
                intelligence: 0,
                perception: 0,
            },
            Item::BearClawBoots => Stats {
                strength: 4,
                endurance: 4,
                agility: 0,
                intelligence: 0,
                perception: 0,
            },
            Item::BearClawGloves => Stats {
                strength: 4,
                endurance: 0,
                agility: 4,
                intelligence: 0,
                perception: 0,
            },
            Item::TigerFangDagger => Stats {
                strength: 0,
                endurance: 0,
                agility: 4,
                intelligence: 0,
                perception: 4,
            },
            Item::PaperMap => Stats {
                strength: 0,
                endurance: 0,
                agility: 0,
                intelligence: 2,
                perception: 0,
            },
            Item::Lantern => Stats {
                strength: 0,
                endurance: 0,
                agility: 0,
                intelligence: 0,
                perception: 4,
            },
            Item::Headlamp => Stats {
                strength: 0,
                endurance: 0,
                agility: 0,
                intelligence: 0,
                perception: 6,
            },
            Item::GoldenRing => Stats {
                strength: 1,
                endurance: 1,
                agility: 1,
                intelligence: 1,
                perception: 1,
            },
            Item::RingOfIntelligence => Stats {
                strength: 0,
                endurance: 0,
                agility: 0,
                intelligence: 8,
                perception: 0,
            },
            Item::RingOfStrength => Stats {
                strength: 8,
                endurance: 0,
                agility: 0,
                intelligence: 0,
                perception: 0,
            },
            Item::RingOfPerception => Stats {
                strength: 0,
                endurance: 0,
                agility: 0,
                intelligence: 0,
                perception: 8,
            },
            Item::RingOfEndurance => Stats {
                strength: 0,
                endurance: 8,
                agility: 0,
                intelligence: 0,
                perception: 0,
            },
            Item::RingOfAgility => Stats {
                strength: 0,
                endurance: 0,
                agility: 8,
                intelligence: 0,
                perception: 0,
            },
            Item::CrystalNecklace => Stats {
                strength: 6,
                endurance: 6,
                agility: 6,
                intelligence: 6,
                perception: 6,
            },
            Item::RhinoHornPants => Stats {
                strength: 8,
                endurance: 8,
                agility: 0,
                intelligence: -4i8,
                perception: 0,
            },
            _ => Stats::default(),
        }
    }

    /// How useful the item is for `occupation`, from 0 to 10; zero for pairs without an entry.
    pub open spec fn usefulness(self, occupation: Occupation) -> u64 {
        match (self, occupation) {
            (Item::Crossbow, Occupation::Hunting | Occupation::Fighting) => 7,
            (Item::DynamiteCrossbow, Occupation::Hunting | Occupation::Fighting) => 10,
            (Item::Bow, Occupation::Hunting | Occupation::Fighting) => 5,
            (Item::PoisonedBow, Occupation::Hunting | Occupation::Fighting) => 8,
            (Item::Spear, Occupation::Hunting | Occupation::Fighting) => 4,
            (Item::PoisonedSpear, Occupation::Hunting | Occupation::Fighting) => 7,
            (Item::Sword, Occupation::Fighting) => 6,
            (Item::DiamondSword, Occupation::Fighting) => 10,
            (Item::Longsword, Occupation::Fighting) => 7,
            (Item::Dagger, Occupation::Fighting) => 5,
            (Item::TigerFangDagger, Occupation::Fighting) => 8,
            (Item::Dragon, Occupation::Hunting) => 4,
            (Item::Dragon, Occupation::Fighting) => 10,
            (Item::Donkey, Occupation::Gathering) => 6,
            (Item::Donkey, Occupation::Farming) => 6,
            (Item::Donkey, Occupation::Exploring) => 6,
            (Item::Wolf, Occupation::Hunting) => 10,
            (Item::Wolf, Occupation::Fighting) => 4,
            (Item::Axe, Occupation::Logging) => 6,
            (Item::Axe, Occupation::Fighting) => 3,
            (Item::DiamondAxe, Occupation::Logging) => 10,
            (Item::DiamondAxe, Occupation::Fighting) => 3,
            (Item::Pickaxe, Occupation::Mining | Occupation::Rockhounding) => 6,
            (Item::DiamondPickaxe, Occupation::Mining | Occupation::Rockhounding) => 10,
            (Item::Pitchfork, Occupation::Farming) => 6,
            (Item::ChainMail, Occupation::Fighting) => 8,
            (Item::LeatherArmor, Occupation::Fighting) => 4,
            (Item::RhinoHornPants, Occupation::Fighting) => 6,
            (Item::Bird, Occupation::Mining | Occupation::Rockhounding) => 3,
            (Item::Musket, Occupation::Hunting) => 10,
            (Item::Musket, Occupation::Fighting) => 6,
            (Item::Dynamite, Occupation::Fighting) => 5,
            (Item::Dynamite, Occupation::Mining) => 10,
            (Item::Backpack, Occupation::Gathering) => 7,
            (Item::Bag, Occupation::Gathering) => 5,
            (
                Item::Helmet | Item::RhinoHornHelmet,
                Occupation::Mining | Occupation::Logging | Occupation::Rockhounding,
            ) => 4,
            (Item::Helmet, Occupation::Fighting) => 6,
            (Item::Headlamp, Occupation::Mining | Occupation::Rockhounding) => 8,
            (Item::RhinoHornHelmet, Occupation::Fighting) => 8,
            (Item::Horse, Occupation::Fighting | Occupation::Exploring) => 4,
            (Item::Horse, Occupation::Farming | Occupation::Logging) => 7,
            (Item::PaperMap, Occupation::Exploring) => 8,
            (Item::PaperMap, Occupation::Gathering) => 6,
            (Item::FishingHat, Occupation::Fishing) => 6,
            (Item::FishingRod, Occupation::Fishing) => 6,
            (Item::FishingNet, Occupation::Fishing) => 10,
            (Item::Overall, Occupation::Farming | Occupation::Logging) => 8,
            (
                Item::Boots | Item::BearClawBoots,
                Occupation::Hunting | Occupation::Gathering | Occupation::Exploring,
            ) => 4,
            (
                Item::Gloves | Item::BearClawGloves,
                Occupation::Mining | Occupation::Logging | Occupation::Rockhounding,
            ) => 4,
            (Item::BearClawBoots | Item::BearClawGloves, Occupation::Fighting) => 6,
            (Item::Wheelbarrow, Occupation::Gathering) => 8,
            (Item::Plough, Occupation::Farming) => 10,
            (Item::Lantern, Occupation::Mining | Occupation::Rockhounding) => 4,
            _ => 0,
        }
    }

    /// How useful the item is for `occupation`, from 0 to 10; zero for pairs without an entry.
    pub fn usefulness_for(self, occupation: Occupation) -> (r: u64)
        ensures
            r == self.usefulness(occupation),
            r <= 10,
    {
        match (self, occupation) {
            (Item::Crossbow, Occupation::Hunting | Occupation::Fighting) => 7,
            (Item::DynamiteCrossbow, Occupation::Hunting | Occupation::Fighting) => 10,
            (Item::Bow, Occupation::Hunting | Occupation::Fighting) => 5,
            (Item::PoisonedBow, Occupation::Hunting | Occupation::Fighting) => 8,
            (Item::Spear, Occupation::Hunting | Occupation::Fighting) => 4,
            (Item::PoisonedSpear, Occupation::Hunting | Occupation::Fighting) => 7,
            (Item::Sword, Occupation::Fighting) => 6,
            (Item::DiamondSword, Occupation::Fighting) => 10,
            (Item::Longsword, Occupation::Fighting) => 7,
            (Item::Dagger, Occupation::Fighting) => 5,
            (Item::TigerFangDagger, Occupation::Fighting) => 8,
            (Item::Dragon, Occupation::Hunting) => 4,
            (Item::Dragon, Occupation::Fighting) => 10,
            (Item::Donkey, Occupation::Gathering) => 6,
            (Item::Donkey, Occupation::Farming) => 6,
            (Item::Donkey, Occupation::Exploring) => 6,
            (Item::Wolf, Occupation::Hunting) => 10,
            (Item::Wolf, Occupation::Fighting) => 4,
            (Item::Axe, Occupation::Logging) => 6,
            (Item::Axe, Occupation::Fighting) => 3,
            (Item::DiamondAxe, Occupation::Logging) => 10,
            (Item::DiamondAxe, Occupation::Fighting) => 3,
            (Item::Pickaxe, Occupation::Mining | Occupation::Rockhounding) => 6,
            (Item::DiamondPickaxe, Occupation::Mining | Occupation::Rockhounding) => 10,
            (Item::Pitchfork, Occupation::Farming) => 6,
            (Item::ChainMail, Occupation::Fighting) => 8,
            (Item::LeatherArmor, Occupation::Fighting) => 4,
            (Item::RhinoHornPants, Occupation::Fighting) => 6,
            (Item::Bird, Occupation::Mining | Occupation::Rockhounding) => 3,
            (Item::Musket, Occupation::Hunting) => 10,
            (Item::Musket, Occupation::Fighting) => 6,
            (Item::Dynamite, Occupation::Fighting) => 5,
            (Item::Dynamite, Occupation::Mining) => 10,
            (Item::Backpack, Occupation::Gathering) => 7,
            (Item::Bag, Occupation::Gathering) => 5,
            (
                Item::Helmet | Item::RhinoHornHelmet,
                Occupation::Mining | Occupation::Logging | Occupation::Rockhounding,
            ) => 4,
            (Item::Helmet, Occupation::Fighting) => 6,
            (Item::Headlamp, Occupation::Mining | Occupation::Rockhounding) => 8,
            (Item::RhinoHornHelmet, Occupation::Fighting) => 8,
            (Item::Horse, Occupation::Fighting | Occupation::Exploring) => 4,
            (Item::Horse, Occupation::Farming | Occupation::Logging) => 7,
            (Item::PaperMap, Occupation::Exploring) => 8,
            (Item::PaperMap, Occupation::Gathering) => 6,
            (Item::FishingHat, Occupation::Fishing) => 6,
            (Item::FishingRod, Occupation::Fishing) => 6,
            (Item::FishingNet, Occupation::Fishing) => 10,
            (Item::Overall, Occupation::Farming | Occupation::Logging) => 8,
            (
                Item::Boots | Item::BearClawBoots,
                Occupation::Hunting | Occupation::Gathering | Occupation::Exploring,
            ) => 4,
            (
                Item::Gloves | Item::BearClawGloves,
                Occupation::Mining | Occupation::Logging | Occupation::Rockhounding,
            ) => 4,
            (Item::BearClawBoots | Item::BearClawGloves, Occupation::Fighting) => 6,
            (Item::Wheelbarrow, Occupation::Gathering) => 8,
            (Item::Plough, Occupation::Farming) => 10,
            (Item::Lantern, Occupation::Mining | Occupation::Rockhounding) => 4,
            _ => 0,
        }
    }
}

} // verus!
