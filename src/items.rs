use vstd::prelude::*;

verus! {

/// Ticks in one minute of game time.
pub const ONE_MINUTE: u64 = 60;

/// Ticks in one hour of game time.
pub const ONE_HOUR: u64 = 3600;

/// Ticks in one day of game time.
pub const ONE_DAY: u64 = 86400;

/// Number of items in the catalog.
pub const ITEM_COUNT: usize = 98;

/// Every obtainable or craftable item, in catalog order.
#[derive(Clone, Copy, Debug, Hash, PartialEq, Eq, Structural, PartialOrd, Ord)]
pub enum Item {
    Wood,
    Coal,
    Stone,
    IronOre,
    Iron,
    Nail,
    Chain,
    ChainMail,
    Bow,
    RawMeat,
    CookedMeat,
    Leather,
    Bone,
    Blueberry,
    RawFish,
    CookedFish,
    PufferFish,
    Poison,
    PoisonedBow,
    Parrot,
    String,
    Hemp,
    Wolf,
    LeatherArmor,
    Sword,
    Longsword,
    Spear,
    PoisonedSpear,
    Cat,
    Apple,
    DragonsEgg,
    Dragon,
    Donkey,
    Milk,
    Wheat,
    Egg,
    Bread,
    Flour,
    BlueberryCake,
    Potato,
    BakedPotato,
    Soup,
    Carrot,
    Crossbow,
    Pickaxe,
    Axe,
    Pitchfork,
    ApplePie,
    Bird,
    Sulfur,
    BlackPowder,
    Musket,
    Dynamite,
    Fabric,
    Backpack,
    Helmet,
    Horse,
    PaperMap,
    FishingHat,
    FishingRod,
    Overall,
    Boots,
    Wheel,
    Wheelbarrow,
    Plough,
    Lantern,
    GoldOre,
    Gold,
    GoldenRing,
    Fluorite,
    Agate,
    Sodalite,
    Ruby,
    Selenite,
    RingOfIntelligence,
    RingOfStrength,
    RingOfPerception,
    RingOfEndurance,
    RingOfAgility,
    CrystalNecklace,
    TigerFang,
    Dagger,
    TigerFangDagger,
    RhinoHorn,
    RhinoHornHelmet,
    BearClaw,
    Gloves,
    BearClawGloves,
    BearClawBoots,
    FishingNet,
    Bag,
    Headlamp,
    Diamond,
    DiamondAxe,
    DiamondPickaxe,
    DiamondSword,
    RhinoHornPants,
    DynamiteCrossbow,
}

/// An activity that can yield item drops.
#[derive(Clone, Copy, Debug, Hash, PartialEq, Eq, Structural, PartialOrd, Ord)]
pub enum Occupation {
    Idling,
    Mining,
    Logging,
    Rockhounding,
    Farming,
    Fishing,
    Hunting,
    Gathering,
    Fighting,
    Exploring,
}

/// Every occupation, in declaration order.
pub open spec fn occupations() -> Seq<Occupation> {
    seq![Occupation::Idling, Occupation::Mining, Occupation::Logging, Occupation::Rockhounding, Occupation::Farming, Occupation::Fishing, Occupation::Hunting, Occupation::Gathering, Occupation::Fighting, Occupation::Exploring]
}

/// Every occupation, in declaration order.
pub fn all_occupations() -> (r: Vec<Occupation>)
    ensures
        r@ == occupations(),
{
    vec![Occupation::Idling, Occupation::Mining, Occupation::Logging, Occupation::Rockhounding, Occupation::Farming, Occupation::Fishing, Occupation::Hunting, Occupation::Gathering, Occupation::Fighting, Occupation::Exploring]
}

/// When an occupation starts to yield an item, and how many ticks a drop takes on average.
#[derive(Clone, Copy, Debug, PartialEq, Eq, Structural)]
pub struct ItemProbability {
    pub starting_from_tick: u64,
    pub expected_ticks_per_drop: u64,
}

/// A recipe: the items it consumes, each with the quantity required.
#[derive(Debug)]
pub struct Bundle {
    entries: Vec<(Item, u64)>,
}

impl View for Bundle {
    type V = Seq<(Item, u64)>;

    closed spec fn view(&self) -> Seq<(Item, u64)> {
        self.entries@
    }
}

impl Bundle {
    /// The bundle of the given entries.
    pub fn of(entries: Vec<(Item, u64)>) -> (r: Bundle)
        ensures
            r@ == entries@,
    {
        Bundle { entries }
    }

    /// Number of distinct items in the bundle.
    pub fn len(&self) -> (r: usize)
        ensures
            r == self@.len(),
    {
        self.entries.len()
    }

    /// The `k`-th entry.
    pub fn entry(&self, k: usize) -> (r: (Item, u64))
        requires
            k < self@.len(),
        ensures
            r == self@[k as int],
    {
        self.entries[k]
    }
}

impl Item {
    /// Position of the item in catalog order.
    pub open spec fn index_spec(self) -> nat {
        match self {
            Item::Wood => 0,
            Item::Coal => 1,
            Item::Stone => 2,
            Item::IronOre => 3,
            Item::Iron => 4,
            Item::Nail => 5,
            Item::Chain => 6,
            Item::ChainMail => 7,
            Item::Bow => 8,
            Item::RawMeat => 9,
            Item::CookedMeat => 10,
            Item::Leather => 11,
            Item::Bone => 12,
            Item::Blueberry => 13,
            Item::RawFish => 14,
            Item::CookedFish => 15,
            Item::PufferFish => 16,
            Item::Poison => 17,
            Item::PoisonedBow => 18,
            Item::Parrot => 19,
            Item::String => 20,
            Item::Hemp => 21,
            Item::Wolf => 22,
            Item::LeatherArmor => 23,
            Item::Sword => 24,
            Item::Longsword => 25,
            Item::Spear => 26,
            Item::PoisonedSpear => 27,
            Item::Cat => 28,
            Item::Apple => 29,
            Item::DragonsEgg => 30,
            Item::Dragon => 31,
            Item::Donkey => 32,
            Item::Milk => 33,
            Item::Wheat => 34,
            Item::Egg => 35,
            Item::Bread => 36,
            Item::Flour => 37,
            Item::BlueberryCake => 38,
            Item::Potato => 39,
            Item::BakedPotato => 40,
            Item::Soup => 41,
            Item::Carrot => 42,
            Item::Crossbow => 43,
            Item::Pickaxe => 44,
            Item::Axe => 45,
            Item::Pitchfork => 46,
            Item::ApplePie => 47,
            Item::Bird => 48,
            Item::Sulfur => 49,
            Item::BlackPowder => 50,
            Item::Musket => 51,
            Item::Dynamite => 52,
            Item::Fabric => 53,
            Item::Backpack => 54,
            Item::Helmet => 55,
            Item::Horse => 56,
            Item::PaperMap => 57,
            Item::FishingHat => 58,
            Item::FishingRod => 59,
            Item::Overall => 60,
            Item::Boots => 61,
            Item::Wheel => 62,
            Item::Wheelbarrow => 63,
            Item::Plough => 64,
            Item::Lantern => 65,
            Item::GoldOre => 66,
            Item::Gold => 67,
            Item::GoldenRing => 68,
            Item::Fluorite => 69,
            Item::Agate => 70,
            Item::Sodalite => 71,
            Item::Ruby => 72,
            Item::Selenite => 73,
            Item::RingOfIntelligence => 74,
            Item::RingOfStrength => 75,
            Item::RingOfPerception => 76,
            Item::RingOfEndurance => 77,
            Item::RingOfAgility => 78,
            Item::CrystalNecklace => 79,
            Item::TigerFang => 80,
            Item::Dagger => 81,
            Item::TigerFangDagger => 82,
            Item::RhinoHorn => 83,
            Item::RhinoHornHelmet => 84,
            Item::BearClaw => 85,
            Item::Gloves => 86,
            Item::BearClawGloves => 87,
            Item::BearClawBoots => 88,
            Item::FishingNet => 89,
            Item::Bag => 90,
            Item::Headlamp => 91,
            Item::Diamond => 92,
            Item::DiamondAxe => 93,
            Item::DiamondPickaxe => 94,
            Item::DiamondSword => 95,
            Item::RhinoHornPants => 96,
            Item::DynamiteCrossbow => 97,
        }
    }

    /// The item at position `i` of catalog order.
    pub open spec fn at(i: usize) -> Item {
        match i {
            0 => Item::Wood,
            1 => Item::Coal,
            2 => Item::Stone,
            3 => Item::IronOre,
            4 => Item::Iron,
            5 => Item::Nail,
            6 => Item::Chain,
            7 => Item::ChainMail,
            8 => Item::Bow,
            9 => Item::RawMeat,
            10 => Item::CookedMeat,
            11 => Item::Leather,
            12 => Item::Bone,
            13 => Item::Blueberry,
            14 => Item::RawFish,
            15 => Item::CookedFish,
            16 => Item::PufferFish,
            17 => Item::Poison,
            18 => Item::PoisonedBow,
            19 => Item::Parrot,
            20 => Item::String,
            21 => Item::Hemp,
            22 => Item::Wolf,
            23 => Item::LeatherArmor,
            24 => Item::Sword,
            25 => Item::Longsword,
            26 => Item::Spear,
            27 => Item::PoisonedSpear,
            28 => Item::Cat,
            29 => Item::Apple,
            30 => Item::DragonsEgg,
            31 => Item::Dragon,
            32 => Item::Donkey,
            33 => Item::Milk,
            34 => Item::Wheat,
            35 => Item::Egg,
            36 => Item::Bread,
            37 => Item::Flour,
            38 => Item::BlueberryCake,
            39 => Item::Potato,
            40 => Item::BakedPotato,
            41 => Item::Soup,
            42 => Item::Carrot,
            43 => Item::Crossbow,
            44 => Item::Pickaxe,
            45 => Item::Axe,
            46 => Item::Pitchfork,
            47 => Item::ApplePie,
            48 => Item::Bird,
            49 => Item::Sulfur,
            50 => Item::BlackPowder,
            51 => Item::Musket,
            52 => Item::Dynamite,
            53 => Item::Fabric,
            54 => Item::Backpack,
            55 => Item::Helmet,
            56 => Item::Horse,
            57 => Item::PaperMap,
            58 => Item::FishingHat,
            59 => Item::FishingRod,
            60 => Item::Overall,
            61 => Item::Boots,
            62 => Item::Wheel,
            63 => Item::Wheelbarrow,
            64 => Item::Plough,
            65 => Item::Lantern,
            66 => Item::GoldOre,
            67 => Item::Gold,
            68 => Item::GoldenRing,
            69 => Item::Fluorite,
            70 => Item::Agate,
            71 => Item::Sodalite,
            72 => Item::Ruby,
            73 => Item::Selenite,
            74 => Item::RingOfIntelligence,
            75 => Item::RingOfStrength,
            76 => Item::RingOfPerception,
            77 => Item::RingOfEndurance,
            78 => Item::RingOfAgility,
            79 => Item::CrystalNecklace,
            80 => Item::TigerFang,
            81 => Item::Dagger,
            82 => Item::TigerFangDagger,
            83 => Item::RhinoHorn,
            84 => Item::RhinoHornHelmet,
            85 => Item::BearClaw,
            86 => Item::Gloves,
            87 => Item::BearClawGloves,
            88 => Item::BearClawBoots,
            89 => Item::FishingNet,
            90 => Item::Bag,
            91 => Item::Headlamp,
            92 => Item::Diamond,
            93 => Item::DiamondAxe,
            94 => Item::DiamondPickaxe,
            95 => Item::DiamondSword,
            96 => Item::RhinoHornPants,
            97 => Item::DynamiteCrossbow,
            _ => Item::Wood,
        }
    }

    /// Position of the item in catalog order.
    pub fn index(self) -> (r: usize)
        ensures
            r == self.index_spec(),
            r < ITEM_COUNT,
    {
        match self {
            Item::Wood => 0,
            Item::Coal => 1,
            Item::Stone => 2,
            Item::IronOre => 3,
            Item::Iron => 4,
            Item::Nail => 5,
            Item::Chain => 6,
            Item::ChainMail => 7,
            Item::Bow => 8,
            Item::RawMeat => 9,
            Item::CookedMeat => 10,
            Item::Leather => 11,
            Item::Bone => 12,
            Item::Blueberry => 13,
            Item::RawFish => 14,
            Item::CookedFish => 15,
            Item::PufferFish => 16,
            Item::Poison => 17,
            Item::PoisonedBow => 18,
            Item::Parrot => 19,
            Item::String => 20,
            Item::Hemp => 21,
            Item::Wolf => 22,
            Item::LeatherArmor => 23,
            Item::Sword => 24,
            Item::Longsword => 25,
            Item::Spear => 26,
            Item::PoisonedSpear => 27,
            Item::Cat => 28,
            Item::Apple => 29,
            Item::DragonsEgg => 30,
            Item::Dragon => 31,
            Item::Donkey => 32,
            Item::Milk => 33,
            Item::Wheat => 34,
            Item::Egg => 35,
            Item::Bread => 36,
            Item::Flour => 37,
            Item::BlueberryCake => 38,
            Item::Potato => 39,
            Item::BakedPotato => 40,
            Item::Soup => 41,
            Item::Carrot => 42,
            Item::Crossbow => 43,
            Item::Pickaxe => 44,
            Item::Axe => 45,
            Item::Pitchfork => 46,
            Item::ApplePie => 47,
            Item::Bird => 48,
            Item::Sulfur => 49,
            Item::BlackPowder => 50,
            Item::Musket => 51,
            Item::Dynamite => 52,
            Item::Fabric => 53,
            Item::Backpack => 54,
            Item::Helmet => 55,
            Item::Horse => 56,
            Item::PaperMap => 57,
            Item::FishingHat => 58,
            Item::FishingRod => 59,
            Item::Overall => 60,
            Item::Boots => 61,
            Item::Wheel => 62,
            Item::Wheelbarrow => 63,
            Item::Plough => 64,
            Item::Lantern => 65,
            Item::GoldOre => 66,
            Item::Gold => 67,
            Item::GoldenRing => 68,
            Item::Fluorite => 69,
            Item::Agate => 70,
            Item::Sodalite => 71,
            Item::Ruby => 72,
            Item::Selenite => 73,
            Item::RingOfIntelligence => 74,
            Item::RingOfStrength => 75,
            Item::RingOfPerception => 76,
            Item::RingOfEndurance => 77,
            Item::RingOfAgility => 78,
            Item::CrystalNecklace => 79,
            Item::TigerFang => 80,
            Item::Dagger => 81,
            Item::TigerFangDagger => 82,
            Item::RhinoHorn => 83,
            Item::RhinoHornHelmet => 84,
            Item::BearClaw => 85,
            Item::Gloves => 86,
            Item::BearClawGloves => 87,
            Item::BearClawBoots => 88,
            Item::FishingNet => 89,
            Item::Bag => 90,
            Item::Headlamp => 91,
            Item::Diamond => 92,
            Item::DiamondAxe => 93,
            Item::DiamondPickaxe => 94,
            Item::DiamondSword => 95,
            Item::RhinoHornPants => 96,
            Item::DynamiteCrossbow => 97,
        }
    }

    /// The item at position `i` of catalog order.
    pub fn from_index(i: usize) -> (r: Item)
        requires
            i < ITEM_COUNT,
        ensures
            r == Item::at(i),
    {
        match i {
            0 => Item::Wood,
            1 => Item::Coal,
            2 => Item::Stone,
            3 => Item::IronOre,
            4 => Item::Iron,
            5 => Item::Nail,
            6 => Item::Chain,
            7 => Item::ChainMail,
            8 => Item::Bow,
            9 => Item::RawMeat,
            10 => Item::CookedMeat,
            11 => Item::Leather,
            12 => Item::Bone,
            13 => Item::Blueberry,
            14 => Item::RawFish,
            15 => Item::CookedFish,
            16 => Item::PufferFish,
            17 => Item::Poison,
            18 => Item::PoisonedBow,
            19 => Item::Parrot,
            20 => Item::String,
            21 => Item::Hemp,
            22 => Item::Wolf,
            23 => Item::LeatherArmor,
            24 => Item::Sword,
            25 => Item::Longsword,
            26 => Item::Spear,
            27 => Item::PoisonedSpear,
            28 => Item::Cat,
            29 => Item::Apple,
            30 => Item::DragonsEgg,
            31 => Item::Dragon,
            32 => Item::Donkey,
            33 => Item::Milk,
            34 => Item::Wheat,
            35 => Item::Egg,
            36 => Item::Bread,
            37 => Item::Flour,
            38 => Item::BlueberryCake,
            39 => Item::Potato,
            40 => Item::BakedPotato,
            41 => Item::Soup,
            42 => Item::Carrot,
            43 => Item::Crossbow,
            44 => Item::Pickaxe,
            45 => Item::Axe,
            46 => Item::Pitchfork,
            47 => Item::ApplePie,
            48 => Item::Bird,
            49 => Item::Sulfur,
            50 => Item::BlackPowder,
            51 => Item::Musket,
            52 => Item::Dynamite,
            53 => Item::Fabric,
            54 => Item::Backpack,
            55 => Item::Helmet,
            56 => Item::Horse,
            57 => Item::PaperMap,
            58 => Item::FishingHat,
            59 => Item::FishingRod,
            60 => Item::Overall,
            61 => Item::Boots,
            62 => Item::Wheel,
            63 => Item::Wheelbarrow,
            64 => Item::Plough,
            65 => Item::Lantern,
            66 => Item::GoldOre,
            67 => Item::Gold,
            68 => Item::GoldenRing,
            69 => Item::Fluorite,
            70 => Item::Agate,
            71 => Item::Sodalite,
            72 => Item::Ruby,
            73 => Item::Selenite,
            74 => Item::RingOfIntelligence,
            75 => Item::RingOfStrength,
            76 => Item::RingOfPerception,
            77 => Item::RingOfEndurance,
            78 => Item::RingOfAgility,
            79 => Item::CrystalNecklace,
            80 => Item::TigerFang,
            81 => Item::Dagger,
            82 => Item::TigerFangDagger,
            83 => Item::RhinoHorn,
            84 => Item::RhinoHornHelmet,
            85 => Item::BearClaw,
            86 => Item::Gloves,
            87 => Item::BearClawGloves,
            88 => Item::BearClawBoots,
            89 => Item::FishingNet,
            90 => Item::Bag,
            91 => Item::Headlamp,
            92 => Item::Diamond,
            93 => Item::DiamondAxe,
            94 => Item::DiamondPickaxe,
            95 => Item::DiamondSword,
            96 => Item::RhinoHornPants,
            97 => Item::DynamiteCrossbow,
            _ => Item::Wood,
        }
    }

    /// What crafting the item consumes, if it can be crafted.
    pub open spec fn recipe(self) -> Option<Seq<(Item, u64)>> {
        match self {
            Item::Iron => Some(seq![(Item::IronOre, 1), (Item::Coal, 1)]),
            Item::Nail => Some(seq![(Item::Iron, 1), (Item::Coal, 1)]),
            Item::Chain => Some(seq![(Item::Iron, 5), (Item::Coal, 2)]),
            Item::ChainMail => Some(seq![(Item::Chain, 5)]),
            Item::Coal => Some(seq![(Item::Wood, 3)]),
            Item::Bow => Some(seq![(Item::Wood, 3), (Item::String, 1)]),
            Item::CookedMeat => Some(seq![(Item::RawMeat, 1), (Item::Coal, 1)]),
            Item::CookedFish => Some(seq![(Item::RawFish, 1), (Item::Coal, 1)]),
            Item::Poison => Some(seq![(Item::PufferFish, 1)]),
            Item::PoisonedBow => Some(seq![(Item::Bow, 1), (Item::Poison, 1)]),
            Item::String => Some(seq![(Item::Hemp, 3)]),
            Item::LeatherArmor => Some(seq![(Item::Leather, 8), (Item::String, 3)]),
            Item::Sword => Some(seq![(Item::Wood, 1), (Item::Iron, 5)]),
            Item::Longsword => Some(seq![(Item::Wood, 1), (Item::Iron, 10)]),
            Item::Spear => Some(seq![(Item::Wood, 3), (Item::Iron, 2)]),
            Item::Dagger => Some(seq![(Item::Iron, 3)]),
            Item::TigerFangDagger => Some(seq![(Item::TigerFang, 1), (Item::Dagger, 1)]),
            Item::PoisonedSpear => Some(seq![(Item::Spear, 1), (Item::Poison, 1)]),
            Item::Dragon => Some(seq![(Item::DragonsEgg, 1), (Item::Coal, 100)]),
            Item::BakedPotato => Some(seq![(Item::Potato, 1), (Item::Coal, 1)]),
            Item::BlueberryCake => Some(seq![(Item::Blueberry, 5), (Item::Flour, 3), (Item::Egg, 2), (Item::Milk, 1)]),
            Item::ApplePie => Some(seq![(Item::Apple, 5), (Item::Flour, 3), (Item::Egg, 2), (Item::Milk, 1)]),
            Item::Bread => Some(seq![(Item::Flour, 3)]),
            Item::Flour => Some(seq![(Item::Wheat, 3)]),
            Item::Soup => Some(seq![(Item::Potato, 3), (Item::Carrot, 3)]),
            Item::Pickaxe => Some(seq![(Item::Wood, 5), (Item::Iron, 10)]),
            Item::Axe => Some(seq![(Item::Wood, 5), (Item::Iron, 10)]),
            Item::Pitchfork => Some(seq![(Item::Wood, 5), (Item::Iron, 10)]),
            Item::Crossbow => Some(seq![(Item::Wood, 5), (Item::Iron, 10), (Item::Nail, 3)]),
            Item::BlackPowder => Some(seq![(Item::Coal, 2), (Item::Sulfur, 1)]),
            Item::Musket => Some(seq![(Item::Wood, 10), (Item::Iron, 20), (Item::BlackPowder, 5)]),
            Item::Dynamite => Some(seq![(Item::BlackPowder, 10), (Item::Fabric, 1)]),
            Item::DynamiteCrossbow => Some(seq![(Item::Dynamite, 1), (Item::Crossbow, 1)]),
            Item::Fabric => Some(seq![(Item::String, 3)]),
            Item::Backpack => Some(seq![(Item::String, 2), (Item::Leather, 5)]),
            Item::Bag => Some(seq![(Item::String, 1), (Item::Fabric, 2)]),
            Item::Helmet => Some(seq![(Item::Iron, 3), (Item::Leather, 1), (Item::String, 1)]),
            Item::RhinoHornHelmet => Some(seq![(Item::RhinoHorn, 1), (Item::Helmet, 1)]),
            Item::FishingRod => Some(seq![(Item::Wood, 3), (Item::String, 3), (Item::Iron, 1)]),
            Item::FishingHat => Some(seq![(Item::Fabric, 5)]),
            Item::PaperMap => Some(seq![(Item::Fabric, 5)]),
            Item::Overall => Some(seq![(Item::Fabric, 5), (Item::String, 5)]),
            Item::Boots => Some(seq![(Item::Leather, 5), (Item::String, 2)]),
            Item::BearClawBoots => Some(seq![(Item::BearClaw, 1), (Item::Boots, 1)]),
            Item::Gloves => Some(seq![(Item::Leather, 5), (Item::String, 2)]),
            Item::BearClawGloves => Some(seq![(Item::BearClaw, 1), (Item::Gloves, 1)]),
            Item::Wheel => Some(seq![(Item::Iron, 3), (Item::Wood, 5), (Item::Nail, 5)]),
            Item::Wheelbarrow => Some(seq![(Item::Wheel, 1), (Item::Iron, 2), (Item::Nail, 5)]),
            Item::Plough => Some(seq![(Item::Wheel, 2), (Item::Iron, 10), (Item::Nail, 5), (Item::Chain, 5)]),
            Item::Lantern => Some(seq![(Item::Iron, 3), (Item::String, 1)]),
            Item::Gold => Some(seq![(Item::GoldOre, 1), (Item::Coal, 1)]),
            Item::GoldenRing => Some(seq![(Item::Gold, 3)]),
            Item::RingOfIntelligence => Some(seq![(Item::GoldenRing, 1), (Item::Fluorite, 1)]),
            Item::RingOfStrength => Some(seq![(Item::GoldenRing, 1), (Item::Agate, 1)]),
            Item::RingOfPerception => Some(seq![(Item::GoldenRing, 1), (Item::Sodalite, 1)]),
            Item::RingOfEndurance => Some(seq![(Item::GoldenRing, 1), (Item::Ruby, 1)]),
            Item::RingOfAgility => Some(seq![(Item::GoldenRing, 1), (Item::Selenite, 1)]),
            Item::CrystalNecklace => Some(seq![(Item::String, 1), (Item::Fluorite, 1), (Item::Agate, 1), (Item::Sodalite, 1), (Item::Ruby, 1), (Item::Selenite, 1)]),
            Item::FishingNet => Some(seq![(Item::String, 20), (Item::Iron, 2)]),
            Item::Headlamp => Some(seq![(Item::Helmet, 1), (Item::Lantern, 1)]),
            Item::DiamondAxe => Some(seq![(Item::Axe, 1), (Item::Diamond, 3)]),
            Item::DiamondPickaxe => Some(seq![(Item::Pickaxe, 1), (Item::Diamond, 3)]),
            Item::DiamondSword => Some(seq![(Item::Sword, 1), (Item::Diamond, 3)]),
            Item::RhinoHornPants => Some(seq![(Item::RhinoHorn, 1), (Item::LeatherArmor, 1)]),
            _ => None,
        }
    }

    /// What crafting the item consumes, if it can be crafted.
    pub fn requirements(self) -> (r: Option<Bundle>)
        ensures
            match r {
                Some(b) => self.recipe() == Some(b@),
                None => self.recipe() is None,
            },
    {
        match self {
            Item::Iron => Some(Bundle::of(vec![(Item::IronOre, 1), (Item::Coal, 1)])),
            Item::Nail => Some(Bundle::of(vec![(Item::Iron, 1), (Item::Coal, 1)])),
            Item::Chain => Some(Bundle::of(vec![(Item::Iron, 5), (Item::Coal, 2)])),
            Item::ChainMail => Some(Bundle::of(vec![(Item::Chain, 5)])),
            Item::Coal => Some(Bundle::of(vec![(Item::Wood, 3)])),
            Item::Bow => Some(Bundle::of(vec![(Item::Wood, 3), (Item::String, 1)])),
            Item::CookedMeat => Some(Bundle::of(vec![(Item::RawMeat, 1), (Item::Coal, 1)])),
            Item::CookedFish => Some(Bundle::of(vec![(Item::RawFish, 1), (Item::Coal, 1)])),
            Item::Poison => Some(Bundle::of(vec![(Item::PufferFish, 1)])),
            Item::PoisonedBow => Some(Bundle::of(vec![(Item::Bow, 1), (Item::Poison, 1)])),
            Item::String => Some(Bundle::of(vec![(Item::Hemp, 3)])),
            Item::LeatherArmor => Some(Bundle::of(vec![(Item::Leather, 8), (Item::String, 3)])),
            Item::Sword => Some(Bundle::of(vec![(Item::Wood, 1), (Item::Iron, 5)])),
            Item::Longsword => Some(Bundle::of(vec![(Item::Wood, 1), (Item::Iron, 10)])),
            Item::Spear => Some(Bundle::of(vec![(Item::Wood, 3), (Item::Iron, 2)])),
            Item::Dagger => Some(Bundle::of(vec![(Item::Iron, 3)])),
            Item::TigerFangDagger => Some(Bundle::of(vec![(Item::TigerFang, 1), (Item::Dagger, 1)])),
            Item::PoisonedSpear => Some(Bundle::of(vec![(Item::Spear, 1), (Item::Poison, 1)])),
            Item::Dragon => Some(Bundle::of(vec![(Item::DragonsEgg, 1), (Item::Coal, 100)])),
            Item::BakedPotato => Some(Bundle::of(vec![(Item::Potato, 1), (Item::Coal, 1)])),
            Item::BlueberryCake => Some(Bundle::of(vec![(Item::Blueberry, 5), (Item::Flour, 3), (Item::Egg, 2), (Item::Milk, 1)])),
            Item::ApplePie => Some(Bundle::of(vec![(Item::Apple, 5), (Item::Flour, 3), (Item::Egg, 2), (Item::Milk, 1)])),
            Item::Bread => Some(Bundle::of(vec![(Item::Flour, 3)])),
            Item::Flour => Some(Bundle::of(vec![(Item::Wheat, 3)])),
            Item::Soup => Some(Bundle::of(vec![(Item::Potato, 3), (Item::Carrot, 3)])),
            Item::Pickaxe => Some(Bundle::of(vec![(Item::Wood, 5), (Item::Iron, 10)])),
            Item::Axe => Some(Bundle::of(vec![(Item::Wood, 5), (Item::Iron, 10)])),
            Item::Pitchfork => Some(Bundle::of(vec![(Item::Wood, 5), (Item::Iron, 10)])),
            Item::Crossbow => Some(Bundle::of(vec![(Item::Wood, 5), (Item::Iron, 10), (Item::Nail, 3)])),
            Item::BlackPowder => Some(Bundle::of(vec![(Item::Coal, 2), (Item::Sulfur, 1)])),
            Item::Musket => Some(Bundle::of(vec![(Item::Wood, 10), (Item::Iron, 20), (Item::BlackPowder, 5)])),
            Item::Dynamite => Some(Bundle::of(vec![(Item::BlackPowder, 10), (Item::Fabric, 1)])),
            Item::DynamiteCrossbow => Some(Bundle::of(vec![(Item::Dynamite, 1), (Item::Crossbow, 1)])),
            Item::Fabric => Some(Bundle::of(vec![(Item::String, 3)])),
            Item::Backpack => Some(Bundle::of(vec![(Item::String, 2), (Item::Leather, 5)])),
            Item::Bag => Some(Bundle::of(vec![(Item::String, 1), (Item::Fabric, 2)])),
            Item::Helmet => Some(Bundle::of(vec![(Item::Iron, 3), (Item::Leather, 1), (Item::String, 1)])),
            Item::RhinoHornHelmet => Some(Bundle::of(vec![(Item::RhinoHorn, 1), (Item::Helmet, 1)])),
            Item::FishingRod => Some(Bundle::of(vec![(Item::Wood, 3), (Item::String, 3), (Item::Iron, 1)])),
            Item::FishingHat => Some(Bundle::of(vec![(Item::Fabric, 5)])),
            Item::PaperMap => Some(Bundle::of(vec![(Item::Fabric, 5)])),
            Item::Overall => Some(Bundle::of(vec![(Item::Fabric, 5), (Item::String, 5)])),
            Item::Boots => Some(Bundle::of(vec![(Item::Leather, 5), (Item::String, 2)])),
            Item::BearClawBoots => Some(Bundle::of(vec![(Item::BearClaw, 1), (Item::Boots, 1)])),
            Item::Gloves => Some(Bundle::of(vec![(Item::Leather, 5), (Item::String, 2)])),
            Item::BearClawGloves => Some(Bundle::of(vec![(Item::BearClaw, 1), (Item::Gloves, 1)])),
            Item::Wheel => Some(Bundle::of(vec![(Item::Iron, 3), (Item::Wood, 5), (Item::Nail, 5)])),
            Item::Wheelbarrow => Some(Bundle::of(vec![(Item::Wheel, 1), (Item::Iron, 2), (Item::Nail, 5)])),
            Item::Plough => Some(Bundle::of(vec![(Item::Wheel, 2), (Item::Iron, 10), (Item::Nail, 5), (Item::Chain, 5)])),
            Item::Lantern => Some(Bundle::of(vec![(Item::Iron, 3), (Item::String, 1)])),
            Item::Gold => Some(Bundle::of(vec![(Item::GoldOre, 1), (Item::Coal, 1)])),
            Item::GoldenRing => Some(Bundle::of(vec![(Item::Gold, 3)])),
            Item::RingOfIntelligence => Some(Bundle::of(vec![(Item::GoldenRing, 1), (Item::Fluorite, 1)])),
            Item::RingOfStrength => Some(Bundle::of(vec![(Item::GoldenRing, 1), (Item::Agate, 1)])),
            Item::RingOfPerception => Some(Bundle::of(vec![(Item::GoldenRing, 1), (Item::Sodalite, 1)])),
            Item::RingOfEndurance => Some(Bundle::of(vec![(Item::GoldenRing, 1), (Item::Ruby, 1)])),
            Item::RingOfAgility => Some(Bundle::of(vec![(Item::GoldenRing, 1), (Item::Selenite, 1)])),
            Item::CrystalNecklace => Some(Bundle::of(vec![(Item::String, 1), (Item::Fluorite, 1), (Item::Agate, 1), (Item::Sodalite, 1), (Item::Ruby, 1), (Item::Selenite, 1)])),
            Item::FishingNet => Some(Bundle::of(vec![(Item::String, 20), (Item::Iron, 2)])),
            Item::Headlamp => Some(Bundle::of(vec![(Item::Helmet, 1), (Item::Lantern, 1)])),
            Item::DiamondAxe => Some(Bundle::of(vec![(Item::Axe, 1), (Item::Diamond, 3)])),
            Item::DiamondPickaxe => Some(Bundle::of(vec![(Item::Pickaxe, 1), (Item::Diamond, 3)])),
            Item::DiamondSword => Some(Bundle::of(vec![(Item::Sword, 1), (Item::Diamond, 3)])),
            Item::RhinoHornPants => Some(Bundle::of(vec![(Item::RhinoHorn, 1), (Item::LeatherArmor, 1)])),
            _ => None,
        }
    }

    /// Every recipe lists distinct items, each with a positive quantity.
    pub proof fn lemma_recipe_well_formed(self)
        ensures
            match self.recipe() {
                Some(b) => {
                    &&& b.len() > 0
                    &&& forall|k: int| 0 <= k < b.len() ==> (#[trigger] b[k]).1 > 0
                    &&& forall|j: int, k: int| 0 <= j < k < b.len() ==> (#[trigger] b[j]).0 != (#[trigger] b[k]).0
                },
                None => true,
            },
    {
    }

    /// When `occupation` yields the item, and how often.
    pub open spec fn drop_param(self, occupation: Occupation) -> Option<ItemProbability> {
        match occupation {
            Occupation::Mining => match self {
                Item::Stone => Some(ItemProbability {
                    starting_from_tick: 0,
                    expected_ticks_per_drop: (ONE_MINUTE / 2) as u64,
                }),
                Item::IronOre => Some(ItemProbability {
                    starting_from_tick: (ONE_MINUTE * 3) as u64,
                    expected_ticks_per_drop: (ONE_MINUTE * 3) as u64,
                }),
                Item::Coal => Some(ItemProbability {
                    starting_from_tick: (ONE_MINUTE * 2) as u64,
                    expected_ticks_per_drop: (ONE_MINUTE * 2) as u64,
                }),
                Item::Sulfur => Some(ItemProbability {
                    starting_from_tick: ONE_HOUR,
                    expected_ticks_per_drop: ONE_HOUR,
                }),
                Item::GoldOre => Some(ItemProbability {
                    starting_from_tick: (ONE_HOUR * 2) as u64,
                    expected_ticks_per_drop: (ONE_HOUR * 2) as u64,
                }),
                _ => None,
            },
            Occupation::Rockhounding => match self {
                Item::Fluorite => Some(ItemProbability {
                    starting_from_tick: 0,
                    expected_ticks_per_drop: ONE_DAY,
                }),
                Item::Agate => Some(ItemProbability {
                    starting_from_tick: 0,
                    expected_ticks_per_drop: ONE_DAY,
                }),
                Item::Sodalite => Some(ItemProbability {
                    starting_from_tick: 0,
                    expected_ticks_per_drop: ONE_DAY,
                }),
                Item::Ruby => Some(ItemProbability {
                    starting_from_tick: 0,
                    expected_ticks_per_drop: ONE_DAY,
                }),
                Item::Selenite => Some(ItemProbability {
                    starting_from_tick: 0,
                    expected_ticks_per_drop: ONE_DAY,
                }),
                Item::Diamond => Some(ItemProbability {
                    starting_from_tick: 0,
                    expected_ticks_per_drop: ONE_DAY,
                }),
                _ => None,
            },
            Occupation::Logging => match self {
                Item::Wood => Some(ItemProbability {
                    starting_from_tick: 0,
                    expected_ticks_per_drop: (ONE_MINUTE / 2) as u64,
                }),
                Item::Apple => Some(ItemProbability {
                    starting_from_tick: 0,
                    expected_ticks_per_drop: (ONE_MINUTE * 5) as u64,
                }),
                Item::Parrot => Some(ItemProbability {
                    starting_from_tick: 0,
                    expected_ticks_per_drop: ONE_DAY,
                }),
                Item::Bird => Some(ItemProbability {
                    starting_from_tick: 0,
                    expected_ticks_per_drop: ONE_DAY,
                }),
                _ => None,
            },
            Occupation::Hunting => match self {
                Item::RawMeat => Some(ItemProbability {
                    starting_from_tick: 0,
                    expected_ticks_per_drop: (ONE_MINUTE * 5) as u64,
                }),
                Item::Leather => Some(ItemProbability {
                    starting_from_tick: 0,
                    expected_ticks_per_drop: (ONE_MINUTE * 5) as u64,
                }),
                Item::Bone => Some(ItemProbability {
                    starting_from_tick: 0,
                    expected_ticks_per_drop: (ONE_MINUTE * 10) as u64,
                }),
                _ => None,
            },
            Occupation::Gathering => match self {
                Item::Blueberry => Some(ItemProbability {
                    starting_from_tick: 0,
                    expected_ticks_per_drop: ONE_MINUTE,
                }),
                Item::Apple => Some(ItemProbability {
                    starting_from_tick: 0,
                    expected_ticks_per_drop: (ONE_MINUTE * 2) as u64,
                }),
                Item::Hemp => Some(ItemProbability {
                    starting_from_tick: 0,
                    expected_ticks_per_drop: (ONE_MINUTE * 3) as u64,
                }),
                _ => None,
            },
            Occupation::Fishing => match self {
                Item::RawFish => Some(ItemProbability {
                    starting_from_tick: 0,
                    expected_ticks_per_drop: (ONE_MINUTE * 5) as u64,
                }),
                Item::PufferFish => Some(ItemProbability {
                    starting_from_tick: 0,
                    expected_ticks_per_drop: ONE_HOUR,
                }),
                Item::Boots => Some(ItemProbability {
                    starting_from_tick: 0,
                    expected_ticks_per_drop: (ONE_HOUR * 2) as u64,
                }),
                Item::Gloves => Some(ItemProbability {
                    starting_from_tick: 0,
                    expected_ticks_per_drop: (ONE_HOUR * 2) as u64,
                }),
                Item::GoldenRing => Some(ItemProbability {
                    starting_from_tick: 0,
                    expected_ticks_per_drop: (ONE_HOUR * 6) as u64,
                }),
                _ => None,
            },
            Occupation::Fighting => match self {
                Item::Wolf => Some(ItemProbability {
                    starting_from_tick: 0,
                    expected_ticks_per_drop: ONE_DAY,
                }),
                Item::TigerFang => Some(ItemProbability {
                    starting_from_tick: 0,
                    expected_ticks_per_drop: ONE_DAY,
                }),
                Item::BearClaw => Some(ItemProbability {
                    starting_from_tick: 0,
                    expected_ticks_per_drop: ONE_DAY,
                }),
                Item::RhinoHorn => Some(ItemProbability {
                    starting_from_tick: 0,
                    expected_ticks_per_drop: ONE_DAY,
                }),
                _ => None,
            },
            Occupation::Exploring => match self {
                Item::Cat => Some(ItemProbability {
                    starting_from_tick: 0,
                    expected_ticks_per_drop: (ONE_DAY * 7) as u64,
                }),
                Item::Parrot => Some(ItemProbability {
                    starting_from_tick: 0,
                    expected_ticks_per_drop: ONE_DAY,
                }),
                Item::Bird => Some(ItemProbability {
                    starting_from_tick: 0,
                    expected_ticks_per_drop: ONE_DAY,
                }),
                Item::Donkey => Some(ItemProbability {
                    starting_from_tick: 0,
                    expected_ticks_per_drop: ONE_DAY,
                }),
                Item::Horse => Some(ItemProbability {
                    starting_from_tick: 0,
                    expected_ticks_per_drop: ONE_DAY,
                }),
                _ => None,
            },
            Occupation::Farming => match self {
                Item::Milk => Some(ItemProbability {
                    starting_from_tick: 0,
                    expected_ticks_per_drop: (ONE_MINUTE * 5) as u64,
                }),
                Item::Egg => Some(ItemProbability {
                    starting_from_tick: 0,
                    expected_ticks_per_drop: (ONE_MINUTE * 5) as u64,
                }),
                Item::Wheat => Some(ItemProbability {
                    starting_from_tick: ONE_HOUR,
                    expected_ticks_per_drop: (ONE_MINUTE * 10) as u64,
                }),
                Item::Potato => Some(ItemProbability {
                    starting_from_tick: (ONE_HOUR * 3) as u64,
                    expected_ticks_per_drop: (ONE_MINUTE * 10) as u64,
                }),
                Item::Carrot => Some(ItemProbability {
                    starting_from_tick: (ONE_HOUR * 3) as u64,
                    expected_ticks_per_drop: (ONE_MINUTE * 10) as u64,
                }),
                _ => None,
            },
            Occupation::Idling => None,
        }
    }

    /// When `occupation` yields the item, and how often.
    pub fn item_probability(self, occupation: Occupation) -> (r: Option<ItemProbability>)
        ensures
            r == self.drop_param(occupation),
    {
        match occupation {
            Occupation::Mining => match self {
                Item::Stone => Some(ItemProbability {
                    starting_from_tick: 0,
                    expected_ticks_per_drop: ONE_MINUTE / 2,
                }),
                Item::IronOre => Some(ItemProbability {
                    starting_from_tick: ONE_MINUTE * 3,
                    expected_ticks_per_drop: ONE_MINUTE * 3,
                }),
                Item::Coal => Some(ItemProbability {
                    starting_from_tick: ONE_MINUTE * 2,
                    expected_ticks_per_drop: ONE_MINUTE * 2,
                }),
                Item::Sulfur => Some(ItemProbability {
                    starting_from_tick: ONE_HOUR,
                    expected_ticks_per_drop: ONE_HOUR,
                }),
                Item::GoldOre => Some(ItemProbability {
                    starting_from_tick: ONE_HOUR * 2,
                    expected_ticks_per_drop: ONE_HOUR * 2,
                }),
                _ => None,
            },
            Occupation::Rockhounding => match self {
                Item::Fluorite => Some(ItemProbability {
                    starting_from_tick: 0,
                    expected_ticks_per_drop: ONE_DAY,
                }),
                Item::Agate => Some(ItemProbability {
                    starting_from_tick: 0,
                    expected_ticks_per_drop: ONE_DAY,
                }),
                Item::Sodalite => Some(ItemProbability {
                    starting_from_tick: 0,
                    expected_ticks_per_drop: ONE_DAY,
                }),
                Item::Ruby => Some(ItemProbability {
                    starting_from_tick: 0,
                    expected_ticks_per_drop: ONE_DAY,
                }),
                Item::Selenite => Some(ItemProbability {
                    starting_from_tick: 0,
                    expected_ticks_per_drop: ONE_DAY,
                }),
                Item::Diamond => Some(ItemProbability {
                    starting_from_tick: 0,
                    expected_ticks_per_drop: ONE_DAY,
                }),
                _ => None,
            },
            Occupation::Logging => match self {
                Item::Wood => Some(ItemProbability {
                    starting_from_tick: 0,
                    expected_ticks_per_drop: ONE_MINUTE / 2,
                }),
                Item::Apple => Some(ItemProbability {
                    starting_from_tick: 0,
                    expected_ticks_per_drop: ONE_MINUTE * 5,
                }),
                Item::Parrot => Some(ItemProbability {
                    starting_from_tick: 0,
                    expected_ticks_per_drop: ONE_DAY,
                }),
                Item::Bird => Some(ItemProbability {
                    starting_from_tick: 0,
                    expected_ticks_per_drop: ONE_DAY,
                }),
                _ => None,
            },
            Occupation::Hunting => match self {
                Item::RawMeat => Some(ItemProbability {
                    starting_from_tick: 0,
                    expected_ticks_per_drop: ONE_MINUTE * 5,
                }),
                Item::Leather => Some(ItemProbability {
                    starting_from_tick: 0,
                    expected_ticks_per_drop: ONE_MINUTE * 5,
                }),
                Item::Bone => Some(ItemProbability {
                    starting_from_tick: 0,
                    expected_ticks_per_drop: ONE_MINUTE * 10,
                }),
                _ => None,
            },
            Occupation::Gathering => match self {
                Item::Blueberry => Some(ItemProbability {
                    starting_from_tick: 0,
                    expected_ticks_per_drop: ONE_MINUTE,
                }),
                Item::Apple => Some(ItemProbability {
                    starting_from_tick: 0,
                    expected_ticks_per_drop: ONE_MINUTE * 2,
                }),
                Item::Hemp => Some(ItemProbability {
                    starting_from_tick: 0,
                    expected_ticks_per_drop: ONE_MINUTE * 3,
                }),
                _ => None,
            },
            Occupation::Fishing => match self {
                Item::RawFish => Some(ItemProbability {
                    starting_from_tick: 0,
                    expected_ticks_per_drop: ONE_MINUTE * 5,
                }),
                Item::PufferFish => Some(ItemProbability {
                    starting_from_tick: 0,
                    expected_ticks_per_drop: ONE_HOUR,
                }),
                Item::Boots => Some(ItemProbability {
                    starting_from_tick: 0,
                    expected_ticks_per_drop: ONE_HOUR * 2,
                }),
                Item::Gloves => Some(ItemProbability {
                    starting_from_tick: 0,
                    expected_ticks_per_drop: ONE_HOUR * 2,
                }),
                Item::GoldenRing => Some(ItemProbability {
                    starting_from_tick: 0,
                    expected_ticks_per_drop: ONE_HOUR * 6,
                }),
                _ => None,
            },
            Occupation::Fighting => match self {
                Item::Wolf => Some(ItemProbability {
                    starting_from_tick: 0,
                    expected_ticks_per_drop: ONE_DAY,
                }),
                Item::TigerFang => Some(ItemProbability {
                    starting_from_tick: 0,
                    expected_ticks_per_drop: ONE_DAY,
                }),
                Item::BearClaw => Some(ItemProbability {
                    starting_from_tick: 0,
                    expected_ticks_per_drop: ONE_DAY,
                }),
                Item::RhinoHorn => Some(ItemProbability {
                    starting_from_tick: 0,
                    expected_ticks_per_drop: ONE_DAY,
                }),
                _ => None,
            },
            Occupation::Exploring => match self {
                Item::Cat => Some(ItemProbability {
                    starting_from_tick: 0,
                    expected_ticks_per_drop: ONE_DAY * 7,
                }),
                Item::Parrot => Some(ItemProbability {
                    starting_from_tick: 0,
                    expected_ticks_per_drop: ONE_DAY,
                }),
                Item::Bird => Some(ItemProbability {
                    starting_from_tick: 0,
                    expected_ticks_per_drop: ONE_DAY,
                }),
                Item::Donkey => Some(ItemProbability {
                    starting_from_tick: 0,
                    expected_ticks_per_drop: ONE_DAY,
                }),
                Item::Horse => Some(ItemProbability {
                    starting_from_tick: 0,
                    expected_ticks_per_drop: ONE_DAY,
                }),
                _ => None,
            },
            Occupation::Farming => match self {
                Item::Milk => Some(ItemProbability {
                    starting_from_tick: 0,
                    expected_ticks_per_drop: ONE_MINUTE * 5,
                }),
                Item::Egg => Some(ItemProbability {
                    starting_from_tick: 0,
                    expected_ticks_per_drop: ONE_MINUTE * 5,
                }),
                Item::Wheat => Some(ItemProbability {
                    starting_from_tick: ONE_HOUR,
                    expected_ticks_per_drop: ONE_MINUTE * 10,
                }),
                Item::Potato => Some(ItemProbability {
                    starting_from_tick: ONE_HOUR * 3,
                    expected_ticks_per_drop: ONE_MINUTE * 10,
                }),
                Item::Carrot => Some(ItemProbability {
                    starting_from_tick: ONE_HOUR * 3,
                    expected_ticks_per_drop: ONE_MINUTE * 10,
                }),
                _ => None,
            },
            Occupation::Idling => None,
        }
    }
}

} // verus!
