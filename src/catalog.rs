use vstd::prelude::*;
use crate::attributes::ItemType;
use crate::engine::{recipe_view, CatalogError, CraftingGraph, Valuation};
use crate::graph::{
    lemma_depth_zero_iff_uncraftable, lemma_rarity_positive, lemma_tables_unique, GraphModel,
};
use crate::items::{all_occupations, occupations, Item, Occupation, ITEM_COUNT};
use crate::rarity::{tier_of, ItemRarity};

verus! {

/// Rarity numbers per unit of money.
pub const MONEY_DIVISOR: u64 = 2000;

/// Rarity numbers per unit of nutrition, before the depth multiplier.
pub const NUTRITION_DIVISOR: u64 = 100;

/// A recipe with each item replaced by its catalog position.
pub open spec fn indexed(b: Seq<(Item, u64)>) -> Seq<(usize, u64)> {
    b.map_values(|e: (Item, u64)| (e.0.index_spec() as usize, e.1))
}

/// The item's recipe with catalog positions for items.
pub open spec fn indexed_recipe(item: Item) -> Option<Seq<(usize, u64)>> {
    match item.recipe() {
        Some(b) => Some(indexed(b)),
        None => None,
    }
}

/// The expected ticks per drop of each occupation in `occs` that yields `item`.
pub open spec fn intervals_in(item: Item, occs: Seq<Occupation>) -> Seq<u64>
    decreases occs.len(),
{
    if occs.len() == 0 {
        Seq::empty()
    } else {
        let rest = intervals_in(item, occs.drop_last());
        match item.drop_param(occs.last()) {
            Some(p) => rest.push(p.expected_ticks_per_drop),
            None => rest,
        }
    }
}

/// The expected ticks per drop of every occupation that yields `item`.
pub open spec fn drop_intervals(item: Item) -> Seq<u64> {
    intervals_in(item, occupations())
}

/// The catalog's crafting graph, items numbered in catalog order.
pub open spec fn item_graph() -> GraphModel {
    GraphModel {
        recipes: Seq::new(ITEM_COUNT as nat, |i: int| indexed_recipe(Item::at(i as usize))),
        drops: Seq::new(ITEM_COUNT as nat, |i: int| drop_intervals(Item::at(i as usize))),
    }
}

/// Nutrition from a rarity number and a crafting depth: the division comes
/// before the multiplication, and the result is at least one.
pub open spec fn nutrition(rarity: nat, depth: nat) -> nat {
    let n = (rarity / NUTRITION_DIVISOR as nat) * (depth + 1);
    if n >= 1 {
        n
    } else {
        1
    }
}

/// The price that goes with a rarity number.
pub fn money_from_rarity(rarity: u64) -> (r: u64)
    ensures
        r == rarity / MONEY_DIVISOR,
{
    rarity / MONEY_DIVISOR
}

/// The nutritional value that goes with a rarity number and a crafting depth.
pub fn nutrition_from(rarity: u64, depth: u64) -> (r: u64)
    requires
        depth < ITEM_COUNT,
    ensures
        r == nutrition(rarity as nat, depth as nat),
{
    let base = rarity / NUTRITION_DIVISOR;
    assert(base * (depth + 1) <= u64::MAX) by (nonlinear_arith)
        requires
            base == rarity / 100,
            depth < 98,
    ;
    let n = base * (depth + 1);
    if n >= 1 {
        n
    } else {
        1
    }
}

/// A level for each item that lies above the levels of all its ingredients.
spec fn level(item: Item) -> nat {
    match item {
        Item::Coal => 1,
        Item::Iron => 2,
        Item::Nail => 3,
        Item::Chain => 3,
        Item::ChainMail => 4,
        Item::Bow => 2,
        Item::CookedMeat => 2,
        Item::CookedFish => 2,
        Item::Poison => 1,
        Item::PoisonedBow => 3,
        Item::String => 1,
        Item::LeatherArmor => 2,
        Item::Sword => 3,
        Item::Longsword => 3,
        Item::Spear => 3,
        Item::PoisonedSpear => 4,
        Item::Dragon => 2,
        Item::Bread => 2,
        Item::Flour => 1,
        Item::BlueberryCake => 2,
        Item::BakedPotato => 2,
        Item::Soup => 1,
        Item::Crossbow => 4,
        Item::Pickaxe => 3,
        Item::Axe => 3,
        Item::Pitchfork => 3,
        Item::ApplePie => 2,
        Item::BlackPowder => 2,
        Item::Musket => 3,
        Item::Dynamite => 3,
        Item::Fabric => 2,
        Item::Backpack => 2,
        Item::Helmet => 3,
        Item::PaperMap => 3,
        Item::FishingHat => 3,
        Item::FishingRod => 3,
        Item::Overall => 3,
        Item::Boots => 2,
        Item::Wheel => 4,
        Item::Wheelbarrow => 5,
        Item::Plough => 5,
        Item::Lantern => 3,
        Item::Gold => 2,
        Item::GoldenRing => 3,
        Item::RingOfIntelligence => 4,
        Item::RingOfStrength => 4,
        Item::RingOfPerception => 4,
        Item::RingOfEndurance => 4,
        Item::RingOfAgility => 4,
        Item::CrystalNecklace => 2,
        Item::Dagger => 3,
        Item::TigerFangDagger => 4,
        Item::RhinoHornHelmet => 4,
        Item::Gloves => 2,
        Item::BearClawGloves => 3,
        Item::BearClawBoots => 3,
        Item::FishingNet => 3,
        Item::Bag => 3,
        Item::Headlamp => 4,
        Item::DiamondAxe => 4,
        Item::DiamondPickaxe => 4,
        Item::DiamondSword => 4,
        Item::RhinoHornPants => 3,
        Item::DynamiteCrossbow => 5,
        _ => 0,
    }
}

proof fn lemma_levels_rise(item: Item)
    ensures
        match item.recipe() {
            Some(b) => forall|k: int| 0 <= k < b.len() ==> level((#[trigger] b[k]).0) < level(item),
            None => true,
        },
{
}

proof fn lemma_drop_interval_positive(item: Item, occupation: Occupation)
    ensures
        match item.drop_param(occupation) {
            Some(p) => p.expected_ticks_per_drop > 0,
            None => true,
        },
{
}

proof fn lemma_intervals_positive(item: Item, occs: Seq<Occupation>)
    ensures
        forall|k: int| 0 <= k < intervals_in(item, occs).len() ==> #[trigger] intervals_in(item, occs)[k] > 0,
    decreases occs.len(),
{
    if occs.len() > 0 {
        let rest = intervals_in(item, occs.drop_last());
        lemma_intervals_positive(item, occs.drop_last());
        lemma_drop_interval_positive(item, occs.last());
        assert forall|k: int| 0 <= k < intervals_in(item, occs).len() implies #[trigger] intervals_in(
            item,
            occs,
        )[k] > 0 by {
            if k < rest.len() {
                assert(rest[k] > 0);
            }
        }
    }
}

/// The catalog's crafting graph is well formed.
pub proof fn lemma_item_graph_wf()
    ensures
        item_graph().wf(),
{
    let g = item_graph();
    assert forall|i: int, k: int| 0 <= i < g.len() && 0 <= k < g.drops[i].len() implies #[trigger] g.drops[i][k]
        > 0 by {
        lemma_intervals_positive(Item::at(i as usize), occupations());
    }
    assert forall|i: int| 0 <= i < g.len() && #[trigger] g.craftable(i) implies g.ingredients(i).len() > 0 by {
        Item::at(i as usize).lemma_recipe_well_formed();
    }
    assert forall|i: int, k: int| 0 <= i < g.len() && 0 <= k < g.ingredients(i).len() implies {
        &&& (#[trigger] g.ingredients(i)[k]).0 < g.len()
        &&& g.ingredients(i)[k].1 > 0
    } by {
        let item = Item::at(i as usize);
        item.lemma_recipe_well_formed();
        let b = item.recipe()->Some_0;
        lemma_at_index(b[k].0);
    }
}

/// No item of the catalog requires itself, directly or through other recipes.
pub proof fn lemma_item_graph_acyclic()
    ensures
        item_graph().acyclic(),
{
    let g = item_graph();
    let rank = Seq::new(ITEM_COUNT as nat, |i: int| level(Item::at(i as usize)));
    assert forall|i: int, k: int| 0 <= i < g.len() && 0 <= k < g.ingredients(i).len() implies rank[(
    #[trigger] g.ingredients(i)[k]).0 as int] < rank[i] by {
        let item = Item::at(i as usize);
        lemma_levels_rise(item);
        let b = item.recipe()->Some_0;
        lemma_at_index(b[k].0);
    }
    assert(g.is_ranking(rank));
}

proof fn lemma_at_index(item: Item)
    ensures
        Item::at(item.index_spec() as usize) == item,
        item.index_spec() < ITEM_COUNT,
{
}

fn item_recipe(item: Item) -> (r: Option<Vec<(usize, u64)>>)
    ensures
        recipe_view(r) == indexed_recipe(item),
{
    match item.requirements() {
        None => None,
        Some(b) => {
            let mut v: Vec<(usize, u64)> = Vec::new();
            let mut k: usize = 0;
            while k < b.len()
                invariant
                    k <= b@.len(),
                    v@ =~= indexed(b@.take(k as int)),
                decreases b@.len() - k,
            {
                let (it, q) = b.entry(k);
                v.push((it.index(), q));
                k = k + 1;
                assert(v@ =~= indexed(b@.take(k as int)));
            }
            assert(b@.take(k as int) =~= b@);
            Some(v)
        },
    }
}

fn item_intervals(item: Item) -> (r: Vec<u64>)
    ensures
        r@ == drop_intervals(item),
{
    let occs = all_occupations();
    let mut v: Vec<u64> = Vec::new();
    let mut k: usize = 0;
    while k < occs.len()
        invariant
            occs@ == occupations(),
            k <= occs@.len(),
            v@ == intervals_in(item, occs@.take(k as int)),
        decreases occs@.len() - k,
    {
        assert(occs@.take(k + 1).drop_last() =~= occs@.take(k as int));
        match item.item_probability(occs[k]) {
            Some(p) => v.push(p.expected_ticks_per_drop),
            None => {},
        }
        k = k + 1;
    }
    assert(occs@.take(k as int) =~= occs@);
    v
}

fn build_item_graph() -> (r: CraftingGraph)
    ensures
        r@ == item_graph(),
{
    let mut recipes: Vec<Option<Vec<(usize, u64)>>> = Vec::new();
    let mut drops: Vec<Vec<u64>> = Vec::new();
    let mut i: usize = 0;
    while i < ITEM_COUNT
        invariant
            i <= ITEM_COUNT,
            recipes@.len() == i,
            drops@.len() == i,
            forall|j: int|
                0 <= j < i ==> recipe_view(#[trigger] recipes@[j]) == indexed_recipe(
                    Item::at(j as usize),
                ),
            forall|j: int| 0 <= j < i ==> (#[trigger] drops@[j])@ == drop_intervals(Item::at(j as usize)),
        decreases ITEM_COUNT - i,
    {
        let item = Item::from_index(i);
        recipes.push(item_recipe(item));
        drops.push(item_intervals(item));
        i = i + 1;
    }
    let g = CraftingGraph { recipes, drops };
    assert(g@.recipes =~= item_graph().recipes);
    assert(g@.drops =~= item_graph().drops);
    g
}

/// The item catalog, validated, with the crafting depth and rarity number of
/// every item computed once.
pub struct Catalog {
    values: Valuation,
}

impl Catalog {
    #[verifier::type_invariant]
    spec fn inv(self) -> bool {
        &&& self.values.model() == item_graph()
        &&& self.values.valid()
    }

    /// Crafting depth of each item, by catalog position.
    pub closed spec fn depth_table(&self) -> Seq<u64> {
        self.values.depth_table()
    }

    /// Rarity number of each item, by catalog position.
    pub closed spec fn rarity_table(&self) -> Seq<u64> {
        self.values.rarity_table()
    }

    /// The tables are those of the catalog's crafting graph.
    pub open spec fn valid(&self) -> bool {
        &&& item_graph().wf()
        &&& item_graph().acyclic()
        &&& item_graph().is_depth_table(self.depth_table())
        &&& item_graph().is_rarity_table(self.rarity_table())
        &&& forall|i: int| 0 <= i < ITEM_COUNT ==> #[trigger] self.depth_table()[i] < ITEM_COUNT
    }

    /// Validates the catalog (well formed, no crafting cycle, every rarity number
    /// fits in a `u64`) and computes its tables. The catalog is well formed and
    /// acyclic, so the one failure left is a rarity number beyond `u64::MAX`.
    pub fn load() -> (r: Result<Catalog, CatalogError>)
        ensures
            match r {
                Ok(c) => c.valid(),
                Err(e) => e == CatalogError::Overflow && !exists|t: Seq<u64>|
                    item_graph().is_rarity_table(t),
            },
    {
        proof {
            lemma_item_graph_wf();
            lemma_item_graph_acyclic();
        }
        match Valuation::new(build_item_graph()) {
            Ok(values) => Ok(Catalog { values }),
            Err(e) => Err(e),
        }
    }

    fn depth_at(&self, i: usize) -> (r: u64)
        requires
            i < ITEM_COUNT,
        ensures
            r == self.depth_table()[i as int],
            self.valid(),
    {
        proof {
            use_type_invariant(self);
        }
        self.values.depth(i)
    }

    fn rarity_at(&self, i: usize) -> (r: u64)
        requires
            i < ITEM_COUNT,
        ensures
            r == self.rarity_table()[i as int],
            self.valid(),
    {
        proof {
            use_type_invariant(self);
        }
        self.values.rarity(i)
    }
}

impl Item {
    /// Length of the longest chain of recipes that ends at the item.
    pub fn crafting_depth(self, catalog: &Catalog) -> (r: u64)
        ensures
            r == catalog.depth_table()[self.index_spec() as int],
            catalog.valid(),
    {
        catalog.depth_at(self.index())
    }

    /// The item's rarity number: the least of its drop intervals and its
    /// recipe's cost, or the no-source value when it has neither.
    pub fn item_rarity_num(self, catalog: &Catalog) -> (r: u64)
        ensures
            r == catalog.rarity_table()[self.index_spec() as int],
            catalog.valid(),
    {
        catalog.rarity_at(self.index())
    }

    /// The tier of the item's rarity number.
    pub fn item_rarity(self, catalog: &Catalog) -> (r: ItemRarity)
        ensures
            r == tier_of(catalog.rarity_table()[self.index_spec() as int] as nat),
    {
        ItemRarity::from_rarity_num(self.item_rarity_num(catalog))
    }

    /// The item's price: its rarity number divided by the money divisor, rounded down.
    pub fn money_value(self, catalog: &Catalog) -> (r: u64)
        ensures
            r == catalog.rarity_table()[self.index_spec() as int] / MONEY_DIVISOR,
    {
        money_from_rarity(self.item_rarity_num(catalog))
    }

    /// What eating the item is worth; only food has a nutritional value.
    pub fn nutritional_value(self, catalog: &Catalog) -> (r: Option<u64>)
        ensures
            r == (if self.kind() == Some(ItemType::Food) {
                Some(
                    nutrition(
                        catalog.rarity_table()[self.index_spec() as int] as nat,
                        catalog.depth_table()[self.index_spec() as int] as nat,
                    ) as u64,
                )
            } else {
                None
            }),
    {
        match self.item_type() {
            Some(ItemType::Food) => {
                let depth = self.crafting_depth(catalog);
                assert(depth < ITEM_COUNT);
                Some(nutrition_from(self.item_rarity_num(catalog), depth))
            },
            _ => None,
        }
    }
}


/// An item's crafting depth is zero exactly when it has no recipe.
pub proof fn lemma_item_depth_zero_iff_no_recipe(catalog: &Catalog, item: Item)
    requires
        catalog.valid(),
    ensures
        catalog.depth_table()[item.index_spec() as int] == 0 <==> item.recipe() is None,
{
    lemma_at_index(item);
    lemma_depth_zero_iff_uncraftable(item_graph(), catalog.depth_table(), item.index_spec() as int);
}

/// Every item's rarity number is at least one.
pub proof fn lemma_item_rarity_positive(catalog: &Catalog, item: Item)
    requires
        catalog.valid(),
    ensures
        catalog.rarity_table()[item.index_spec() as int] >= 1,
{
    lemma_at_index(item);
    lemma_rarity_positive(item_graph(), catalog.rarity_table(), item.index_spec() as int);
}

/// Two loads of the catalog give the same crafting depths and rarity numbers,
/// whatever was computed in between.
pub proof fn lemma_catalog_deterministic(c1: &Catalog, c2: &Catalog)
    requires
        c1.valid(),
        c2.valid(),
    ensures
        c1.depth_table() == c2.depth_table(),
        c1.rarity_table() == c2.rarity_table(),
{
    lemma_tables_unique(item_graph(), true, c1.depth_table(), c2.depth_table());
    lemma_tables_unique(item_graph(), false, c1.rarity_table(), c2.rarity_table());
}

} // verus!
