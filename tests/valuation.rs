use item_catalog::{
    money_from_rarity, nutrition_from, CatalogError, CraftingGraph, ItemRarity, Valuation,
    NO_SOURCE_RARITY,
};

fn graph(recipes: Vec<Option<Vec<(usize, u64)>>>, drops: Vec<Vec<u64>>) -> CraftingGraph {
    CraftingGraph { recipes, drops }
}

#[test]
fn tier_boundaries() {
    assert_eq!(ItemRarity::from_rarity_num(0), ItemRarity::Common);
    assert_eq!(ItemRarity::from_rarity_num(199), ItemRarity::Common);
    assert_eq!(ItemRarity::from_rarity_num(200), ItemRarity::Uncommon);
    assert_eq!(ItemRarity::from_rarity_num(999), ItemRarity::Uncommon);
    assert_eq!(ItemRarity::from_rarity_num(1000), ItemRarity::Rare);
    assert_eq!(ItemRarity::from_rarity_num(4999), ItemRarity::Rare);
    assert_eq!(ItemRarity::from_rarity_num(5000), ItemRarity::Epic);
    assert_eq!(ItemRarity::from_rarity_num(24999), ItemRarity::Epic);
    assert_eq!(ItemRarity::from_rarity_num(25000), ItemRarity::Legendary);
    assert_eq!(ItemRarity::from_rarity_num(u64::MAX), ItemRarity::Legendary);
}

#[test]
fn tier_through_from() {
    assert_eq!(ItemRarity::from(199u64), ItemRarity::Common);
    assert_eq!(ItemRarity::from(1000u64), ItemRarity::Rare);
    assert!(ItemRarity::Common < ItemRarity::Legendary);
}

#[test]
fn money_thresholds() {
    assert_eq!(money_from_rarity(1999), 0);
    assert_eq!(money_from_rarity(2000), 1);
    assert_eq!(money_from_rarity(3999), 1);
    assert_eq!(money_from_rarity(4000), 2);
}

#[test]
fn nutrition_divides_before_multiplying() {
    assert_eq!(nutrition_from(250, 1), 4);
    assert_eq!(nutrition_from(199, 2), 3);
    assert_eq!(nutrition_from(50, 0), 1);
    assert_eq!(nutrition_from(99, 5), 1);
}

#[test]
fn crafted_cost_sums_ingredients() {
    let g = graph(
        vec![None, None, Some(vec![(0, 5), (1, 2)])],
        vec![vec![100], vec![300], vec![]],
    );
    let v = Valuation::new(g).unwrap();
    assert_eq!(v.rarity(0), 100);
    assert_eq!(v.rarity(1), 300);
    assert_eq!(v.rarity(2), 1100);
    assert_eq!(ItemRarity::from_rarity_num(v.rarity(2)), ItemRarity::Rare);
    assert_eq!(v.depth(0), 0);
    assert_eq!(v.depth(2), 1);
    assert_eq!(v.len(), 3);
}

#[test]
fn drop_beats_dearer_recipe() {
    let g = graph(
        vec![None, Some(vec![(0, 10)])],
        vec![vec![50, 40], vec![300, 700]],
    );
    let v = Valuation::new(g).unwrap();
    assert_eq!(v.rarity(0), 40);
    assert_eq!(v.rarity(1), 300);
}

#[test]
fn recipe_beats_rarer_drop() {
    let g = graph(vec![None, Some(vec![(0, 2)])], vec![vec![50], vec![500]]);
    let v = Valuation::new(g).unwrap();
    assert_eq!(v.rarity(1), 100);
}

#[test]
fn no_source_is_sentinel() {
    let g = graph(vec![None], vec![vec![]]);
    let v = Valuation::new(g).unwrap();
    assert_eq!(v.rarity(0), NO_SOURCE_RARITY);
    assert_eq!(v.rarity(0), 25000);
    assert_eq!(v.depth(0), 0);
}

#[test]
fn depth_follows_longest_chain() {
    // 3 <- 2 <- 1 <- 0, and 3 also needs 0 directly; listed out of order.
    let g = graph(
        vec![
            Some(vec![(3, 1), (1, 1)]),
            Some(vec![(2, 1)]),
            Some(vec![(3, 2)]),
            None,
        ],
        vec![vec![], vec![], vec![], vec![7]],
    );
    let v = Valuation::new(g).unwrap();
    assert_eq!(v.depth(3), 0);
    assert_eq!(v.depth(2), 1);
    assert_eq!(v.depth(1), 2);
    assert_eq!(v.depth(0), 3);
    assert_eq!(v.rarity(2), 14);
    assert_eq!(v.rarity(0), 21);
}

#[test]
fn mutual_requirement_is_rejected() {
    let g = graph(
        vec![Some(vec![(1, 1)]), Some(vec![(0, 1)])],
        vec![vec![10], vec![10]],
    );
    assert_eq!(Valuation::new(g).err(), Some(CatalogError::Cycle));
}

#[test]
fn self_requirement_is_rejected() {
    let g = graph(vec![None, Some(vec![(0, 1), (1, 1)])], vec![vec![], vec![]]);
    assert_eq!(Valuation::new(g).err(), Some(CatalogError::Cycle));
}

#[test]
fn unknown_ingredient_is_rejected() {
    let g = graph(vec![Some(vec![(5, 1)])], vec![vec![]]);
    assert_eq!(Valuation::new(g).err(), Some(CatalogError::Malformed));
}

#[test]
fn zero_quantity_is_rejected() {
    let g = graph(vec![None, Some(vec![(0, 0)])], vec![vec![], vec![]]);
    assert_eq!(Valuation::new(g).err(), Some(CatalogError::Malformed));
}

#[test]
fn empty_recipe_is_rejected() {
    let g = graph(vec![Some(vec![])], vec![vec![]]);
    assert_eq!(Valuation::new(g).err(), Some(CatalogError::Malformed));
}

#[test]
fn zero_drop_interval_is_rejected() {
    let g = graph(vec![None], vec![vec![0]]);
    assert_eq!(Valuation::new(g).err(), Some(CatalogError::Malformed));
}

#[test]
fn mismatched_lengths_are_rejected() {
    let g = graph(vec![None, None], vec![vec![]]);
    assert_eq!(Valuation::new(g).err(), Some(CatalogError::Malformed));
}

#[test]
fn unaffordable_recipe_overflows() {
    let g = graph(vec![None, Some(vec![(0, u64::MAX)])], vec![vec![2], vec![]]);
    assert_eq!(Valuation::new(g).err(), Some(CatalogError::Overflow));
}

#[test]
fn overflowing_recipe_with_drop_is_fine() {
    let g = graph(vec![None, Some(vec![(0, u64::MAX)])], vec![vec![2], vec![9]]);
    let v = Valuation::new(g).unwrap();
    assert_eq!(v.rarity(1), 9);
}

#[test]
fn empty_graph_is_valid() {
    let v = Valuation::new(graph(vec![], vec![])).unwrap();
    assert_eq!(v.len(), 0);
}

