use item_catalog::{
    all_occupations, Catalog, Item, ItemProbability, ItemRarity, ItemType, Occupation, Stats,
    ITEM_COUNT, ONE_DAY,
};

fn zero() -> Stats {
    Stats { strength: 0, endurance: 0, agility: 0, intelligence: 0, perception: 0 }
}

#[test]
fn catalog_loads() {
    assert!(Catalog::load().is_ok());
}

#[test]
fn depth_zero_iff_no_recipe() {
    let c = Catalog::load().unwrap();
    for i in 0..ITEM_COUNT {
        let item = Item::from_index(i);
        assert_eq!(item.crafting_depth(&c) == 0, item.requirements().is_none(), "{:?}", item);
    }
}

#[test]
fn rarity_at_least_one() {
    let c = Catalog::load().unwrap();
    for i in 0..ITEM_COUNT {
        assert!(Item::from_index(i).item_rarity_num(&c) >= 1);
    }
}

#[test]
fn loads_agree() {
    let a = Catalog::load().unwrap();
    let _ = Item::Dragon.item_rarity_num(&a);
    let b = Catalog::load().unwrap();
    for i in (0..ITEM_COUNT).rev() {
        let item = Item::from_index(i);
        assert_eq!(item.item_rarity_num(&a), item.item_rarity_num(&b));
        assert_eq!(item.crafting_depth(&a), item.crafting_depth(&b));
    }
}

#[test]
fn index_round_trip() {
    for i in 0..ITEM_COUNT {
        assert_eq!(Item::from_index(i).index(), i);
    }
    assert_eq!(Item::Wood.index(), 0);
    assert_eq!(Item::DynamiteCrossbow.index(), ITEM_COUNT - 1);
}

#[test]
fn primitive_values() {
    let c = Catalog::load().unwrap();
    assert_eq!(Item::Wood.item_rarity_num(&c), 30);
    assert_eq!(Item::Wood.crafting_depth(&c), 0);
    assert_eq!(Item::Wood.item_rarity(&c), ItemRarity::Common);
    assert_eq!(Item::Diamond.item_rarity_num(&c), ONE_DAY);
    assert_eq!(Item::Diamond.money_value(&c), 43);
}

#[test]
fn recipe_cheaper_than_drop() {
    let c = Catalog::load().unwrap();
    // Coal drops every 120 ticks, but three wood cost 90.
    assert_eq!(Item::Coal.item_rarity_num(&c), 90);
    assert_eq!(Item::Coal.crafting_depth(&c), 1);
}

#[test]
fn crafted_values() {
    let c = Catalog::load().unwrap();
    assert_eq!(Item::Iron.item_rarity_num(&c), 270);
    assert_eq!(Item::Iron.crafting_depth(&c), 2);
    assert_eq!(Item::Iron.item_rarity(&c), ItemRarity::Uncommon);
    assert_eq!(Item::Chain.item_rarity_num(&c), 1530);
    assert_eq!(Item::Chain.item_rarity(&c), ItemRarity::Rare);
    assert_eq!(Item::Chain.money_value(&c), 0);
    assert_eq!(Item::ChainMail.item_rarity_num(&c), 7650);
    assert_eq!(Item::ChainMail.crafting_depth(&c), 4);
    assert_eq!(Item::ChainMail.item_rarity(&c), ItemRarity::Epic);
    assert_eq!(Item::ChainMail.money_value(&c), 3);
}

#[test]
fn unobtainable_ingredient_is_legendary() {
    let c = Catalog::load().unwrap();
    assert_eq!(Item::DragonsEgg.item_rarity_num(&c), 25000);
    assert_eq!(Item::Dragon.item_rarity_num(&c), 34000);
    assert_eq!(Item::Dragon.item_rarity(&c), ItemRarity::Legendary);
    assert_eq!(Item::Dragon.money_value(&c), 17);
}

#[test]
fn food_nutrition() {
    let c = Catalog::load().unwrap();
    assert_eq!(Item::Apple.item_rarity_num(&c), 120);
    assert_eq!(Item::Apple.nutritional_value(&c), Some(1));
    assert_eq!(Item::Blueberry.nutritional_value(&c), Some(1));
    assert_eq!(Item::Bread.item_rarity_num(&c), 5400);
    assert_eq!(Item::Bread.crafting_depth(&c), 2);
    assert_eq!(Item::Bread.nutritional_value(&c), Some(162));
    assert_eq!(Item::Wood.nutritional_value(&c), None);
    assert_eq!(Item::Wheat.nutritional_value(&c), None);
}

#[test]
fn item_types() {
    assert_eq!(Item::Bread.item_type(), Some(ItemType::Food));
    assert_eq!(Item::Cat.item_type(), Some(ItemType::Pet));
    assert_eq!(Item::Sword.item_type(), Some(ItemType::Tool));
    assert_eq!(Item::Helmet.item_type(), Some(ItemType::Clothing));
    assert_eq!(Item::Wood.item_type(), None);
    assert!(ItemType::Tool.equippable());
    assert!(ItemType::Clothing.equippable());
    assert!(ItemType::Pet.equippable());
    assert!(!ItemType::Food.equippable());
    assert_eq!(ItemType::Clothing.name(), "Clothing");
}

#[test]
fn usefulness_table() {
    assert_eq!(Item::Crossbow.usefulness_for(Occupation::Hunting), 7);
    assert_eq!(Item::Crossbow.usefulness_for(Occupation::Fighting), 7);
    assert_eq!(Item::Dragon.usefulness_for(Occupation::Fighting), 10);
    assert_eq!(Item::Helmet.usefulness_for(Occupation::Logging), 4);
    assert_eq!(Item::Helmet.usefulness_for(Occupation::Fighting), 6);
    assert_eq!(Item::Crossbow.usefulness_for(Occupation::Mining), 0);
    assert_eq!(Item::Wood.usefulness_for(Occupation::Logging), 0);
    for i in 0..ITEM_COUNT {
        for o in all_occupations() {
            assert!(Item::from_index(i).usefulness_for(o) <= 10);
        }
        assert_eq!(Item::from_index(i).usefulness_for(Occupation::Idling), 0);
    }
}

#[test]
fn stat_table() {
    assert_eq!(Item::Wood.provides_stats(), zero());
    assert_eq!(Item::LeatherArmor.provides_stats(), zero());
    assert_eq!(Stats::default(), zero());
    assert_eq!(
        Item::ChainMail.provides_stats(),
        Stats { agility: -2, ..zero() }
    );
    assert_eq!(
        Item::CrystalNecklace.provides_stats(),
        Stats { strength: 6, endurance: 6, agility: 6, intelligence: 6, perception: 6 }
    );
    assert_eq!(
        Item::RhinoHornPants.provides_stats(),
        Stats { strength: 8, endurance: 8, intelligence: -4, ..zero() }
    );
}

#[test]
fn drop_parameters() {
    assert_eq!(
        Item::Stone.item_probability(Occupation::Mining),
        Some(ItemProbability { starting_from_tick: 0, expected_ticks_per_drop: 30 })
    );
    assert_eq!(
        Item::Potato.item_probability(Occupation::Farming),
        Some(ItemProbability { starting_from_tick: 10800, expected_ticks_per_drop: 600 })
    );
    assert_eq!(Item::Stone.item_probability(Occupation::Logging), None);
    assert_eq!(Item::Wood.item_probability(Occupation::Idling), None);
    assert_eq!(all_occupations().len(), 10);
}

#[test]
fn recipes() {
    let b = Item::Plough.requirements().unwrap();
    assert_eq!(b.len(), 4);
    assert_eq!(b.entry(0), (Item::Wheel, 2));
    assert_eq!(b.entry(3), (Item::Chain, 5));
    assert!(Item::Wood.requirements().is_none());
    assert_eq!(Item::PaperMap.requirements().unwrap().entry(0), (Item::Fabric, 5));
}

#[test]
fn every_item_has_every_table_entry() {
    let c = Catalog::load().unwrap();
    let mut crafted = 0;
    for i in 0..ITEM_COUNT {
        let item = Item::from_index(i);
        let _ = item.item_type();
        let _ = item.provides_stats();
        if let Some(b) = item.requirements() {
            crafted += 1;
            assert!(b.len() > 0);
            for k in 0..b.len() {
                assert!(b.entry(k).1 > 0);
            }
        }
        for o in all_occupations() {
            if let Some(p) = item.item_probability(o) {
                assert!(p.expected_ticks_per_drop > 0);
            }
        }
        let _ = item.item_rarity(&c);
        let _ = item.money_value(&c);
        assert_eq!(item.nutritional_value(&c).is_some(), item.item_type() == Some(ItemType::Food));
    }
    assert_eq!(crafted, 64);
}
