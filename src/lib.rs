//! Game-balance valuation of a closed item catalog: crafting depth, rarity,
//! rarity tiers, money and nutrition, with the declarative occupation and
//! stat tables they rest on.

pub mod attributes;
pub mod catalog;
pub mod engine;
pub mod graph;
pub mod items;
pub mod rarity;

pub use attributes::{ItemType, Stats};
pub use catalog::{money_from_rarity, nutrition_from, Catalog, MONEY_DIVISOR, NUTRITION_DIVISOR};
pub use engine::{CatalogError, CraftingGraph, Valuation};
pub use graph::NO_SOURCE_RARITY;
pub use items::{
    all_occupations, Bundle, Item, ItemProbability, Occupation, ITEM_COUNT, ONE_DAY, ONE_HOUR,
    ONE_MINUTE,
};
pub use rarity::ItemRarity;
