//! The definitions document and the catalog that is made of it.

use vstd::prelude::*;

pub mod rawmaster;
pub mod structs;

use structs::{FactionInfo, Item, LootTable, Mob, Prop, SpawnTableEntry, Spell, WeaponTrait};

verus! {

/// The definitions document: eight named collections, each in the order in
/// which it was written.
#[derive(Clone, Debug)]
pub struct Raws {
    pub items: Vec<Item>,
    pub mobs: Vec<Mob>,
    pub props: Vec<Prop>,
    pub spawn_table: Vec<SpawnTableEntry>,
    pub loot_tables: Vec<LootTable>,
    pub faction_table: Vec<FactionInfo>,
    pub spells: Vec<Spell>,
    pub weapon_traits: Vec<WeaponTrait>,
}

} // verus!
