//! The definitions as they stand in the definition files.

use vstd::prelude::*;

verus! {

/// A single-precision number, carried as its IEEE-754 bit pattern.
///
/// The catalog hands such numbers from a definition to the entity that is
/// made from it and never computes with them.
#[derive(Clone, Copy, Debug, PartialEq, Eq, Structural)]
pub struct Real {
    pub bits: u32,
}

impl Real {
    /// Zero.
    pub fn zero() -> (r: Real)
        ensures
            r == (Real { bits: 0 }),
    {
        Real { bits: 0 }
    }

    /// The number with the bit pattern `bits`.
    pub fn from_bits(bits: u32) -> (r: Real)
        ensures
            r == (Real { bits }),
    {
        Real { bits }
    }

    /// The bit pattern of the number.
    pub fn to_bits(&self) -> (bits: u32)
        ensures
            bits == self.bits,
    {
        self.bits
    }
}

/// A faction's disposition toward another.
#[derive(Clone, Copy, Debug, PartialEq, Eq, Structural)]
pub enum Reaction {
    Ignore,
    Flee,
    Attack,
}

/// How an entity is drawn.
#[derive(Clone, Debug)]
pub struct Renderable {
    pub glyph: String,
    pub fg: String,
    pub bg: String,
    pub order: i32,
    pub x_size: Option<i32>,
    pub y_size: Option<i32>,
}

/// What makes an item something that is used up: its effects and how often it
/// can be used.
#[derive(Clone, Debug)]
pub struct Consumable {
    pub effects: Vec<(String, String)>,
    pub charges: Option<i32>,
}

/// What makes an item a weapon.
#[derive(Clone, Debug)]
pub struct Weapon {
    pub range: String,
    pub attribute: String,
    pub base_damage: String,
    pub hit_bonus: i32,
    pub proc_chance: Option<Real>,
    pub proc_target: Option<String>,
    pub proc_effects: Option<Vec<(String, String)>>,
}

/// What makes an item something to wear.
#[derive(Clone, Debug)]
pub struct Wearable {
    pub armor_class: Real,
    pub slot: String,
}

/// What makes an item magic: its class, the category by which it is named until
/// it is identified, and whether it is cursed.
#[derive(Clone, Debug)]
pub struct MagicItem {
    pub class: String,
    pub naming: String,
    pub cursed: Option<bool>,
}

/// What an item adds to the attributes of its bearer.
#[derive(Clone, Copy, Debug, PartialEq, Eq, Structural)]
pub struct ItemAttributeBonus {
    pub might: Option<i32>,
    pub fitness: Option<i32>,
    pub quickness: Option<i32>,
    pub intelligence: Option<i32>,
}

/// The definition of an item.
#[derive(Clone, Debug)]
pub struct Item {
    pub name: String,
    pub renderable: Option<Renderable>,
    pub consumable: Option<Consumable>,
    pub weapon: Option<Weapon>,
    pub wearable: Option<Wearable>,
    pub initiative_penalty: Option<Real>,
    pub weight_lbs: Option<Real>,
    pub base_value: Option<Real>,
    pub vendor_category: Option<String>,
    pub magic: Option<MagicItem>,
    pub attributes: Option<ItemAttributeBonus>,
}

/// The attributes that a mob definition sets; the others have the baseline.
#[derive(Clone, Copy, Debug, PartialEq, Eq, Structural)]
pub struct MobAttributes {
    pub might: Option<i32>,
    pub fitness: Option<i32>,
    pub quickness: Option<i32>,
    pub intelligence: Option<i32>,
}

/// The definition of a natural attack, with its damage as a dice expression.
#[derive(Clone, Debug)]
pub struct MobAttack {
    pub name: String,
    pub hit_bonus: i32,
    pub damage: String,
}

/// What a mob has by nature: armour and attacks.
#[derive(Clone, Debug)]
pub struct MobNatural {
    pub armor_class: Option<i32>,
    pub attacks: Option<Vec<MobAttack>>,
}

/// A light of a range and a colour.
#[derive(Clone, Debug)]
pub struct MobLight {
    pub range: i32,
    pub color: String,
}

/// The definition of an ability: the spell, the chance of its use and the
/// range.
#[derive(Clone, Debug)]
pub struct MobAbility {
    pub spell: String,
    pub chance: Real,
    pub range: Real,
    pub min_range: Real,
}

/// The definition of a mob.
#[derive(Clone, Debug)]
pub struct Mob {
    pub name: String,
    pub renderable: Option<Renderable>,
    pub blocks_tile: bool,
    pub vision_range: i32,
    pub movement: String,
    pub quips: Option<Vec<String>>,
    pub attributes: MobAttributes,
    pub skills: Option<Vec<(String, i32)>>,
    pub level: Option<i32>,
    pub equipped: Option<Vec<String>>,
    pub natural: Option<MobNatural>,
    pub loot_table: Option<String>,
    pub light: Option<MobLight>,
    pub faction: Option<String>,
    pub gold: Option<String>,
    pub vendor: Option<Vec<String>>,
    pub abilities: Option<Vec<MobAbility>>,
    pub on_death: Option<Vec<MobAbility>>,
}

/// What happens to whoever steps on a prop.
#[derive(Clone, Debug)]
pub struct EntryTrigger {
    pub effects: Vec<(String, String)>,
}

/// The definition of a prop.
#[derive(Clone, Debug)]
pub struct Prop {
    pub name: String,
    pub renderable: Option<Renderable>,
    pub hidden: Option<bool>,
    pub blocks_visibility: Option<bool>,
    pub door_open: Option<bool>,
    pub entry_trigger: Option<EntryTrigger>,
    pub light: Option<MobLight>,
}

/// The definition of a spell.
#[derive(Clone, Debug)]
pub struct Spell {
    pub name: String,
    pub mana_cost: i32,
    pub effects: Vec<(String, String)>,
}

/// One row of the spawn table: a key that may be spawned on the depths from
/// `min_depth` to `max_depth`, with a weight that grows with the depth where
/// `add_map_depth_to_weight` says yes. A row that leaves the flag out, or
/// says no, keeps its weight on every depth.
#[derive(Clone, Debug)]
pub struct SpawnTableEntry {
    pub name: String,
    pub weight: i32,
    pub min_depth: i32,
    pub max_depth: i32,
    pub add_map_depth_to_weight: Option<bool>,
}

/// One thing that a loot table may drop, with its weight.
#[derive(Clone, Debug)]
pub struct LootDrop {
    pub name: String,
    pub weight: i32,
}

/// A named table of drops.
#[derive(Clone, Debug)]
pub struct LootTable {
    pub name: String,
    pub drops: Vec<LootDrop>,
}

/// The definition of a faction: how it responds to other factions.
#[derive(Clone, Debug)]
pub struct FactionInfo {
    pub name: String,
    pub responses: Vec<(String, Reaction)>,
}

/// The definition of a weapon trait.
#[derive(Clone, Debug)]
pub struct WeaponTrait {
    pub name: String,
    pub effects: Vec<(String, String)>,
}

/// A definition that is found by its name.
pub trait Named {
    spec fn spec_name(&self) -> String;

    fn name(&self) -> (r: &String)
        ensures
            *r == self.spec_name(),
    ;
}

/// A definition of something that can stand on the map: it has a name and
/// may have a look.
pub trait BaseRawComponent: Named {
    spec fn spec_renderable(&self) -> Option<Renderable>;

    fn renderable(&self) -> (r: &Option<Renderable>)
        ensures
            *r == self.spec_renderable(),
    ;
}

impl Named for Item {
    open spec fn spec_name(&self) -> String {
        self.name
    }

    fn name(&self) -> &String {
        &self.name
    }
}

impl BaseRawComponent for Item {
    open spec fn spec_renderable(&self) -> Option<Renderable> {
        self.renderable
    }

    fn renderable(&self) -> &Option<Renderable> {
        &self.renderable
    }
}

impl Named for Mob {
    open spec fn spec_name(&self) -> String {
        self.name
    }

    fn name(&self) -> &String {
        &self.name
    }
}

impl BaseRawComponent for Mob {
    open spec fn spec_renderable(&self) -> Option<Renderable> {
        self.renderable
    }

    fn renderable(&self) -> &Option<Renderable> {
        &self.renderable
    }
}

impl Named for Prop {
    open spec fn spec_name(&self) -> String {
        self.name
    }

    fn name(&self) -> &String {
        &self.name
    }
}

impl BaseRawComponent for Prop {
    open spec fn spec_renderable(&self) -> Option<Renderable> {
        self.renderable
    }

    fn renderable(&self) -> &Option<Renderable> {
        &self.renderable
    }
}

impl Named for LootTable {
    open spec fn spec_name(&self) -> String {
        self.name
    }

    fn name(&self) -> &String {
        &self.name
    }
}

impl Named for Spell {
    open spec fn spec_name(&self) -> String {
        self.name
    }

    fn name(&self) -> &String {
        &self.name
    }
}

impl Named for FactionInfo {
    open spec fn spec_name(&self) -> String {
        self.name
    }

    fn name(&self) -> &String {
        &self.name
    }
}

/// The names of a list of definitions, position by position.
pub open spec fn names_of<T: Named>(list: Seq<T>) -> Seq<Seq<char>> {
    list.map_values(|t: T| t.spec_name()@)
}

} // verus!
