//! The components that the factory attaches to entities.

use vstd::prelude::*;
use crate::color::Color;
use crate::raws::structs::Real;

verus! {

/// A handle to an entity of a `World`: its position in the order of creation.
#[derive(Clone, Copy, Debug, PartialEq, Eq, Structural)]
pub struct Entity {
    pub id: usize,
}

/// Where on the body a piece of equipment is worn or held.
#[derive(Clone, Copy, Debug, PartialEq, Eq, Structural)]
pub enum EquipmentSlot {
    Melee,
    Shield,
    Head,
    Torso,
    Legs,
    Feet,
    Hands,
}

/// The attribute whose bonus a weapon uses.
#[derive(Clone, Copy, Debug, PartialEq, Eq, Structural)]
pub enum WeaponAttribute {
    Might,
    Quickness,
}

/// How rare a magic item is.
#[derive(Clone, Copy, Debug, PartialEq, Eq, Structural)]
pub enum MagicItemClass {
    Common,
    Rare,
    Legendary,
}

/// How a mob moves. A mob that walks between waypoints starts without a path.
#[derive(Clone, Copy, Debug, PartialEq, Eq, Structural)]
pub enum Movement {
    Static,
    Random,
    RandomWaypoint,
}

/// One of the four attributes of a creature: its base value, what modifies it
/// at the moment, and the bonus it gives.
#[derive(Clone, Copy, Debug, PartialEq, Eq, Structural)]
pub struct Attribute {
    pub base: i32,
    pub modifiers: i32,
    pub bonus: i32,
}

/// A resource that is used up and restored, such as hit points.
#[derive(Clone, Copy, Debug, PartialEq, Eq, Structural)]
pub struct Pool {
    pub max: i32,
    pub current: i32,
}

/// An attack that a creature has by nature, with its damage dice.
#[derive(Clone, Debug, PartialEq, Eq)]
pub struct NaturalAttack {
    pub name: String,
    pub hit_bonus: i32,
    pub damage_n_dice: i32,
    pub damage_die_type: i32,
    pub damage_bonus: i32,
}

/// A natural attack as a mathematical value.
pub struct NaturalAttackView {
    pub name: Seq<char>,
    pub hit_bonus: i32,
    pub damage_n_dice: i32,
    pub damage_die_type: i32,
    pub damage_bonus: i32,
}

impl View for NaturalAttack {
    type V = NaturalAttackView;

    open spec fn view(&self) -> NaturalAttackView {
        NaturalAttackView {
            name: self.name@,
            hit_bonus: self.hit_bonus,
            damage_n_dice: self.damage_n_dice,
            damage_die_type: self.damage_die_type,
            damage_bonus: self.damage_bonus,
        }
    }
}

/// A spell that a creature may cast, with the chance and the range at which it
/// does.
#[derive(Clone, Debug, PartialEq, Eq)]
pub struct SpecialAbility {
    pub spell: String,
    pub chance: Real,
    pub range: Real,
    pub min_range: Real,
}

/// A special ability as a mathematical value.
pub struct SpecialAbilityView {
    pub spell: Seq<char>,
    pub chance: Real,
    pub range: Real,
    pub min_range: Real,
}

impl View for SpecialAbility {
    type V = SpecialAbilityView;

    open spec fn view(&self) -> SpecialAbilityView {
        SpecialAbilityView {
            spell: self.spell@,
            chance: self.chance,
            range: self.range,
            min_range: self.min_range,
        }
    }
}

/// The characters of an optional text.
pub open spec fn text_view(t: Option<String>) -> Option<Seq<char>> {
    match t {
        Some(s) => Some(s@),
        None => None,
    }
}

/// The characters of each text of a list.
pub open spec fn texts_view(t: Seq<String>) -> Seq<Seq<char>> {
    t.map_values(|s: String| s@)
}

/// One attribute attached to an entity.
#[allow(inconsistent_fields)]
#[derive(Clone, Debug, PartialEq, Eq)]
pub enum Component {
    /// Marks the entity as one that is written to a saved game.
    SerializeMe,
    Position { x: i32, y: i32 },
    InBackpack { owner: Entity },
    Equipped { owner: Entity, slot: EquipmentSlot },
    Renderable {
        glyph: u16,
        fg: Color,
        bg: Color,
        render_order: i32,
    },
    TileSize { x: i32, y: i32 },
    Name { name: String },
    Item {
        initiative_penalty: Real,
        weight_lbs: Real,
        base_value: Real,
    },
    Consumable { max_charges: i32, charges: i32 },
    AreaOfEffect { radius: i32 },
    Confusion,
    Duration { turns: i32 },
    InflictsDamage { damage: i32 },
    DamageOverTime { damage: i32 },
    ProvidesFood,
    ProvidesIdentification,
    MagicMapper,
    /// Holds the lifetime as it was written, a number with a fraction.
    SpawnParticleBurst { glyph: u16, color: Color, lifetime_ms: String },
    /// Holds the lifetime as it was written, a number with a fraction.
    SpawnParticleLine { glyph: u16, color: Color, lifetime_ms: String },
    ProvidesHealing { heal_amount: i32 },
    ProvidesMana { mana_amount: i32 },
    Ranged { range: i32 },
    ProvidesRemoveCurse,
    SingleActivation,
    /// Holds the initiative penalty as it was written, a number with a
    /// fraction.
    Slow { initiative_penalty: String },
    AlwaysTargetsSelf,
    TeachesSpell { spell: String },
    TownPortal,
    Equippable { slot: EquipmentSlot },
    Weapon {
        range: Option<i32>,
        attribute: WeaponAttribute,
        damage_n_dice: i32,
        damage_die_type: i32,
        damage_bonus: i32,
        hit_bonus: i32,
        proc_chance: Option<Real>,
        proc_target: Option<String>,
    },
    Wearable { slot: EquipmentSlot, armor_class: Real },
    MagicItem { class: MagicItemClass },
    ObfuscatedName { name: String },
    CursedItem,
    AttributeBonus {
        might: Option<i32>,
        fitness: Option<i32>,
        quickness: Option<i32>,
        intelligence: Option<i32>,
    },
    MoveMode { mode: Movement },
    BlocksTile,
    /// No tile is visible yet.
    Viewshed { range: i32, dirty: bool },
    Quips { available: Vec<String> },
    NaturalAttackDefense {
        armor_class: Option<i32>,
        attacks: Vec<NaturalAttack>,
    },
    Attributes {
        might: Attribute,
        fitness: Attribute,
        quickness: Attribute,
        intelligence: Attribute,
    },
    Pools {
        level: i32,
        xp: i32,
        hit_points: Pool,
        mana: Pool,
        total_weight: Real,
        total_initiative_penalty: Real,
        gold: i32,
        god_mode: bool,
    },
    Skills {
        melee: i32,
        defense: i32,
        magic: i32,
    },
    LootTable { table: String },
    LightSource { range: i32, color: Color },
    Initiative { current: i32 },
    Faction { name: String },
    EquipmentChanged,
    Vendor { categories: Vec<String> },
    SpecialAbilities { abilities: Vec<SpecialAbility> },
    OnDeath { abilities: Vec<SpecialAbility> },
    Hidden,
    BlocksVisibility,
    Door { open: bool },
    EntryTrigger,
    SpellTemplate { mana_cost: i32 },
}

/// A component as a mathematical value: texts as sequences of characters,
/// lists as sequences.
#[allow(inconsistent_fields)]
pub enum ComponentView {
    SerializeMe,
    Position { x: i32, y: i32 },
    InBackpack { owner: Entity },
    Equipped { owner: Entity, slot: EquipmentSlot },
    Renderable {
        glyph: u16,
        fg: Color,
        bg: Color,
        render_order: i32,
    },
    TileSize { x: i32, y: i32 },
    Name { name: Seq<char> },
    Item {
        initiative_penalty: Real,
        weight_lbs: Real,
        base_value: Real,
    },
    Consumable { max_charges: i32, charges: i32 },
    AreaOfEffect { radius: i32 },
    Confusion,
    Duration { turns: i32 },
    InflictsDamage { damage: i32 },
    DamageOverTime { damage: i32 },
    ProvidesFood,
    ProvidesIdentification,
    MagicMapper,
    SpawnParticleBurst { glyph: u16, color: Color, lifetime_ms: Seq<char> },
    SpawnParticleLine { glyph: u16, color: Color, lifetime_ms: Seq<char> },
    ProvidesHealing { heal_amount: i32 },
    ProvidesMana { mana_amount: i32 },
    Ranged { range: i32 },
    ProvidesRemoveCurse,
    SingleActivation,
    Slow { initiative_penalty: Seq<char> },
    AlwaysTargetsSelf,
    TeachesSpell { spell: Seq<char> },
    TownPortal,
    Equippable { slot: EquipmentSlot },
    Weapon {
        range: Option<i32>,
        attribute: WeaponAttribute,
        damage_n_dice: i32,
        damage_die_type: i32,
        damage_bonus: i32,
        hit_bonus: i32,
        proc_chance: Option<Real>,
        proc_target: Option<Seq<char>>,
    },
    Wearable { slot: EquipmentSlot, armor_class: Real },
    MagicItem { class: MagicItemClass },
    ObfuscatedName { name: Seq<char> },
    CursedItem,
    AttributeBonus {
        might: Option<i32>,
        fitness: Option<i32>,
        quickness: Option<i32>,
        intelligence: Option<i32>,
    },
    MoveMode { mode: Movement },
    BlocksTile,
    Viewshed { range: i32, dirty: bool },
    Quips { available: Seq<Seq<char>> },
    NaturalAttackDefense {
        armor_class: Option<i32>,
        attacks: Seq<NaturalAttackView>,
    },
    Attributes {
        might: Attribute,
        fitness: Attribute,
        quickness: Attribute,
        intelligence: Attribute,
    },
    Pools {
        level: i32,
        xp: i32,
        hit_points: Pool,
        mana: Pool,
        total_weight: Real,
        total_initiative_penalty: Real,
        gold: i32,
        god_mode: bool,
    },
    Skills {
        melee: i32,
        defense: i32,
        magic: i32,
    },
    LootTable { table: Seq<char> },
    LightSource { range: i32, color: Color },
    Initiative { current: i32 },
    Faction { name: Seq<char> },
    EquipmentChanged,
    Vendor { categories: Seq<Seq<char>> },
    SpecialAbilities { abilities: Seq<SpecialAbilityView> },
    OnDeath { abilities: Seq<SpecialAbilityView> },
    Hidden,
    BlocksVisibility,
    Door { open: bool },
    EntryTrigger,
    SpellTemplate { mana_cost: i32 },
}

impl View for Component {
    type V = ComponentView;

    open spec fn view(&self) -> ComponentView {
        match *self {
            Component::SerializeMe => ComponentView::SerializeMe,
            Component::Position { x, y } => ComponentView::Position { x, y },
            Component::InBackpack { owner } => ComponentView::InBackpack { owner },
            Component::Equipped { owner, slot } => ComponentView::Equipped { owner, slot },
            Component::Renderable { glyph, fg, bg, render_order } => ComponentView::Renderable {
                glyph,
                fg,
                bg,
                render_order,
            },
            Component::TileSize { x, y } => ComponentView::TileSize { x, y },
            Component::Name { name } => ComponentView::Name { name: name@ },
            Component::Item { initiative_penalty, weight_lbs, base_value } => ComponentView::Item {
                initiative_penalty,
                weight_lbs,
                base_value,
            },
            Component::Consumable { max_charges, charges } => ComponentView::Consumable {
                max_charges,
                charges,
            },
            Component::AreaOfEffect { radius } => ComponentView::AreaOfEffect { radius },
            Component::Confusion => ComponentView::Confusion,
            Component::Duration { turns } => ComponentView::Duration { turns },
            Component::InflictsDamage { damage } => ComponentView::InflictsDamage { damage },
            Component::DamageOverTime { damage } => ComponentView::DamageOverTime { damage },
            Component::ProvidesFood => ComponentView::ProvidesFood,
            Component::ProvidesIdentification => ComponentView::ProvidesIdentification,
            Component::MagicMapper => ComponentView::MagicMapper,
            Component::SpawnParticleBurst { glyph, color, lifetime_ms } => ComponentView::SpawnParticleBurst {
                glyph,
                color,
                lifetime_ms: lifetime_ms@,
            },
            Component::SpawnParticleLine { glyph, color, lifetime_ms } => ComponentView::SpawnParticleLine {
                glyph,
                color,
                lifetime_ms: lifetime_ms@,
            },
            Component::ProvidesHealing { heal_amount } => ComponentView::ProvidesHealing {
                heal_amount,
            },
            Component::ProvidesMana { mana_amount } => ComponentView::ProvidesMana { mana_amount },
            Component::Ranged { range } => ComponentView::Ranged { range },
            Component::ProvidesRemoveCurse => ComponentView::ProvidesRemoveCurse,
            Component::SingleActivation => ComponentView::SingleActivation,
            Component::Slow { initiative_penalty } => ComponentView::Slow {
                initiative_penalty: initiative_penalty@,
            },
            Component::AlwaysTargetsSelf => ComponentView::AlwaysTargetsSelf,
            Component::TeachesSpell { spell } => ComponentView::TeachesSpell { spell: spell@ },
            Component::TownPortal => ComponentView::TownPortal,
            Component::Equippable { slot } => ComponentView::Equippable { slot },
            Component::Weapon { range, attribute, damage_n_dice, damage_die_type, damage_bonus, hit_bonus, proc_chance, proc_target } => ComponentView::Weapon {
                range,
                attribute,
                damage_n_dice,
                damage_die_type,
                damage_bonus,
                hit_bonus,
                proc_chance,
                proc_target: text_view(proc_target),
            },
            Component::Wearable { slot, armor_class } => ComponentView::Wearable {
                slot,
                armor_class,
            },
            Component::MagicItem { class } => ComponentView::MagicItem { class },
            Component::ObfuscatedName { name } => ComponentView::ObfuscatedName { name: name@ },
            Component::CursedItem => ComponentView::CursedItem,
            Component::AttributeBonus { might, fitness, quickness, intelligence } => ComponentView::AttributeBonus {
                might,
                fitness,
                quickness,
                intelligence,
            },
            Component::MoveMode { mode } => ComponentView::MoveMode { mode },
            Component::BlocksTile => ComponentView::BlocksTile,
            Component::Viewshed { range, dirty } => ComponentView::Viewshed { range, dirty },
            Component::Quips { available } => ComponentView::Quips {
                available: texts_view(available@),
            },
            Component::NaturalAttackDefense { armor_class, attacks } => ComponentView::NaturalAttackDefense {
                armor_class,
                attacks: attacks@.map_values(|a: NaturalAttack| a@),
            },
            Component::Attributes { might, fitness, quickness, intelligence } => ComponentView::Attributes {
                might,
                fitness,
                quickness,
                intelligence,
            },
            Component::Pools { level, xp, hit_points, mana, total_weight, total_initiative_penalty, gold, god_mode } => ComponentView::Pools {
                level,
                xp,
                hit_points,
                mana,
                total_weight,
                total_initiative_penalty,
                gold,
                god_mode,
            },
            Component::Skills { melee, defense, magic } => ComponentView::Skills {
                melee,
                defense,
                magic,
            },
            Component::LootTable { table } => ComponentView::LootTable { table: table@ },
            Component::LightSource { range, color } => ComponentView::LightSource { range, color },
            Component::Initiative { current } => ComponentView::Initiative { current },
            Component::Faction { name } => ComponentView::Faction { name: name@ },
            Component::EquipmentChanged => ComponentView::EquipmentChanged,
            Component::Vendor { categories } => ComponentView::Vendor {
                categories: texts_view(categories@),
            },
            Component::SpecialAbilities { abilities } => ComponentView::SpecialAbilities {
                abilities: abilities@.map_values(|a: SpecialAbility| a@),
            },
            Component::OnDeath { abilities } => ComponentView::OnDeath {
                abilities: abilities@.map_values(|a: SpecialAbility| a@),
            },
            Component::Hidden => ComponentView::Hidden,
            Component::BlocksVisibility => ComponentView::BlocksVisibility,
            Component::Door { open } => ComponentView::Door { open },
            Component::EntryTrigger => ComponentView::EntryTrigger,
            Component::SpellTemplate { mana_cost } => ComponentView::SpellTemplate { mana_cost },
        }
    }
}

/// The views of a list of components, position by position.
pub open spec fn components_view(components: Seq<Component>) -> Seq<ComponentView> {
    components.map_values(|c: Component| c@)
}

} // verus!
