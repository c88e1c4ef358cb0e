//! Making the entity of an item.

use vstd::prelude::*;
use vstd::string::*;
use crate::components::{
    text_view, Component, ComponentView, Entity, EquipmentSlot, MagicItemClass, WeaponAttribute,
};
use crate::dice::{dice_of, parse_dice_string};
use crate::name_map::{lemma_lookup_position, lookup};
use crate::raws::Raws;
use crate::raws::rawmaster::{item_index_of, slot_of, string_to_slot, RawMaster};
use crate::raws::rawmaster::effects::{apply_effects, effects_of, optional_effects_of};
use crate::raws::rawmaster::spawn::{
    and_then, base_of, builds, spawn_base_entity, SpawnError, SpawnType,
};
use crate::raws::structs::{
    names_of, Consumable, Item, ItemAttributeBonus, MagicItem, Real, Weapon, Wearable,
};
use crate::text::{int_of, parse_i32, str_eq};
use crate::world::{EntityBuilder, MasterDungeonMap, World};

verus! {

/// The number, or zero where there is none.
pub open spec fn or_zero(value: Option<Real>) -> Real {
    match value {
        Some(v) => v,
        None => Real { bits: 0 },
    }
}

/// What every item has: its initiative penalty, weight and base value, each
/// zero where the definition gives none.
pub open spec fn item_stats_of(item: Item) -> Seq<ComponentView> {
    seq![
        ComponentView::Item {
            initiative_penalty: or_zero(item.initiative_penalty),
            weight_lbs: or_zero(item.weight_lbs),
            base_value: or_zero(item.base_value),
        },
    ]
}

/// The charges of a consumable: one where the definition gives none.
pub open spec fn charges_of(consumable: Consumable) -> i32 {
    match consumable.charges {
        Some(n) => n,
        None => 1,
    }
}

/// What a consumable block attaches: the charge counter, full, and what its
/// effects attach.
pub open spec fn consumable_of(consumable: Option<Consumable>) -> Result<Seq<ComponentView>, SpawnError> {
    match consumable {
        None => Ok(Seq::empty()),
        Some(c) => and_then(
            Ok(seq![ComponentView::Consumable { max_charges: charges_of(c), charges: charges_of(c) }]),
            effects_of(c.effects@),
        ),
    }
}

/// The range of a weapon: none for `melee`, else the number that is written.
pub open spec fn weapon_range_of(range: Seq<char>) -> Result<Option<i32>, SpawnError> {
    if range == "melee"@ {
        Ok(None)
    } else {
        match int_of(range) {
            Some(n) => Ok(Some(n as i32)),
            None => Err(SpawnError::MalformedValue),
        }
    }
}

/// The attribute that a weapon uses: quickness where it says so, else might.
pub open spec fn weapon_attribute_of(attribute: Seq<char>) -> WeaponAttribute {
    if attribute == "Quickness"@ {
        WeaponAttribute::Quickness
    } else {
        WeaponAttribute::Might
    }
}

/// What a weapon block attaches: the marker for the melee slot, the weapon
/// with its damage dice, and what its proc effects attach.
pub open spec fn weapon_of(weapon: Option<Weapon>) -> Result<Seq<ComponentView>, SpawnError> {
    match weapon {
        None => Ok(Seq::empty()),
        Some(w) => match dice_of(w.base_damage@) {
            None => Err(SpawnError::MalformedValue),
            Some(dice) => match weapon_range_of(w.range@) {
                Err(e) => Err(e),
                Ok(range) => and_then(
                    Ok(
                        seq![
                            ComponentView::Equippable { slot: EquipmentSlot::Melee },
                            ComponentView::Weapon {
                                range,
                                attribute: weapon_attribute_of(w.attribute@),
                                damage_n_dice: dice.0 as i32,
                                damage_die_type: dice.1 as i32,
                                damage_bonus: dice.2 as i32,
                                hit_bonus: w.hit_bonus,
                                proc_chance: w.proc_chance,
                                proc_target: text_view(w.proc_target),
                            },
                        ],
                    ),
                    optional_effects_of(w.proc_effects),
                ),
            },
        },
    }
}

/// What a wearable block attaches: the marker for its slot and the armour.
pub open spec fn wearable_of(wearable: Option<Wearable>) -> Seq<ComponentView> {
    match wearable {
        None => Seq::empty(),
        Some(w) => seq![
            ComponentView::Equippable { slot: slot_of(w.slot@) },
            ComponentView::Wearable { slot: slot_of(w.slot@), armor_class: w.armor_class },
        ],
    }
}

/// The class that a class name stands for: common unless it says rare or
/// legendary.
pub open spec fn magic_class_of(class: Seq<char>) -> MagicItemClass {
    if class == "rare"@ {
        MagicItemClass::Rare
    } else if class == "legendary"@ {
        MagicItemClass::Legendary
    } else {
        MagicItemClass::Common
    }
}

/// The name under which a magic item goes. An identified item goes under
/// its own name and gets no other. An unidentified scroll or potion gets
/// the name that the session has for it; an unidentified item of another
/// naming category gets the category itself as its name.
pub open spec fn obfuscated_name_of(dm: MasterDungeonMap, name: Seq<char>, naming: Seq<char>) -> Result<
    Seq<ComponentView>,
    SpawnError,
> {
    if dm.identified(name) {
        Ok(Seq::empty())
    } else if naming == "scroll"@ {
        match lookup(dm.scroll_mappings.bindings(), name) {
            Some(obfuscated) => Ok(seq![ComponentView::ObfuscatedName { name: obfuscated@ }]),
            None => Err(SpawnError::MissingObfuscatedName),
        }
    } else if naming == "potion"@ {
        match lookup(dm.potion_mappings.bindings(), name) {
            Some(obfuscated) => Ok(seq![ComponentView::ObfuscatedName { name: obfuscated@ }]),
            None => Err(SpawnError::MissingObfuscatedName),
        }
    } else {
        Ok(seq![ComponentView::ObfuscatedName { name: naming }])
    }
}

/// The mark of a curse, where the item is cursed.
pub open spec fn curse_of(cursed: Option<bool>) -> Seq<ComponentView> {
    if cursed == Some(true) {
        seq![ComponentView::CursedItem]
    } else {
        Seq::empty()
    }
}

/// What a magic block attaches: the class, the name under which the item
/// goes, and the curse.
pub open spec fn magic_of(dm: MasterDungeonMap, name: Seq<char>, magic: Option<MagicItem>) -> Result<
    Seq<ComponentView>,
    SpawnError,
> {
    match magic {
        None => Ok(Seq::empty()),
        Some(m) => and_then(
            and_then(
                Ok(seq![ComponentView::MagicItem { class: magic_class_of(m.class@) }]),
                obfuscated_name_of(dm, name, m.naming@),
            ),
            Ok(curse_of(m.cursed)),
        ),
    }
}

/// What an attribute block attaches: the four bonuses, each as the definition
/// gives or leaves it.
pub open spec fn attribute_bonus_of(bonus: Option<ItemAttributeBonus>) -> Seq<ComponentView> {
    match bonus {
        None => Seq::empty(),
        Some(ab) => seq![
            ComponentView::AttributeBonus {
                might: ab.might,
                fitness: ab.fitness,
                quickness: ab.quickness,
                intelligence: ab.intelligence,
            },
        ],
    }
}

/// The components of the entity that is made of the item definition `item`,
/// found under `key`, for the placement `pos`.
pub open spec fn item_of(raws: Raws, dm: MasterDungeonMap, item: Item, key: Seq<char>, pos: SpawnType) -> Result<
    Seq<ComponentView>,
    SpawnError,
> {
    and_then(
        and_then(
            and_then(
                and_then(
                    and_then(
                        and_then(
                            base_of(raws, item.name, item.renderable, key, pos),
                            Ok(item_stats_of(item)),
                        ),
                        consumable_of(item.consumable),
                    ),
                    weapon_of(item.weapon),
                ),
                Ok(wearable_of(item.wearable)),
            ),
            magic_of(dm, item.name@, item.magic),
        ),
        Ok(attribute_bonus_of(item.attributes)),
    )
}

/// The components of the item that `key` names. A key that names no item
/// is an error.
pub open spec fn item_spawn_of(raws: Raws, dm: MasterDungeonMap, key: Seq<char>, pos: SpawnType) -> Result<
    Seq<ComponentView>,
    SpawnError,
> {
    match item_index_of(raws, key) {
        Some(i) => item_of(raws, dm, raws.items@[i], key, pos),
        None => Err(SpawnError::MissingDefinition),
    }
}

fn attach_item_stats(item: &Item, eb: EntityBuilder) -> (r: EntityBuilder)
    ensures
        r@ == eb@ + item_stats_of(*item),
{
    let zero = Real::zero();
    let r = eb.with(
        Component::Item {
            initiative_penalty: item.initiative_penalty.unwrap_or(zero),
            weight_lbs: item.weight_lbs.unwrap_or(zero),
            base_value: item.base_value.unwrap_or(zero),
        },
    );
    assert(r@ =~= eb@ + item_stats_of(*item));
    r
}

fn attach_consumable(consumable: &Option<Consumable>, eb: EntityBuilder) -> (r: Result<
    EntityBuilder,
    SpawnError,
>)
    ensures
        builds(r, and_then(Ok(eb@), consumable_of(*consumable))),
{
    match consumable {
        None => {
            assert(eb@ =~= eb@ + Seq::<ComponentView>::empty());
            Ok(eb)
        },
        Some(consumable) => {
            let max_charges = consumable.charges.unwrap_or(1);
            let counted = eb.with(Component::Consumable { max_charges, charges: max_charges });
            let done = apply_effects(&consumable.effects, counted)?;
            assert(done@ =~= eb@ + consumable_of(Some(*consumable))->Ok_0);
            Ok(done)
        },
    }
}

fn weapon_range(range: &str) -> (r: Result<Option<i32>, SpawnError>)
    ensures
        r == weapon_range_of(range@),
{
    if str_eq(range, "melee") {
        Ok(None)
    } else {
        match parse_i32(range) {
            Some(n) => Ok(Some(n)),
            None => Err(SpawnError::MalformedValue),
        }
    }
}

fn attach_weapon(weapon: &Option<Weapon>, eb: EntityBuilder) -> (r: Result<EntityBuilder, SpawnError>)
    ensures
        builds(r, and_then(Ok(eb@), weapon_of(*weapon))),
{
    match weapon {
        None => {
            assert(eb@ =~= eb@ + Seq::<ComponentView>::empty());
            Ok(eb)
        },
        Some(weapon) => {
            let marked = eb.with(Component::Equippable { slot: EquipmentSlot::Melee });
            let (n_dice, die_type, bonus) = match parse_dice_string(weapon.base_damage.as_str()) {
                Some(dice) => dice,
                None => {
                    return Err(SpawnError::MalformedValue);
                },
            };
            let range = weapon_range(weapon.range.as_str())?;
            let attribute = if str_eq(weapon.attribute.as_str(), "Quickness") {
                WeaponAttribute::Quickness
            } else {
                WeaponAttribute::Might
            };
            let proc_target = match &weapon.proc_target {
                Some(target) => Some(target.clone()),
                None => None,
            };
            let armed = marked.with(
                Component::Weapon {
                    range,
                    attribute,
                    damage_n_dice: n_dice,
                    damage_die_type: die_type,
                    damage_bonus: bonus,
                    hit_bonus: weapon.hit_bonus,
                    proc_chance: weapon.proc_chance,
                    proc_target,
                },
            );
            let done = match &weapon.proc_effects {
                Some(proc_effects) => apply_effects(proc_effects, armed)?,
                None => armed,
            };
            assert(done@ =~= eb@ + weapon_of(Some(*weapon))->Ok_0);
            Ok(done)
        },
    }
}

fn attach_wearable(wearable: &Option<Wearable>, eb: EntityBuilder) -> (r: EntityBuilder)
    ensures
        r@ == eb@ + wearable_of(*wearable),
{
    let r = match wearable {
        None => eb,
        Some(wearable) => {
            let slot = string_to_slot(wearable.slot.as_str());
            eb.with(Component::Equippable { slot }).with(
                Component::Wearable { slot, armor_class: wearable.armor_class },
            )
        },
    };
    assert(r@ =~= eb@ + wearable_of(*wearable));
    r
}

fn attach_obfuscated_name(dm: &MasterDungeonMap, name: &str, naming: &String, eb: EntityBuilder) -> (r: Result<
    EntityBuilder,
    SpawnError,
>)
    ensures
        builds(r, and_then(Ok(eb@), obfuscated_name_of(*dm, name@, naming@))),
{
    let done = if dm.is_identified(name) {
        eb
    } else if str_eq(naming.as_str(), "scroll") {
        match dm.scroll_mappings.get(name) {
            Some(obfuscated) => eb.with(Component::ObfuscatedName { name: obfuscated.clone() }),
            None => {
                return Err(SpawnError::MissingObfuscatedName);
            },
        }
    } else if str_eq(naming.as_str(), "potion") {
        match dm.potion_mappings.get(name) {
            Some(obfuscated) => eb.with(Component::ObfuscatedName { name: obfuscated.clone() }),
            None => {
                return Err(SpawnError::MissingObfuscatedName);
            },
        }
    } else {
        eb.with(Component::ObfuscatedName { name: naming.clone() })
    };
    assert(done@ =~= eb@ + obfuscated_name_of(*dm, name@, naming@)->Ok_0);
    Ok(done)
}

fn attach_magic(dm: &MasterDungeonMap, name: &str, magic: &Option<MagicItem>, eb: EntityBuilder) -> (r: Result<
    EntityBuilder,
    SpawnError,
>)
    ensures
        builds(r, and_then(Ok(eb@), magic_of(*dm, name@, *magic))),
{
    match magic {
        None => {
            assert(eb@ =~= eb@ + Seq::<ComponentView>::empty());
            Ok(eb)
        },
        Some(magic) => {
            let class = if str_eq(magic.class.as_str(), "rare") {
                MagicItemClass::Rare
            } else if str_eq(magic.class.as_str(), "legendary") {
                MagicItemClass::Legendary
            } else {
                MagicItemClass::Common
            };
            let classed = eb.with(Component::MagicItem { class });
            let named = attach_obfuscated_name(dm, name, &magic.naming, classed)?;
            let done = match magic.cursed {
                Some(true) => named.with(Component::CursedItem),
                _ => named,
            };
            assert(done@ =~= eb@ + magic_of(*dm, name@, Some(*magic))->Ok_0);
            Ok(done)
        },
    }
}

fn attach_attribute_bonus(bonus: &Option<ItemAttributeBonus>, eb: EntityBuilder) -> (r: EntityBuilder)
    ensures
        r@ == eb@ + attribute_bonus_of(*bonus),
{
    let r = match bonus {
        None => eb,
        Some(ab) => eb.with(
            Component::AttributeBonus {
                might: ab.might,
                fitness: ab.fitness,
                quickness: ab.quickness,
                intelligence: ab.intelligence,
            },
        ),
    };
    assert(r@ =~= eb@ + attribute_bonus_of(*bonus));
    r
}

/// The entity of the item that `key` names, ready to be built.
pub fn item_components(raws: &RawMaster, dm: &MasterDungeonMap, key: &str, pos: SpawnType) -> (r: Result<
    EntityBuilder,
    SpawnError,
>)
    ensures
        builds(r, item_spawn_of(raws.definitions(), *dm, key@, pos)),
{
    let indexes = raws.item_index();
    proof {
        lemma_lookup_position(indexes.bindings(), names_of(raws.definitions().items@), key@);
    }
    let (eb, item) = spawn_base_entity(raws, &raws.raws().items, indexes, key, pos)?;
    let eb = attach_item_stats(item, eb);
    let eb = attach_consumable(&item.consumable, eb)?;
    let eb = attach_weapon(&item.weapon, eb)?;
    let eb = attach_wearable(&item.wearable, eb);
    let eb = attach_magic(dm, item.name.as_str(), &item.magic, eb)?;
    let eb = attach_attribute_bonus(&item.attributes, eb);
    Ok(eb)
}

/// Makes the entity of the item that `key` names and adds it to `ecs`.
/// Where no entity can be made, `ecs` stays as it is.
pub fn spawn_named_item(raws: &RawMaster, ecs: &mut World, key: &str, pos: SpawnType) -> (r: Result<
    Entity,
    SpawnError,
>)
    ensures
        final(ecs).dm == old(ecs).dm,
        match item_spawn_of(raws.definitions(), old(ecs).dm, key@, pos) {
            Ok(cs) => r matches Ok(e) && e.id == old(ecs)@.len() && final(ecs)@ == old(ecs)@.push(cs),
            Err(err) => r matches Err(x) && x == err && final(ecs)@ == old(ecs)@,
        },
{
    let eb = item_components(raws, &ecs.dm, key, pos)?;
    Ok(eb.build(ecs))
}

} // verus!
