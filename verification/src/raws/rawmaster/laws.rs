//! What holds of every spawned entity.

use vstd::prelude::*;
use crate::components::{Attribute, ComponentView, Entity, EquipmentSlot};
use crate::gamesystem::attr_bonus_of;
use crate::name_map::lookup;
use crate::raws::Raws;
use crate::raws::rawmaster::{equip_slot_of, item_index_of, mob_index_of};
use crate::raws::rawmaster::effects::{effects_of, optional_effects_of};
use crate::raws::rawmaster::item::{
    attribute_bonus_of, charges_of, consumable_of, curse_of, item_of, item_spawn_of, item_stats_of,
    magic_class_of, magic_of, obfuscated_name_of, weapon_of, wearable_of,
};
use crate::raws::rawmaster::mob::{
    abilities_of, attribute_of, attributes_of, default_faction, equipment_of, equipped_entity_of,
    equipped_tags, light_of, loot_of, mob_entity_of, mob_of, mob_spawn_of, natural_of, on_death_of,
    pools_of, presence_of, quips_of, skills_of, standing_of, vendor_of,
};
use crate::raws::rawmaster::spawn::{
    and_then, base_of, entity_of, look_of, placement_of, spawn_type_of, spawned_of, SpawnError,
    SpawnTableType, SpawnType,
};
use crate::raws::structs::{Consumable, Item, Mob, Renderable, Weapon};
use crate::world::MasterDungeonMap;

verus! {

/// Whether one of the components has the property `p`.
pub open spec fn any(cs: Seq<ComponentView>, p: spec_fn(ComponentView) -> bool) -> bool {
    exists|i: int| 0 <= i < cs.len() && p(#[trigger] cs[i])
}

/// Components that are put together have a property where one of the two
/// parts has it.
pub proof fn lemma_any_and_then(
    first: Result<Seq<ComponentView>, SpawnError>,
    second: Result<Seq<ComponentView>, SpawnError>,
    p: spec_fn(ComponentView) -> bool,
)
    requires
        and_then(first, second) is Ok,
    ensures
        first is Ok,
        second is Ok,
        any(and_then(first, second)->Ok_0, p) <==> any(first->Ok_0, p) || any(second->Ok_0, p),
{
    let a = first->Ok_0;
    let b = second->Ok_0;
    let cs = a + b;
    if any(a, p) {
        let i = choose|i: int| 0 <= i < a.len() && p(#[trigger] a[i]);
        assert(cs[i] == a[i]);
    }
    if any(b, p) {
        let i = choose|i: int| 0 <= i < b.len() && p(#[trigger] b[i]);
        assert(cs[a.len() + i] == b[i]);
    }
    if any(cs, p) {
        let i = choose|i: int| 0 <= i < cs.len() && p(#[trigger] cs[i]);
        if i < a.len() {
            assert(a[i] == cs[i]);
        } else {
            assert(b[i - a.len()] == cs[i]);
        }
    }
}

/// A key that names an item is spawned as that item, whatever else it
/// names.
pub proof fn lemma_item_takes_precedence(
    raws: Raws,
    dm: MasterDungeonMap,
    key: Seq<char>,
    pos: SpawnType,
    gold: i32,
    next: usize,
)
    requires
        item_index_of(raws, key) is Some,
    ensures
        spawn_type_of(raws, key) == SpawnTableType::Item,
        entity_of(raws, dm, key, pos, gold) == match item_spawn_of(raws, dm, key, pos) {
            Ok(cs) => Ok::<Option<Seq<ComponentView>>, SpawnError>(Some(cs)),
            Err(e) => Err(e),
        },
        spawned_of(raws, dm, key, pos, gold, next) == match item_spawn_of(raws, dm, key, pos) {
            Ok(cs) => Ok::<Seq<Seq<ComponentView>>, SpawnError>(seq![cs]),
            Err(e) => Err(e),
        },
{
}

/// A piece of starting equipment is made as the same key is made when it
/// is spawned by itself with the placement of being equipped, but that a
/// key which names nothing is an error there.
pub proof fn lemma_equipment_is_spawned(raws: Raws, dm: MasterDungeonMap, tags: Seq<String>, owner: Entity)
    requires
        tags.len() > 0,
        equipment_of(raws, dm, tags.drop_last(), owner) is Ok,
    ensures
        equipment_of(raws, dm, tags, owner) == match entity_of(
            raws,
            dm,
            tags.last()@,
            SpawnType::Equipped { by: owner },
            0,
        ) {
            Err(e) => Err::<Seq<Seq<ComponentView>>, SpawnError>(e),
            Ok(Some(cs)) => Ok(equipment_of(raws, dm, tags.drop_last(), owner)->Ok_0.push(cs)),
            Ok(None) => Err(SpawnError::MissingDefinition),
        },
{
}

/// Only items can be starting equipment: a piece of equipment is made as
/// the item that its key names, and a key that names no item is an error.
pub proof fn lemma_equipment_is_an_item(raws: Raws, dm: MasterDungeonMap, tag: Seq<char>, owner: Entity)
    ensures
        equipped_entity_of(raws, dm, tag, owner) == item_spawn_of(
            raws,
            dm,
            tag,
            SpawnType::Equipped { by: owner },
        ),
        item_index_of(raws, tag) is None ==> equipped_entity_of(raws, dm, tag, owner) == Err::<
            Seq<ComponentView>,
            SpawnError,
        >(SpawnError::MissingDefinition),
{
}

/// A mob whose starting equipment holds a key that names no item cannot be
/// spawned, where the mob itself and the equipment before that key can be
/// made.
pub proof fn lemma_mob_equipment_needs_definition(
    raws: Raws,
    dm: MasterDungeonMap,
    key: Seq<char>,
    pos: SpawnType,
    gold: i32,
    next: usize,
    j: int,
)
    requires
        mob_entity_of(raws, key, pos, gold) is Ok,
        mob_index_of(raws, key) is Some,
        0 <= j < equipped_tags(raws.mobs@[mob_index_of(raws, key)->0]).len(),
        item_index_of(raws, equipped_tags(raws.mobs@[mob_index_of(raws, key)->0])[j]@) is None,
        equipment_of(
            raws,
            dm,
            equipped_tags(raws.mobs@[mob_index_of(raws, key)->0]).take(j),
            Entity { id: next },
        ) is Ok,
    ensures
        mob_spawn_of(raws, dm, key, pos, gold, next) == Err::<Seq<Seq<ComponentView>>, SpawnError>(
            SpawnError::MissingDefinition,
        ),
{
    let tags = equipped_tags(raws.mobs@[mob_index_of(raws, key)->0]);
    let owner = Entity { id: next };
    assert(tags.take(j + 1).drop_last() =~= tags.take(j));
    assert(tags.take(j + 1).last() == tags[j]);
    lemma_equipment_is_an_item(raws, dm, tags[j]@, owner);
    lemma_equipment_error_stays(raws, dm, tags, owner, j);
}

/// An item with a consumable block gets a charge counter whose current and
/// highest count are both the charges of the block.
pub proof fn lemma_consumable_starts_full(
    raws: Raws,
    dm: MasterDungeonMap,
    item: Item,
    key: Seq<char>,
    pos: SpawnType,
)
    requires
        item_of(raws, dm, item, key, pos) is Ok,
        item.consumable is Some,
    ensures
        any(
            item_of(raws, dm, item, key, pos)->Ok_0,
            |c: ComponentView|
                c == (ComponentView::Consumable {
                    max_charges: charges_of(item.consumable->0),
                    charges: charges_of(item.consumable->0),
                }),
        ),
        item.consumable->0.charges matches Some(n) ==> charges_of(item.consumable->0) == n,
{
    let n = charges_of(item.consumable->0);
    let p = |c: ComponentView| c == (ComponentView::Consumable { max_charges: n, charges: n });
    lemma_item_parts(raws, dm, item, key, pos, p);
    let counter = seq![ComponentView::Consumable { max_charges: n, charges: n }];
    lemma_any_and_then(Ok(counter), effects_of(item.consumable->0.effects@), p);
    assert(p(counter[0]));
}

/// No effect attaches an obfuscated name.
pub proof fn lemma_effects_name_nothing(effects: Seq<(String, String)>)
    requires
        effects_of(effects) is Ok,
    ensures
        !any(effects_of(effects)->Ok_0, |c: ComponentView| c is ObfuscatedName),
    decreases effects.len(),
{
    let p = |c: ComponentView| c is ObfuscatedName;
    let cs = effects_of(effects)->Ok_0;
    if effects.len() > 0 {
        lemma_effects_name_nothing(effects.drop_last());
        let before = effects_of(effects.drop_last())->Ok_0;
        if any(cs, p) {
            let i = choose|i: int| 0 <= i < cs.len() && p(#[trigger] cs[i]);
            if i < before.len() {
                assert(p(before[i]));
            }
        }
    }
}

/// An item has a property where one of the seven parts that it is put
/// together of has it.
pub proof fn lemma_item_parts(
    raws: Raws,
    dm: MasterDungeonMap,
    item: Item,
    key: Seq<char>,
    pos: SpawnType,
    p: spec_fn(ComponentView) -> bool,
)
    requires
        item_of(raws, dm, item, key, pos) is Ok,
    ensures
        base_of(raws, item.name, item.renderable, key, pos) is Ok,
        consumable_of(item.consumable) is Ok,
        weapon_of(item.weapon) is Ok,
        magic_of(dm, item.name@, item.magic) is Ok,
        any(item_of(raws, dm, item, key, pos)->Ok_0, p) <==> any(
            base_of(raws, item.name, item.renderable, key, pos)->Ok_0,
            p,
        ) || any(item_stats_of(item), p) || any(consumable_of(item.consumable)->Ok_0, p) || any(
            weapon_of(item.weapon)->Ok_0,
            p,
        ) || any(wearable_of(item.wearable), p) || any(magic_of(dm, item.name@, item.magic)->Ok_0, p)
            || any(attribute_bonus_of(item.attributes), p),
{
    let b0 = base_of(raws, item.name, item.renderable, key, pos);
    let b1 = and_then(b0, Ok(item_stats_of(item)));
    let b2 = and_then(b1, consumable_of(item.consumable));
    let b3 = and_then(b2, weapon_of(item.weapon));
    let b4 = and_then(b3, Ok(wearable_of(item.wearable)));
    let b5 = and_then(b4, magic_of(dm, item.name@, item.magic));
    lemma_any_and_then(b5, Ok(attribute_bonus_of(item.attributes)), p);
    lemma_any_and_then(b4, magic_of(dm, item.name@, item.magic), p);
    lemma_any_and_then(b3, Ok(wearable_of(item.wearable)), p);
    lemma_any_and_then(b2, weapon_of(item.weapon), p);
    lemma_any_and_then(b1, consumable_of(item.consumable), p);
    lemma_any_and_then(b0, Ok(item_stats_of(item)), p);
}

/// What every entity starts with has a property where the marker for saved
/// games, the placement, the look or the name has it.
pub proof fn lemma_base_parts(
    raws: Raws,
    name: String,
    renderable: Option<Renderable>,
    key: Seq<char>,
    pos: SpawnType,
    p: spec_fn(ComponentView) -> bool,
)
    requires
        base_of(raws, name, renderable, key, pos) is Ok,
    ensures
        placement_of(raws, key, pos) is Ok,
        look_of(renderable) is Ok,
        any(base_of(raws, name, renderable, key, pos)->Ok_0, p) <==> p(ComponentView::SerializeMe)
            || any(placement_of(raws, key, pos)->Ok_0, p) || any(look_of(renderable)->Ok_0, p) || p(
            ComponentView::Name { name: name@ },
        ),
{
    let marker = seq![ComponentView::SerializeMe];
    let own = seq![ComponentView::Name { name: name@ }];
    let s1 = and_then(Ok(marker), placement_of(raws, key, pos));
    let s2 = and_then(s1, look_of(renderable));
    lemma_any_and_then(s2, Ok(own), p);
    lemma_any_and_then(s1, look_of(renderable), p);
    lemma_any_and_then(Ok(marker), placement_of(raws, key, pos), p);
    assert(any(marker, p) <==> p(ComponentView::SerializeMe)) by {
        if p(ComponentView::SerializeMe) {
            assert(p(marker[0]));
        }
    }
    assert(any(own, p) <==> p(ComponentView::Name { name: name@ })) by {
        if p(ComponentView::Name { name: name@ }) {
            assert(p(own[0]));
        }
    }
}

/// Every item shows its own name.
pub proof fn lemma_item_named(raws: Raws, dm: MasterDungeonMap, item: Item, key: Seq<char>, pos: SpawnType)
    requires
        item_of(raws, dm, item, key, pos) is Ok,
    ensures
        any(
            item_of(raws, dm, item, key, pos)->Ok_0,
            |c: ComponentView| c == (ComponentView::Name { name: item.name@ }),
        ),
{
    let p = |c: ComponentView| c == (ComponentView::Name { name: item.name@ });
    lemma_item_parts(raws, dm, item, key, pos, p);
    lemma_base_parts(raws, item.name, item.renderable, key, pos, p);
}

/// A weapon block attaches no obfuscated name.
proof fn lemma_weapon_names_nothing(weapon: Option<Weapon>)
    requires
        weapon_of(weapon) is Ok,
    ensures
        !any(weapon_of(weapon)->Ok_0, |c: ComponentView| c is ObfuscatedName),
{
    let p = |c: ComponentView| c is ObfuscatedName;
    if weapon is Some {
        let w = weapon->0;
        if w.proc_effects is Some {
            lemma_effects_name_nothing(w.proc_effects->0@);
        }
        let armed = choose|armed: Seq<ComponentView>|
            weapon_of(weapon) == and_then(Ok(armed), optional_effects_of(w.proc_effects)) && armed.len()
                == 2 && armed[0] is Equippable && armed[1] is Weapon;
        lemma_any_and_then(Ok(armed), optional_effects_of(w.proc_effects), p);
    }
}

/// A consumable block attaches no obfuscated name.
proof fn lemma_consumable_names_nothing(consumable: Option<Consumable>)
    requires
        consumable_of(consumable) is Ok,
    ensures
        !any(consumable_of(consumable)->Ok_0, |c: ComponentView| c is ObfuscatedName),
{
    let p = |c: ComponentView| c is ObfuscatedName;
    if consumable is Some {
        let c = consumable->0;
        let counter = seq![
            ComponentView::Consumable { max_charges: charges_of(c), charges: charges_of(c) },
        ];
        lemma_any_and_then(Ok(counter), effects_of(c.effects@), p);
        lemma_effects_name_nothing(c.effects@);
    }
}

/// What every entity starts with holds no obfuscated name.
proof fn lemma_base_names_nothing(
    raws: Raws,
    name: String,
    renderable: Option<Renderable>,
    key: Seq<char>,
    pos: SpawnType,
)
    requires
        base_of(raws, name, renderable, key, pos) is Ok,
    ensures
        !any(base_of(raws, name, renderable, key, pos)->Ok_0, |c: ComponentView| c is ObfuscatedName),
{
    let p = |c: ComponentView| c is ObfuscatedName;
    lemma_base_parts(raws, name, renderable, key, pos, p);
}

/// An identified magic item goes by its own name: it has no obfuscated
/// name.
pub proof fn lemma_identified_shows_true_name(
    raws: Raws,
    dm: MasterDungeonMap,
    item: Item,
    key: Seq<char>,
    pos: SpawnType,
)
    requires
        item_of(raws, dm, item, key, pos) is Ok,
        item.magic is Some,
        dm.identified(item.name@),
    ensures
        !any(item_of(raws, dm, item, key, pos)->Ok_0, |c: ComponentView| c is ObfuscatedName),
        any(
            item_of(raws, dm, item, key, pos)->Ok_0,
            |c: ComponentView| c == (ComponentView::Name { name: item.name@ }),
        ),
{
    let p = |c: ComponentView| c is ObfuscatedName;
    let m = item.magic->0;
    lemma_item_named(raws, dm, item, key, pos);
    lemma_item_parts(raws, dm, item, key, pos, p);
    lemma_base_names_nothing(raws, item.name, item.renderable, key, pos);
    lemma_consumable_names_nothing(item.consumable);
    lemma_weapon_names_nothing(item.weapon);
    let class = seq![
        ComponentView::MagicItem { class: magic_class_of(m.class@) },
    ];
    let named = obfuscated_name_of(dm, item.name@, m.naming@);
    lemma_any_and_then(and_then(Ok(class), named), Ok(curse_of(m.cursed)), p);
    lemma_any_and_then(Ok(class), named, p);
}

/// An unidentified magic item goes by another name than its own: a scroll
/// by the name that the session maps its own name to, a potion likewise,
/// and an item of another naming category by that category.
pub proof fn lemma_unidentified_is_obfuscated(
    raws: Raws,
    dm: MasterDungeonMap,
    item: Item,
    key: Seq<char>,
    pos: SpawnType,
)
    requires
        item_of(raws, dm, item, key, pos) is Ok,
        item.magic is Some,
        !dm.identified(item.name@),
    ensures
        any(
            item_of(raws, dm, item, key, pos)->Ok_0,
            |c: ComponentView|
                c == (ComponentView::ObfuscatedName {
                    name: if item.magic->0.naming@ == "scroll"@ {
                        lookup(dm.scroll_mappings.bindings(), item.name@)->0@
                    } else if item.magic->0.naming@ == "potion"@ {
                        lookup(dm.potion_mappings.bindings(), item.name@)->0@
                    } else {
                        item.magic->0.naming@
                    },
                }),
        ),
        item.magic->0.naming@ == "scroll"@ ==> lookup(dm.scroll_mappings.bindings(), item.name@) is Some,
        item.magic->0.naming@ == "potion"@ && item.magic->0.naming@ != "scroll"@ ==> lookup(
            dm.potion_mappings.bindings(),
            item.name@,
        ) is Some,
{
    let m = item.magic->0;
    let name = if m.naming@ == "scroll"@ {
        lookup(dm.scroll_mappings.bindings(), item.name@)->0@
    } else if m.naming@ == "potion"@ {
        lookup(dm.potion_mappings.bindings(), item.name@)->0@
    } else {
        m.naming@
    };
    let p = |c: ComponentView| c == (ComponentView::ObfuscatedName { name });
    lemma_item_parts(raws, dm, item, key, pos, p);
    let class = seq![
        ComponentView::MagicItem { class: magic_class_of(m.class@) },
    ];
    let named = obfuscated_name_of(dm, item.name@, m.naming@);
    lemma_any_and_then(and_then(Ok(class), named), Ok(curse_of(m.cursed)), p);
    lemma_any_and_then(Ok(class), named, p);
    assert(p(named->Ok_0[0]));
}

/// A mob whose definition names no faction belongs to the default faction,
/// and each attribute that its definition leaves out has the baseline value
/// with the bonus that belongs to it.
pub proof fn lemma_mob_defaults(raws: Raws, mob: Mob, key: Seq<char>, pos: SpawnType, gold: i32)
    requires
        mob_of(raws, mob, key, pos, gold) is Ok,
    ensures
        mob.faction is None ==> any(
            mob_of(raws, mob, key, pos, gold)->Ok_0,
            |c: ComponentView| c == (ComponentView::Faction { name: default_faction() }),
        ),
        any(
            mob_of(raws, mob, key, pos, gold)->Ok_0,
            |c: ComponentView|
                c == (ComponentView::Attributes {
                    might: attribute_of(mob.attributes.might),
                    fitness: attribute_of(mob.attributes.fitness),
                    quickness: attribute_of(mob.attributes.quickness),
                    intelligence: attribute_of(mob.attributes.intelligence),
                }),
        ),
        attribute_of(None) == (Attribute { base: 11, modifiers: 0, bonus: attr_bonus_of(11) as i32 }),
        attr_bonus_of(11) == 0,
{
    let b0 = base_of(raws, mob.name, mob.renderable, key, pos);
    let b1 = and_then(b0, Ok(presence_of(mob)));
    let b2 = and_then(b1, Ok(quips_of(mob.quips)));
    let b3 = and_then(b2, natural_of(mob.natural));
    let b4 = and_then(b3, Ok(attributes_of(mob.attributes)));
    let b5 = and_then(b4, pools_of(mob, gold));
    let b6 = and_then(b5, Ok(skills_of(mob.skills)));
    let b7 = and_then(b6, Ok(loot_of(mob.loot_table)));
    let b8 = and_then(b7, light_of(mob.light));
    let b9 = and_then(b8, Ok(standing_of(mob.faction)));
    let b10 = and_then(b9, Ok(vendor_of(mob.vendor)));
    let b11 = and_then(b10, Ok(abilities_of(mob.abilities)));
    let attrs = |c: ComponentView|
        c == (ComponentView::Attributes {
            might: attribute_of(mob.attributes.might),
            fitness: attribute_of(mob.attributes.fitness),
            quickness: attribute_of(mob.attributes.quickness),
            intelligence: attribute_of(mob.attributes.intelligence),
        });
    lemma_any_and_then(b11, Ok(on_death_of(mob.on_death)), attrs);
    lemma_any_and_then(b10, Ok(abilities_of(mob.abilities)), attrs);
    lemma_any_and_then(b9, Ok(vendor_of(mob.vendor)), attrs);
    lemma_any_and_then(b8, Ok(standing_of(mob.faction)), attrs);
    lemma_any_and_then(b7, light_of(mob.light), attrs);
    lemma_any_and_then(b6, Ok(loot_of(mob.loot_table)), attrs);
    lemma_any_and_then(b5, Ok(skills_of(mob.skills)), attrs);
    lemma_any_and_then(b4, pools_of(mob, gold), attrs);
    lemma_any_and_then(b3, Ok(attributes_of(mob.attributes)), attrs);
    assert(attrs(attributes_of(mob.attributes)[0]));
    if mob.faction is None {
        let mindless = |c: ComponentView| c == (ComponentView::Faction { name: default_faction() });
        lemma_any_and_then(b11, Ok(on_death_of(mob.on_death)), mindless);
        lemma_any_and_then(b10, Ok(abilities_of(mob.abilities)), mindless);
        lemma_any_and_then(b9, Ok(vendor_of(mob.vendor)), mindless);
        lemma_any_and_then(b8, Ok(standing_of(mob.faction)), mindless);
        assert(mindless(standing_of(mob.faction)[1]));
    }
}

/// An item that is neither a weapon nor wearable cannot be spawned
/// equipped: the attempt is an error, not an entity and not nothing.
pub proof fn lemma_equip_needs_slot(
    raws: Raws,
    dm: MasterDungeonMap,
    key: Seq<char>,
    by: Entity,
    gold: i32,
    next: usize,
)
    requires
        item_index_of(raws, key) matches Some(i) && raws.items@[i].weapon is None
            && raws.items@[i].wearable is None,
    ensures
        equip_slot_of(raws, key) == Err::<EquipmentSlot, SpawnError>(
            SpawnError::MissingEquipSlot,
        ),
        item_spawn_of(raws, dm, key, SpawnType::Equipped { by }) == Err::<
            Seq<ComponentView>,
            SpawnError,
        >(SpawnError::MissingEquipSlot),
        spawned_of(raws, dm, key, SpawnType::Equipped { by }, gold, next) == Err::<
            Seq<Seq<ComponentView>>,
            SpawnError,
        >(SpawnError::MissingEquipSlot),
{
}

/// A mob whose starting equipment holds an item that is neither a weapon
/// nor wearable cannot be spawned, where the mob itself and the equipment
/// before that item can be made.
pub proof fn lemma_mob_equipment_needs_slot(
    raws: Raws,
    dm: MasterDungeonMap,
    key: Seq<char>,
    pos: SpawnType,
    gold: i32,
    next: usize,
    j: int,
)
    requires
        mob_entity_of(raws, key, pos, gold) is Ok,
        mob_index_of(raws, key) is Some,
        0 <= j < equipped_tags(raws.mobs@[mob_index_of(raws, key)->0]).len(),
        item_index_of(raws, equipped_tags(raws.mobs@[mob_index_of(raws, key)->0])[j]@) matches Some(i)
            && raws.items@[i].weapon is None && raws.items@[i].wearable is None,
        equipment_of(
            raws,
            dm,
            equipped_tags(raws.mobs@[mob_index_of(raws, key)->0]).take(j),
            Entity { id: next },
        ) is Ok,
    ensures
        mob_spawn_of(raws, dm, key, pos, gold, next) == Err::<Seq<Seq<ComponentView>>, SpawnError>(
            SpawnError::MissingEquipSlot,
        ),
{
    let tags = equipped_tags(raws.mobs@[mob_index_of(raws, key)->0]);
    let owner = Entity { id: next };
    assert(tags.take(j + 1).drop_last() =~= tags.take(j));
    assert(tags.take(j + 1).last() == tags[j]);
    lemma_equip_needs_slot(raws, dm, tags[j]@, owner, 0, next);
    lemma_equipment_error_stays(raws, dm, tags, owner, j);
}

/// An error among the first tags is the error of the whole equipment.
pub proof fn lemma_equipment_error_stays(raws: Raws, dm: MasterDungeonMap, tags: Seq<String>, owner: Entity, i: int)
    requires
        0 <= i < tags.len(),
        equipment_of(raws, dm, tags.take(i + 1), owner) is Err,
    ensures
        equipment_of(raws, dm, tags, owner) == equipment_of(raws, dm, tags.take(i + 1), owner),
    decreases tags.len() - i,
{
    if i + 1 == tags.len() {
        assert(tags.take(i + 1) =~= tags);
    } else {
        assert(tags.take(i + 2).drop_last() =~= tags.take(i + 1));
        lemma_equipment_error_stays(raws, dm, tags, owner, i + 1);
    }
}

} // verus!
