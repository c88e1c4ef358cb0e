//! What every spawned entity starts with, and spawning by key.

use vstd::prelude::*;
use crate::components::{Component, ComponentView, Entity};
use crate::name_map::{lookup, NameMap};
use crate::raws::Raws;
use crate::raws::rawmaster::{
    equip_slot_of, find_slot_for_equippable_item, get_renderable_component, item_index_of,
    mob_index_of, prop_index_of, renderable_of, RawMaster,
};
use crate::raws::rawmaster::item::{item_spawn_of, spawn_named_item};
use crate::raws::rawmaster::mob::{
    lemma_gold_exists, mob_entity_of, mob_gold_allowed, mob_spawn_of, spawn_named_mob,
};
use crate::raws::rawmaster::prop::{prop_entity, prop_entity_of};
use crate::raws::structs::{BaseRawComponent, Renderable};
use crate::world::{EntityBuilder, MasterDungeonMap, World};

verus! {

/// Where a new entity is put.
#[derive(Clone, Copy, Debug, PartialEq, Eq, Structural)]
pub enum SpawnType {
    AtPosition { x: i32, y: i32 },
    Equipped { by: Entity },
    Carried { by: Entity },
}

/// The kind of definition that a spawn key stands for.
#[derive(Clone, Copy, Debug, PartialEq, Eq, Structural)]
pub enum SpawnTableType {
    Item,
    Mob,
    Prop,
}

/// Why no entity could be made of a definition.
#[derive(Clone, Copy, Debug, PartialEq, Eq, Structural)]
pub enum SpawnError {
    /// The key has no definition of the kind that was asked for.
    MissingDefinition,
    /// The item is to be equipped but is neither a weapon nor wearable.
    MissingEquipSlot,
    /// A number or a dice expression is not written as one, or cannot be
    /// rolled.
    MalformedValue,
    /// A colour is not written as `#` and six hexadecimal digits.
    InvalidColor,
    /// A look without a glyph.
    MissingGlyph,
    /// An unidentified scroll or potion for which the session has no name.
    MissingObfuscatedName,
    /// Hit points or mana that do not fit in 32 bits.
    StatOverflow,
}

/// Whether `r` is the builder, or the error, that `expected` describes.
pub open spec fn builds(r: Result<EntityBuilder, SpawnError>, expected: Result<Seq<ComponentView>, SpawnError>) -> bool {
    match expected {
        Ok(cs) => r matches Ok(eb) && eb@ == cs,
        Err(e) => r matches Err(x) && x == e,
    }
}

/// The components of `first` followed by those of `second`. Where either is
/// an error the whole is one, the error of `first` going before.
pub open spec fn and_then(
    first: Result<Seq<ComponentView>, SpawnError>,
    second: Result<Seq<ComponentView>, SpawnError>,
) -> Result<Seq<ComponentView>, SpawnError> {
    match first {
        Err(e) => Err(e),
        Ok(a) => match second {
            Err(e) => Err(e),
            Ok(b) => Ok(a + b),
        },
    }
}

/// The component that places an entity. An entity that is equipped takes
/// the slot from the item definition that `key` names.
pub open spec fn placement_of(raws: Raws, key: Seq<char>, pos: SpawnType) -> Result<
    Seq<ComponentView>,
    SpawnError,
> {
    match pos {
        SpawnType::AtPosition { x, y } => Ok(seq![ComponentView::Position { x, y }]),
        SpawnType::Carried { by } => Ok(seq![ComponentView::InBackpack { owner: by }]),
        SpawnType::Equipped { by } => match equip_slot_of(raws, key) {
            Ok(slot) => Ok(seq![ComponentView::Equipped { owner: by, slot }]),
            Err(e) => Err(e),
        },
    }
}

/// The measure, or one where there is none.
pub open spec fn or_one(size: Option<i32>) -> i32 {
    match size {
        Some(n) => n,
        None => 1,
    }
}

/// The components that give an entity its look: none without a renderable
/// block, else the look and, where the block gives a width or a height, the
/// size in tiles, a missing measure being one.
pub open spec fn look_of(renderable: Option<Renderable>) -> Result<Seq<ComponentView>, SpawnError> {
    match renderable {
        None => Ok(Seq::empty()),
        Some(r) => match renderable_of(r) {
            Err(e) => Err(e),
            Ok(look) => if r.x_size is Some || r.y_size is Some {
                Ok(seq![look, ComponentView::TileSize { x: or_one(r.x_size), y: or_one(r.y_size) }])
            } else {
                Ok(seq![look])
            },
        },
    }
}

/// What every entity that is made of a definition starts with: the marker
/// for saved games, its placement, its look, and its name.
pub open spec fn base_of(
    raws: Raws,
    name: String,
    renderable: Option<Renderable>,
    key: Seq<char>,
    pos: SpawnType,
) -> Result<Seq<ComponentView>, SpawnError> {
    and_then(
        and_then(
            and_then(Ok(seq![ComponentView::SerializeMe]), placement_of(raws, key, pos)),
            look_of(renderable),
        ),
        Ok(seq![ComponentView::Name { name: name@ }]),
    )
}

/// Attaches the placement `pos` to `new_entity`.
pub fn spawn_position(pos: SpawnType, new_entity: EntityBuilder, tag: &str, raws: &RawMaster) -> (r: Result<
    EntityBuilder,
    SpawnError,
>)
    ensures
        builds(r, and_then(Ok(new_entity@), placement_of(raws.definitions(), tag@, pos))),
{
    let eb = match pos {
        SpawnType::AtPosition { x, y } => new_entity.with(Component::Position { x, y }),
        SpawnType::Carried { by } => new_entity.with(Component::InBackpack { owner: by }),
        SpawnType::Equipped { by } => {
            let slot = find_slot_for_equippable_item(tag, raws)?;
            new_entity.with(Component::Equipped { owner: by, slot })
        },
    };
    assert(eb@ =~= new_entity@ + placement_of(raws.definitions(), tag@, pos)->Ok_0);
    Ok(eb)
}

/// Attaches the look of `renderable` to `eb`.
fn attach_look(renderable: &Option<Renderable>, eb: EntityBuilder) -> (r: Result<EntityBuilder, SpawnError>)
    ensures
        builds(r, and_then(Ok(eb@), look_of(*renderable))),
{
    match renderable {
        None => {
            assert(eb@ =~= eb@ + Seq::<ComponentView>::empty());
            Ok(eb)
        },
        Some(renderable) => {
            let look = get_renderable_component(renderable)?;
            let mut next = eb.with(look);
            if renderable.x_size.is_some() || renderable.y_size.is_some() {
                next = next.with(
                    Component::TileSize {
                        x: renderable.x_size.unwrap_or(1),
                        y: renderable.y_size.unwrap_or(1),
                    },
                );
            }
            assert(next@ =~= eb@ + look_of(Some(*renderable))->Ok_0);
            Ok(next)
        },
    }
}

/// Starts the entity of the definition that `indexes` finds for `key` in
/// `entity_list`, and hands out that definition with it.
pub fn spawn_base_entity<'a, T: BaseRawComponent>(
    raws: &RawMaster,
    entity_list: &'a Vec<T>,
    indexes: &NameMap<usize>,
    key: &str,
    pos: SpawnType,
) -> (r: Result<(EntityBuilder, &'a T), SpawnError>)
    ensures
        match lookup(indexes.bindings(), key@) {
            Some(i) => if i < entity_list@.len() {
                let template = entity_list@[i as int];
                match base_of(
                    raws.definitions(),
                    template.spec_name(),
                    template.spec_renderable(),
                    key@,
                    pos,
                ) {
                    Ok(cs) => r matches Ok(p) && p.0@ == cs && *p.1 == template,
                    Err(e) => r matches Err(x) && x == e,
                }
            } else {
                r matches Err(x) && x == SpawnError::MissingDefinition
            },
            None => r matches Err(x) && x == SpawnError::MissingDefinition,
        },
{
    let index = match indexes.get(key) {
        Some(i) => *i,
        None => {
            return Err(SpawnError::MissingDefinition);
        },
    };
    if index >= entity_list.len() {
        return Err(SpawnError::MissingDefinition);
    }
    let entity_template = &entity_list[index];
    let mut eb = EntityBuilder::new().marked();
    assert(eb@ =~= seq![ComponentView::SerializeMe]);
    eb = spawn_position(pos, eb, key, raws)?;
    eb = attach_look(entity_template.renderable(), eb)?;
    let ghost before = eb@;
    eb = eb.with(Component::Name { name: entity_template.name().clone() });
    assert(eb@ =~= before + seq![ComponentView::Name { name: entity_template.spec_name()@ }]);
    Ok((eb, entity_template))
}

/// Whether `r` is the builder, the absence of one, or the error, that
/// `expected` describes.
pub open spec fn builds_if_any(
    r: Result<Option<EntityBuilder>, SpawnError>,
    expected: Result<Option<Seq<ComponentView>>, SpawnError>,
) -> bool {
    match expected {
        Ok(Some(cs)) => r matches Ok(Some(eb)) && eb@ == cs,
        Ok(None) => r matches Ok(None),
        Err(e) => r matches Err(x) && x == e,
    }
}

/// The kind of definition that a spawn key stands for: an item where the
/// catalog has an item of that name, else a mob where it has one, else a
/// prop.
pub open spec fn spawn_type_of(raws: Raws, key: Seq<char>) -> SpawnTableType {
    if item_index_of(raws, key) is Some {
        SpawnTableType::Item
    } else if mob_index_of(raws, key) is Some {
        SpawnTableType::Mob
    } else {
        SpawnTableType::Prop
    }
}

/// The kind of definition that a spawn key stands for.
pub fn spawn_type_by_name(raws: &RawMaster, key: &str) -> (r: SpawnTableType)
    ensures
        r == spawn_type_of(raws.definitions(), key@),
{
    if raws.find_item(key).is_some() {
        SpawnTableType::Item
    } else if raws.find_mob(key).is_some() {
        SpawnTableType::Mob
    } else {
        SpawnTableType::Prop
    }
}

/// The components of the entity that `key` names: those of the item of
/// that name where the catalog has one, else those of the mob of that name,
/// else those of the prop of that name; nothing where the catalog has none
/// of the three.
pub open spec fn entity_of(
    raws: Raws,
    dm: MasterDungeonMap,
    key: Seq<char>,
    pos: SpawnType,
    gold: i32,
) -> Result<Option<Seq<ComponentView>>, SpawnError> {
    let made = if item_index_of(raws, key) is Some {
        item_spawn_of(raws, dm, key, pos)
    } else if mob_index_of(raws, key) is Some {
        mob_entity_of(raws, key, pos, gold)
    } else {
        prop_entity_of(raws, key, pos)
    };
    if item_index_of(raws, key) is None && mob_index_of(raws, key) is None && prop_index_of(
        raws,
        key,
    ) is None {
        Ok(None)
    } else {
        match made {
            Ok(cs) => Ok(Some(cs)),
            Err(e) => Err(e),
        }
    }
}

/// The entities that spawning `key` makes: the entity that `key` names
/// and, where that is a mob, its starting equipment behind it; none where
/// `key` names nothing.
pub open spec fn spawned_of(
    raws: Raws,
    dm: MasterDungeonMap,
    key: Seq<char>,
    pos: SpawnType,
    gold: i32,
    next: usize,
) -> Result<Seq<Seq<ComponentView>>, SpawnError> {
    if item_index_of(raws, key) is None && mob_index_of(raws, key) is Some {
        mob_spawn_of(raws, dm, key, pos, gold, next)
    } else {
        match entity_of(raws, dm, key, pos, gold) {
            Err(e) => Err(e),
            Ok(Some(cs)) => Ok(seq![cs]),
            Ok(None) => Ok(Seq::empty()),
        }
    }
}

/// Whether the catalog has an item, a mob or a prop of the name `key`.
pub open spec fn spawnable(raws: Raws, key: Seq<char>) -> bool {
    item_index_of(raws, key) is Some || mob_index_of(raws, key) is Some || prop_index_of(raws, key) is Some
}

/// Makes the entity that `key` names, an item, else a mob, else a prop,
/// and adds it to `ecs`, a mob with its starting equipment. Nothing is made
/// where `key` names none of them. Where an entity cannot be made, `ecs`
/// stays as it is.
pub fn spawn_named_entity(raws: &RawMaster, ecs: &mut World, key: &str, pos: SpawnType) -> (r: Result<
    Option<Entity>,
    SpawnError,
>)
    ensures
        final(ecs).dm == old(ecs).dm,
        exists|gold: i32| #[trigger]
            mob_gold_allowed(raws.definitions(), key@, gold as int) && match spawned_of(
                raws.definitions(),
                old(ecs).dm,
                key@,
                pos,
                gold,
                old(ecs)@.len() as usize,
            ) {
                Ok(entities) => final(ecs)@ == old(ecs)@ + entities && if spawnable(
                    raws.definitions(),
                    key@,
                ) {
                    r matches Ok(Some(e)) && e.id == old(ecs)@.len()
                } else {
                    r matches Ok(None)
                },
                Err(err) => r matches Err(x) && x == err && final(ecs)@ == old(ecs)@,
            },
{
    if raws.find_item(key).is_some() {
        let r = spawn_named_item(raws, ecs, key, pos);
        proof {
            lemma_gold_exists(raws.definitions(), key@);
            if r is Ok {
                let item = item_spawn_of(raws.definitions(), old(ecs).dm, key@, pos)->Ok_0;
                assert(ecs@ =~= old(ecs)@ + seq![item]);
            }
        }
        match r {
            Ok(e) => Ok(Some(e)),
            Err(e) => Err(e),
        }
    } else if raws.find_mob(key).is_some() {
        match spawn_named_mob(raws, ecs, key, pos) {
            Ok(e) => Ok(Some(e)),
            Err(e) => Err(e),
        }
    } else if raws.find_prop(key).is_some() {
        assert(mob_gold_allowed(raws.definitions(), key@, 0));
        let eb = prop_entity(raws, key, pos)?;
        let e = eb.build(ecs);
        assert(ecs@ =~= old(ecs)@ + seq![eb@]);
        Ok(Some(e))
    } else {
        assert(mob_gold_allowed(raws.definitions(), key@, 0));
        assert(ecs@ =~= old(ecs)@ + Seq::<Seq<ComponentView>>::empty());
        Ok(None)
    }
}

} // verus!
