//! Making the entities of spells.

use vstd::prelude::*;
use vstd::string::*;
use crate::components::{Component, ComponentView, Entity};
use crate::raws::Raws;
use crate::raws::rawmaster::{spell_index_of, RawMaster};
use crate::raws::rawmaster::effects::{apply_effects, effects_of};
use crate::raws::rawmaster::spawn::{and_then, builds_if_any, SpawnError};
use crate::raws::structs::Spell;
use crate::world::{entities_view, EntityBuilder, World};

verus! {

/// The components of the entity that is made of a spell definition: the
/// marker for saved games, the template with the mana cost, the name, and
/// what the spell's effects attach. A spell stands nowhere and has no look.
pub open spec fn spell_of(spell: Spell) -> Result<Seq<ComponentView>, SpawnError> {
    and_then(
        Ok(
            seq![
                ComponentView::SerializeMe,
                ComponentView::SpellTemplate { mana_cost: spell.mana_cost },
                ComponentView::Name { name: spell.name@ },
            ],
        ),
        effects_of(spell.effects@),
    )
}

/// The components of the spell that `key` names, or nothing where it names
/// no spell.
pub open spec fn spell_entity_of(raws: Raws, key: Seq<char>) -> Result<
    Option<Seq<ComponentView>>,
    SpawnError,
> {
    match spell_index_of(raws, key) {
        None => Ok(None),
        Some(i) => match spell_of(raws.spells@[i]) {
            Ok(cs) => Ok(Some(cs)),
            Err(e) => Err(e),
        },
    }
}

/// The entity of the spell that `key` names, ready to be built.
pub fn spell_components(raws: &RawMaster, key: &str) -> (r: Result<Option<EntityBuilder>, SpawnError>)
    ensures
        builds_if_any(r, spell_entity_of(raws.definitions(), key@)),
{
    let index = match raws.find_spell(key) {
        Some(i) => i,
        None => {
            return Ok(None);
        },
    };
    let spell_template = &raws.raws().spells[index];
    let eb = EntityBuilder::new().marked().with(
        Component::SpellTemplate { mana_cost: spell_template.mana_cost },
    ).with(Component::Name { name: spell_template.name.clone() });
    assert(eb@ =~= seq![
        ComponentView::SerializeMe,
        ComponentView::SpellTemplate { mana_cost: spell_template.mana_cost },
        ComponentView::Name { name: spell_template.name@ },
    ]);
    let eb = apply_effects(&spell_template.effects, eb)?;
    Ok(Some(eb))
}

/// Makes the entity of the spell that `key` names and adds it to `ecs`.
/// Nothing is made where `key` names no spell. Where no entity can be made
/// of the spell, `ecs` stays as it is.
pub fn spawn_named_spell(raws: &RawMaster, ecs: &mut World, key: &str) -> (r: Result<
    Option<Entity>,
    SpawnError,
>)
    ensures
        final(ecs).dm == old(ecs).dm,
        match spell_entity_of(raws.definitions(), key@) {
            Ok(Some(cs)) => r matches Ok(Some(e)) && e.id == old(ecs)@.len() && final(ecs)@ == old(
                ecs,
            )@.push(cs),
            Ok(None) => r matches Ok(None) && final(ecs)@ == old(ecs)@,
            Err(err) => r matches Err(x) && x == err && final(ecs)@ == old(ecs)@,
        },
{
    match spell_components(raws, key)? {
        Some(eb) => Ok(Some(eb.build(ecs))),
        None => Ok(None),
    }
}

/// The entities that the spells of `list` make: for each, in order, the
/// entity of the spell that its name names in the catalog.
pub open spec fn spells_of(raws: Raws, list: Seq<Spell>) -> Result<Seq<Seq<ComponentView>>, SpawnError>
    decreases list.len(),
{
    if list.len() == 0 {
        Ok(Seq::empty())
    } else {
        match spells_of(raws, list.drop_last()) {
            Err(e) => Err(e),
            Ok(before) => match spell_entity_of(raws, list.last().name@) {
                Err(e) => Err(e),
                Ok(Some(cs)) => Ok(before.push(cs)),
                Ok(None) => Ok(before),
            },
        }
    }
}

/// An error among the first spells is the error of the whole list.
pub proof fn lemma_spells_error(raws: Raws, list: Seq<Spell>, i: int)
    requires
        0 <= i < list.len(),
        spells_of(raws, list.take(i + 1)) is Err,
    ensures
        spells_of(raws, list) == spells_of(raws, list.take(i + 1)),
    decreases list.len() - i,
{
    if i + 1 == list.len() {
        assert(list.take(i + 1) =~= list);
    } else {
        assert(list.take(i + 2).drop_last() =~= list.take(i + 1));
        lemma_spells_error(raws, list, i + 1);
    }
}

/// Makes an entity of every spell of the catalog, in the catalog's order,
/// and adds them to `ecs`. Where one of them cannot be made, `ecs` stays as
/// it is.
#[verifier::loop_isolation(false)]
pub fn spawn_all_spells(raws: &RawMaster, ecs: &mut World) -> (r: Result<(), SpawnError>)
    ensures
        final(ecs).dm == old(ecs).dm,
        match spells_of(raws.definitions(), raws.definitions().spells@) {
            Ok(entities) => r is Ok && final(ecs)@ == old(ecs)@ + entities,
            Err(e) => r matches Err(x) && x == e && final(ecs)@ == old(ecs)@,
        },
{
    let spells = &raws.raws().spells;
    let mut list: Vec<Vec<Component>> = Vec::new();
    assert(entities_view(list@) =~= Seq::<Seq<ComponentView>>::empty());
    let mut i: usize = 0;
    while i < spells.len()
        invariant
            i <= spells.len(),
            spells_of(raws.definitions(), spells@.take(i as int)) matches Ok(entities) && entities_view(
                list@,
            ) == entities,
        decreases spells.len() - i,
    {
        let spell = &spells[i];
        proof {
            assert(spells@.take(i + 1).last() == *spell);
            assert(spells@.take(i + 1).drop_last() =~= spells@.take(i as int));
        }
        match spell_components(raws, spell.name.as_str()) {
            Ok(Some(eb)) => {
                eb.build_into(&mut list);
            },
            Ok(None) => {},
            Err(e) => {
                proof {
                    lemma_spells_error(raws.definitions(), spells@, i as int);
                }
                return Err(e);
            },
        }
        i = i + 1;
    }
    assert(spells@.take(i as int) =~= spells@);
    ecs.add_all(list);
    Ok(())
}

} // verus!
