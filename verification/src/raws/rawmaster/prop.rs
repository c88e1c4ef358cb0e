//! Making the entity of a prop.

use vstd::prelude::*;
use vstd::string::*;
use crate::color::{color_of, parse_hex_color};
use crate::components::{Component, ComponentView, Entity};
use crate::name_map::lemma_lookup_position;
use crate::raws::Raws;
use crate::raws::rawmaster::{prop_index_of, RawMaster};
use crate::raws::rawmaster::effects::{apply_effects, effects_of};
use crate::raws::rawmaster::mob::{light_source, light_source_of};
use crate::raws::rawmaster::spawn::{
    and_then, base_of, builds, spawn_base_entity, SpawnError, SpawnType,
};
use crate::raws::structs::{names_of, EntryTrigger, MobLight, Prop};
use crate::world::{EntityBuilder, World};

verus! {

/// The marker, where the flag is set.
pub open spec fn flag_of(flag: Option<bool>, marker: ComponentView) -> Seq<ComponentView> {
    if flag == Some(true) {
        seq![marker]
    } else {
        Seq::empty()
    }
}

/// The door, open or closed, where the prop is one.
pub open spec fn door_of(door_open: Option<bool>) -> Seq<ComponentView> {
    match door_open {
        Some(open) => seq![ComponentView::Door { open }],
        None => Seq::empty(),
    }
}

/// What an entry trigger attaches: the marker of a trap and what the
/// trap's effects attach.
pub open spec fn trigger_of(trigger: Option<EntryTrigger>) -> Result<Seq<ComponentView>, SpawnError> {
    match trigger {
        None => Ok(Seq::empty()),
        Some(t) => and_then(Ok(seq![ComponentView::EntryTrigger]), effects_of(t.effects@)),
    }
}

/// What the light of a prop attaches: the light and a sight of the same
/// range by which it is worked out what the light falls on.
pub open spec fn lamp_of(light: Option<MobLight>) -> Result<Seq<ComponentView>, SpawnError> {
    match light {
        None => Ok(Seq::empty()),
        Some(l) => match light_source_of(l.range, color_of(l.color@)) {
            Ok(source) => Ok(seq![source, ComponentView::Viewshed { range: l.range, dirty: true }]),
            Err(e) => Err(e),
        },
    }
}

/// What a prop definition attaches on top of what every entity starts with.
pub open spec fn prop_parts_of(prop: Prop) -> Result<Seq<ComponentView>, SpawnError> {
    and_then(
        and_then(
            Ok(
                flag_of(prop.hidden, ComponentView::Hidden) + flag_of(
                    prop.blocks_visibility,
                    ComponentView::BlocksVisibility,
                ) + door_of(prop.door_open),
            ),
            trigger_of(prop.entry_trigger),
        ),
        lamp_of(prop.light),
    )
}

/// The components of the prop that `key` names. A key that names no prop
/// is an error.
pub open spec fn prop_entity_of(raws: Raws, key: Seq<char>, pos: SpawnType) -> Result<
    Seq<ComponentView>,
    SpawnError,
> {
    match prop_index_of(raws, key) {
        Some(i) => and_then(
            base_of(raws, raws.props@[i].name, raws.props@[i].renderable, key, pos),
            prop_parts_of(raws.props@[i]),
        ),
        None => Err(SpawnError::MissingDefinition),
    }
}

fn attach_flags(prop: &Prop, eb: EntityBuilder) -> (r: EntityBuilder)
    ensures
        r@ == eb@ + (flag_of(prop.hidden, ComponentView::Hidden) + flag_of(
            prop.blocks_visibility,
            ComponentView::BlocksVisibility,
        ) + door_of(prop.door_open)),
{
    let mut r = eb;
    if let Some(hidden) = prop.hidden {
        if hidden {
            r = r.with(Component::Hidden);
        }
    }
    if let Some(blocks_visibility) = prop.blocks_visibility {
        if blocks_visibility {
            r = r.with(Component::BlocksVisibility);
        }
    }
    if let Some(door_open) = prop.door_open {
        r = r.with(Component::Door { open: door_open });
    }
    assert(r@ =~= eb@ + (flag_of(prop.hidden, ComponentView::Hidden) + flag_of(
        prop.blocks_visibility,
        ComponentView::BlocksVisibility,
    ) + door_of(prop.door_open)));
    r
}

fn attach_trigger(trigger: &Option<EntryTrigger>, eb: EntityBuilder) -> (r: Result<
    EntityBuilder,
    SpawnError,
>)
    ensures
        builds(r, and_then(Ok(eb@), trigger_of(*trigger))),
{
    match trigger {
        None => {
            assert(eb@ =~= eb@ + Seq::<ComponentView>::empty());
            Ok(eb)
        },
        Some(entry_trigger) => {
            let trapped = eb.with(Component::EntryTrigger);
            let done = apply_effects(&entry_trigger.effects, trapped)?;
            assert(done@ =~= eb@ + trigger_of(Some(*entry_trigger))->Ok_0);
            Ok(done)
        },
    }
}

fn attach_lamp(light: &Option<MobLight>, eb: EntityBuilder) -> (r: Result<EntityBuilder, SpawnError>)
    ensures
        builds(r, and_then(Ok(eb@), lamp_of(*light))),
{
    match light {
        None => {
            assert(eb@ =~= eb@ + Seq::<ComponentView>::empty());
            Ok(eb)
        },
        Some(light) => {
            let source = light_source(light.range, parse_hex_color(light.color.as_str()))?;
            let done = eb.with(source).with(Component::Viewshed { range: light.range, dirty: true });
            assert(done@ =~= eb@ + lamp_of(Some(*light))->Ok_0);
            Ok(done)
        },
    }
}

/// Attaches to `new_entity` what the prop definition attaches.
pub fn prop_components(new_entity: EntityBuilder, prop_template: &Prop) -> (r: Result<
    EntityBuilder,
    SpawnError,
>)
    ensures
        builds(r, and_then(Ok(new_entity@), prop_parts_of(*prop_template))),
{
    let flagged = attach_flags(prop_template, new_entity);
    let trapped = attach_trigger(&prop_template.entry_trigger, flagged)?;
    let lit = attach_lamp(&prop_template.light, trapped)?;
    assert(lit@ =~= new_entity@ + prop_parts_of(*prop_template)->Ok_0);
    Ok(lit)
}

/// Finishes the entity of a prop, started by `spawn_base_entity`, and adds
/// it to `ecs`. Where no entity can be made, `ecs` stays as it is.
pub fn spawn_named_prop(new_entity: EntityBuilder, prop_template: &Prop, ecs: &mut World) -> (r: Result<
    Entity,
    SpawnError,
>)
    ensures
        final(ecs).dm == old(ecs).dm,
        match prop_parts_of(*prop_template) {
            Ok(cs) => r matches Ok(e) && e.id == old(ecs)@.len() && final(ecs)@ == old(ecs)@.push(
                new_entity@ + cs,
            ),
            Err(err) => r matches Err(x) && x == err && final(ecs)@ == old(ecs)@,
        },
{
    let eb = prop_components(new_entity, prop_template)?;
    Ok(eb.build(ecs))
}

/// The entity of the prop that `key` names, ready to be built.
pub fn prop_entity(raws: &RawMaster, key: &str, pos: SpawnType) -> (r: Result<EntityBuilder, SpawnError>)
    ensures
        builds(r, prop_entity_of(raws.definitions(), key@, pos)),
{
    let indexes = raws.prop_index();
    proof {
        lemma_lookup_position(indexes.bindings(), names_of(raws.definitions().props@), key@);
    }
    let (eb, prop) = spawn_base_entity(raws, &raws.raws().props, indexes, key, pos)?;
    prop_components(eb, prop)
}

} // verus!
