//! The catalog: loading, lookups by name, tables, factions, vendors.

use vstd::prelude::*;
use rltk::RandomNumberGenerator;
use crate::color::{color_of, parse_hex_color, Color};
use crate::components::{texts_view, Component, ComponentView, Entity, EquipmentSlot};
use crate::name_map::{last_position, lemma_last_position, lemma_lookup_position, lookup, NameMap};
use crate::random_table::{cumulative, WeightedTable};
use crate::raws::structs::{
    names_of, FactionInfo, Item, LootDrop, Named, Reaction, Real, Renderable, SpawnTableEntry,
};
use crate::raws::Raws;
use crate::toolkit::{cp437_of, to_cp437};
use crate::sequence::{
    filter_map, lemma_filter_map_complete, lemma_filter_map_sound, lemma_filter_map_step,
};
use crate::text::str_eq;
use crate::world::{entity_name, holds_spell_template, is_spell_named, World};

pub mod effects;
pub mod item;
pub mod laws;
pub mod mob;
pub mod prop;
pub mod spawn;
pub mod spell;

use spawn::SpawnError;

verus! {

/// The index that `build_index` makes of a list of names: one entry for each
/// position, holding the name that stands there and the position.
pub open spec fn mirrors(entries: Seq<(String, usize)>, names: Seq<Seq<char>>) -> bool {
    &&& entries.len() == names.len()
    &&& forall|i: int|
        0 <= i < entries.len() ==> (#[trigger] entries[i]).0@ == names[i] && entries[i].1 == i
}

/// The reaction matrix that `build_faction_index` makes of the faction
/// definitions: one row for each definition, under its name, holding its
/// responses as they were written.
pub open spec fn mirrors_factions(
    entries: Seq<(String, NameMap<Reaction>)>,
    table: Seq<FactionInfo>,
) -> bool {
    &&& entries.len() == table.len()
    &&& forall|i: int|
        0 <= i < entries.len() ==> (#[trigger] entries[i]).0 == table[i].name
            && entries[i].1.bindings() == table[i].responses@
}

/// Where `key` is found among the item definitions.
pub open spec fn item_index_of(raws: Raws, key: Seq<char>) -> Option<int> {
    last_position(names_of(raws.items@), key)
}

/// Where `key` is found among the mob definitions.
pub open spec fn mob_index_of(raws: Raws, key: Seq<char>) -> Option<int> {
    last_position(names_of(raws.mobs@), key)
}

/// Where `key` is found among the prop definitions.
pub open spec fn prop_index_of(raws: Raws, key: Seq<char>) -> Option<int> {
    last_position(names_of(raws.props@), key)
}

/// Where `key` is found among the loot tables.
pub open spec fn loot_index_of(raws: Raws, key: Seq<char>) -> Option<int> {
    last_position(names_of(raws.loot_tables@), key)
}

/// Where `key` is found among the spell definitions.
pub open spec fn spell_index_of(raws: Raws, key: Seq<char>) -> Option<int> {
    last_position(names_of(raws.spells@), key)
}

/// The reaction that a response word of a faction definition stands for:
/// to ignore or to flee where the word says so, else to attack.
pub open spec fn word_reaction_of(word: Seq<char>) -> Reaction {
    if word == "ignore"@ {
        Reaction::Ignore
    } else if word == "flee"@ {
        Reaction::Flee
    } else {
        Reaction::Attack
    }
}

/// The reaction that a response word of a faction definition stands for.
pub fn reaction_of_word(word: &str) -> (r: Reaction)
    ensures
        r == word_reaction_of(word@),
{
    if str_eq(word, "ignore") {
        Reaction::Ignore
    } else if str_eq(word, "flee") {
        Reaction::Flee
    } else {
        Reaction::Attack
    }
}

/// How `my_faction` reacts to `their_faction`. A faction without a
/// definition ignores everyone. A defined faction answers with its response
/// to `their_faction` where it has one, else with its response to `Default`
/// where it has that, else it ignores.
pub open spec fn reaction_of(raws: Raws, my_faction: Seq<char>, their_faction: Seq<char>) -> Reaction {
    match last_position(names_of(raws.faction_table@), my_faction) {
        None => Reaction::Ignore,
        Some(i) => {
            let responses = raws.faction_table@[i].responses@;
            match lookup(responses, their_faction) {
                Some(r) => r,
                None => match lookup(responses, "Default"@) {
                    Some(r) => r,
                    None => Reaction::Ignore,
                },
            }
        },
    }
}

/// A faction without a definition ignores everyone.
pub proof fn lemma_unknown_faction_ignores(raws: Raws, my_faction: Seq<char>, their_faction: Seq<char>)
    requires
        forall|i: int| 0 <= i < raws.faction_table@.len() ==> (#[trigger] raws.faction_table@[i]).name@ != my_faction,
    ensures
        reaction_of(raws, my_faction, their_faction) == Reaction::Ignore,
{
    let names = names_of(raws.faction_table@);
    lemma_last_position(names, my_faction);
    if last_position(names, my_faction) is Some {
        let i = last_position(names, my_faction)->0;
        assert(names[i] == raws.faction_table@[i].name@);
    }
}

/// A faction whose definition is the only one of its name, and holds no
/// response to `their_faction`, answers with its response to `Default`.
pub proof fn lemma_default_reaction(raws: Raws, i: int, their_faction: Seq<char>)
    requires
        0 <= i < raws.faction_table@.len(),
        forall|j: int|
            0 <= j < raws.faction_table@.len() && j != i ==> (#[trigger] raws.faction_table@[j]).name@
                != raws.faction_table@[i].name@,
        lookup(raws.faction_table@[i].responses@, their_faction) is None,
    ensures
        reaction_of(raws, raws.faction_table@[i].name@, their_faction) == match lookup(
            raws.faction_table@[i].responses@,
            "Default"@,
        ) {
            Some(r) => r,
            None => Reaction::Ignore,
        },
{
    let names = names_of(raws.faction_table@);
    let my_faction = raws.faction_table@[i].name@;
    lemma_last_position(names, my_faction);
    assert(names[i] == my_faction);
    let found = last_position(names, my_faction)->0;
    assert(names[found] == raws.faction_table@[found].name@);
}

/// Indexes a list of definitions by name, in one pass.
fn build_index<T: Named>(list: &Vec<T>) -> (index: NameMap<usize>)
    ensures
        mirrors(index.bindings(), names_of(list@)),
{
    let mut index: NameMap<usize> = NameMap::new();
    let mut i: usize = 0;
    while i < list.len()
        invariant
            i <= list.len(),
            mirrors(index.bindings(), names_of(list@).take(i as int)),
        decreases list.len() - i,
    {
        index.insert(list[i].name().clone(), i);
        i = i + 1;
    }
    assert(names_of(list@).take(i as int) =~= names_of(list@));
    index
}

/// Flattens the faction definitions into the reaction matrix.
fn build_faction_index(table: &Vec<FactionInfo>) -> (index: NameMap<NameMap<Reaction>>)
    ensures
        mirrors_factions(index.bindings(), table@),
{
    let mut index: NameMap<NameMap<Reaction>> = NameMap::new();
    let mut i: usize = 0;
    while i < table.len()
        invariant
            i <= table.len(),
            mirrors_factions(index.bindings(), table@.take(i as int)),
        decreases table.len() - i,
    {
        let faction = &table[i];
        let mut reactions: NameMap<Reaction> = NameMap::new();
        let mut j: usize = 0;
        while j < faction.responses.len()
            invariant
                j <= faction.responses.len(),
                reactions.bindings() == faction.responses@.take(j as int),
            decreases faction.responses.len() - j,
        {
            let other = &faction.responses[j];
            reactions.insert(other.0.clone(), other.1);
            j = j + 1;
            assert(reactions.bindings() =~= faction.responses@.take(j as int));
        }
        assert(faction.responses@.take(j as int) =~= faction.responses@);
        index.insert(faction.name.clone(), reactions);
        i = i + 1;
    }
    assert(table@.take(i as int) =~= table@);
    index
}

/// The catalog: the definitions as they were loaded, with an index by name
/// for each kind that is looked up, and the matrix of faction reactions.
pub struct RawMaster {
    raws: Raws,
    item_index: NameMap<usize>,
    mob_index: NameMap<usize>,
    prop_index: NameMap<usize>,
    loot_index: NameMap<usize>,
    faction_index: NameMap<NameMap<Reaction>>,
    spell_index: NameMap<usize>,
}

impl RawMaster {
    #[verifier::type_invariant]
    spec fn indexed(self) -> bool {
        &&& mirrors(self.item_index.bindings(), names_of(self.raws.items@))
        &&& mirrors(self.mob_index.bindings(), names_of(self.raws.mobs@))
        &&& mirrors(self.prop_index.bindings(), names_of(self.raws.props@))
        &&& mirrors(self.loot_index.bindings(), names_of(self.raws.loot_tables@))
        &&& mirrors(self.spell_index.bindings(), names_of(self.raws.spells@))
        &&& mirrors_factions(self.faction_index.bindings(), self.raws.faction_table@)
    }

    /// The definitions that the catalog holds.
    pub closed spec fn definitions(&self) -> Raws {
        self.raws
    }

    /// A catalog without any definition.
    pub fn empty() -> (r: RawMaster)
        ensures
            r.definitions().items@.len() == 0,
            r.definitions().mobs@.len() == 0,
            r.definitions().props@.len() == 0,
            r.definitions().spawn_table@.len() == 0,
            r.definitions().loot_tables@.len() == 0,
            r.definitions().faction_table@.len() == 0,
            r.definitions().spells@.len() == 0,
            r.definitions().weapon_traits@.len() == 0,
    {
        RawMaster {
            raws: Raws {
                items: Vec::new(),
                mobs: Vec::new(),
                props: Vec::new(),
                spawn_table: Vec::new(),
                loot_tables: Vec::new(),
                faction_table: Vec::new(),
                spells: Vec::new(),
                weapon_traits: Vec::new(),
            },
            item_index: NameMap::new(),
            mob_index: NameMap::new(),
            prop_index: NameMap::new(),
            loot_index: NameMap::new(),
            faction_index: NameMap::new(),
            spell_index: NameMap::new(),
        }
    }

    /// Replaces what the catalog holds by `raws` and indexes it anew.
    pub fn load(&mut self, raws: Raws)
        ensures
            final(self).definitions() == raws,
    {
        let item_index = build_index(&raws.items);
        let mob_index = build_index(&raws.mobs);
        let prop_index = build_index(&raws.props);
        let loot_index = build_index(&raws.loot_tables);
        let faction_index = build_faction_index(&raws.faction_table);
        let spell_index = build_index(&raws.spells);
        *self = RawMaster {
            raws,
            item_index,
            mob_index,
            prop_index,
            loot_index,
            faction_index,
            spell_index,
        };
    }

    /// The definitions that the catalog holds.
    pub fn raws(&self) -> (r: &Raws)
        ensures
            *r == self.definitions(),
    {
        &self.raws
    }

    /// The index of the item definitions.
    pub fn item_index(&self) -> (r: &NameMap<usize>)
        ensures
            mirrors(r.bindings(), names_of(self.definitions().items@)),
    {
        proof {
            use_type_invariant(self);
        }
        &self.item_index
    }

    /// The index of the mob definitions.
    pub fn mob_index(&self) -> (r: &NameMap<usize>)
        ensures
            mirrors(r.bindings(), names_of(self.definitions().mobs@)),
    {
        proof {
            use_type_invariant(self);
        }
        &self.mob_index
    }

    /// The index of the prop definitions.
    pub fn prop_index(&self) -> (r: &NameMap<usize>)
        ensures
            mirrors(r.bindings(), names_of(self.definitions().props@)),
    {
        proof {
            use_type_invariant(self);
        }
        &self.prop_index
    }
}

fn position_in(index: &NameMap<usize>, key: &str, Ghost(names): Ghost<Seq<Seq<char>>>) -> (r: Option<usize>)
    requires
        mirrors(index.bindings(), names),
    ensures
        match r {
            Some(i) => last_position(names, key@) == Some(i as int) && i < names.len(),
            None => last_position(names, key@) is None,
        },
{
    proof {
        lemma_lookup_position(index.bindings(), names, key@);
    }
    match index.get(key) {
        Some(i) => Some(*i),
        None => None,
    }
}

impl RawMaster {
    /// Where `key` is found among the item definitions.
    pub fn find_item(&self, key: &str) -> (r: Option<usize>)
        ensures
            match r {
                Some(i) => item_index_of(self.definitions(), key@) == Some(i as int) && i
                    < self.definitions().items@.len(),
                None => item_index_of(self.definitions(), key@) is None,
            },
    {
        proof {
            use_type_invariant(self);
        }
        position_in(&self.item_index, key, Ghost(names_of(self.raws.items@)))
    }

    /// Where `key` is found among the mob definitions.
    pub fn find_mob(&self, key: &str) -> (r: Option<usize>)
        ensures
            match r {
                Some(i) => mob_index_of(self.definitions(), key@) == Some(i as int) && i
                    < self.definitions().mobs@.len(),
                None => mob_index_of(self.definitions(), key@) is None,
            },
    {
        proof {
            use_type_invariant(self);
        }
        position_in(&self.mob_index, key, Ghost(names_of(self.raws.mobs@)))
    }

    /// Where `key` is found among the prop definitions.
    pub fn find_prop(&self, key: &str) -> (r: Option<usize>)
        ensures
            match r {
                Some(i) => prop_index_of(self.definitions(), key@) == Some(i as int) && i
                    < self.definitions().props@.len(),
                None => prop_index_of(self.definitions(), key@) is None,
            },
    {
        proof {
            use_type_invariant(self);
        }
        position_in(&self.prop_index, key, Ghost(names_of(self.raws.props@)))
    }

    /// Where `key` is found among the loot tables.
    pub fn find_loot_table(&self, key: &str) -> (r: Option<usize>)
        ensures
            match r {
                Some(i) => loot_index_of(self.definitions(), key@) == Some(i as int) && i
                    < self.definitions().loot_tables@.len(),
                None => loot_index_of(self.definitions(), key@) is None,
            },
    {
        proof {
            use_type_invariant(self);
        }
        position_in(&self.loot_index, key, Ghost(names_of(self.raws.loot_tables@)))
    }

    /// Where `key` is found among the spell definitions.
    pub fn find_spell(&self, key: &str) -> (r: Option<usize>)
        ensures
            match r {
                Some(i) => spell_index_of(self.definitions(), key@) == Some(i as int) && i
                    < self.definitions().spells@.len(),
                None => spell_index_of(self.definitions(), key@) is None,
            },
    {
        proof {
            use_type_invariant(self);
        }
        position_in(&self.spell_index, key, Ghost(names_of(self.raws.spells@)))
    }
}

/// How `my_faction` reacts to `their_faction`.
pub fn faction_reaction(my_faction: &str, their_faction: &str, raws: &RawMaster) -> (r: Reaction)
    ensures
        r == reaction_of(raws.definitions(), my_faction@, their_faction@),
{
    proof {
        use_type_invariant(raws);
        let names = names_of(raws.raws.faction_table@);
        assert forall|i: int| 0 <= i < raws.faction_index.bindings().len() implies (
        #[trigger] raws.faction_index.bindings()[i]).0@ == names[i] by {}
        lemma_lookup_position(raws.faction_index.bindings(), names, my_faction@);
    }
    match raws.faction_index.get(my_faction) {
        Some(mf) => {
            match mf.get(their_faction) {
                Some(r) => *r,
                None => match mf.get("Default") {
                    Some(r) => *r,
                    None => Reaction::Ignore,
                },
            }
        },
        None => Reaction::Ignore,
    }
}

/// Whether a row of the spawn table may be used on `depth`.
pub open spec fn eligible(e: SpawnTableEntry, depth: int) -> bool {
    e.min_depth <= depth <= e.max_depth
}

/// The weight of a row of the spawn table on `depth`: its own weight, and the
/// depth on top where the row asks for that.
pub open spec fn resolved_weight(e: SpawnTableEntry, depth: int) -> int {
    if e.add_map_depth_to_weight == Some(true) {
        e.weight + depth
    } else {
        e.weight as int
    }
}

/// What a row of the spawn table adds to the table of `depth`: its name and
/// its weight on that depth where it may be used there, else nothing.
pub open spec fn spawn_entry(depth: int) -> spec_fn(SpawnTableEntry) -> Option<(Seq<char>, int)> {
    |e: SpawnTableEntry|
        if eligible(e, depth) {
            Some((e.name@, resolved_weight(e, depth)))
        } else {
            None
        }
}

/// The spawn table of `depth`: the rows that may be used there, in their
/// order, each with its name and its weight on that depth.
pub open spec fn spawn_table_of(entries: Seq<SpawnTableEntry>, depth: int) -> Seq<(Seq<char>, int)> {
    filter_map(entries, spawn_entry(depth))
}

/// Every entry of the spawn table of `depth` comes from a row whose range of
/// depths holds `depth`, and has that row's name.
pub proof fn lemma_spawn_table_entries_eligible(entries: Seq<SpawnTableEntry>, depth: int, i: int)
    requires
        0 <= i < spawn_table_of(entries, depth).len(),
    ensures
        exists|j: int|
            0 <= j < entries.len() && (#[trigger] entries[j]).min_depth <= depth
                <= entries[j].max_depth && spawn_table_of(entries, depth)[i].0 == entries[j].name@
                && spawn_table_of(entries, depth)[i].1 == resolved_weight(entries[j], depth),
{
    lemma_filter_map_sound(entries, spawn_entry(depth), i);
}

/// The weight of an entry of the spawn table of `depth` is the weight of the
/// row it comes from, with the depth on top if and only if the row asks for
/// that.
pub proof fn lemma_spawn_table_weights(entries: Seq<SpawnTableEntry>, depth: int, i: int)
    requires
        0 <= i < spawn_table_of(entries, depth).len(),
    ensures
        exists|j: int|
            0 <= j < entries.len() && spawn_table_of(entries, depth)[i].0 == (
            #[trigger] entries[j]).name@ && spawn_table_of(entries, depth)[i].1 == if entries[j].add_map_depth_to_weight == Some(true) {
                entries[j].weight + depth
            } else {
                entries[j].weight as int
            },
{
    lemma_filter_map_sound(entries, spawn_entry(depth), i);
}

/// Every row whose range of depths holds `depth` has an entry in the spawn
/// table of `depth`.
pub proof fn lemma_spawn_table_holds_eligible(entries: Seq<SpawnTableEntry>, depth: int, j: int)
    requires
        0 <= j < entries.len(),
        entries[j].min_depth <= depth <= entries[j].max_depth,
    ensures
        exists|i: int|
            0 <= i < spawn_table_of(entries, depth).len() && #[trigger] spawn_table_of(
                entries,
                depth,
            )[i] == (entries[j].name@, resolved_weight(entries[j], depth)),
{
    let f = spawn_entry(depth);
    lemma_filter_map_complete(entries, f, j);
    let i = choose|i: int|
        0 <= i < filter_map(entries, f).len() && Some(#[trigger] filter_map(entries, f)[i]) == f(
            entries[j],
        );
    assert(spawn_table_of(entries, depth)[i] == (entries[j].name@, resolved_weight(entries[j], depth)));
}

/// The weighted table of what may spawn on `depth`.
pub fn get_spawn_table_for_depth(raws: &RawMaster, depth: i32) -> (rt: WeightedTable)
    ensures
        rt@ == spawn_table_of(raws.definitions().spawn_table@, depth as int),
{
    let table = &raws.raws.spawn_table;
    let mut rt = WeightedTable::new();
    let mut i: usize = 0;
    while i < table.len()
        invariant
            i <= table.len(),
            rt@ == spawn_table_of(table@.take(i as int), depth as int),
        decreases table.len() - i,
    {
        let e = &table[i];
        proof {
            lemma_filter_map_step(table@, spawn_entry(depth as int), i as int);
        }
        if depth >= e.min_depth && depth <= e.max_depth {
            let mut weight: i64 = e.weight as i64;
            if let Some(true) = e.add_map_depth_to_weight {
                weight = weight + depth as i64;
            }
            rt.add(e.name.clone(), weight);
        }
        i = i + 1;
    }
    assert(table@.take(i as int) =~= table@);
    rt
}

/// The equipment slot that a slot name stands for. A name that stands for
/// none is taken for the melee slot.
pub open spec fn slot_of(slot: Seq<char>) -> EquipmentSlot {
    if slot == "Shield"@ {
        EquipmentSlot::Shield
    } else if slot == "Head"@ {
        EquipmentSlot::Head
    } else if slot == "Torso"@ {
        EquipmentSlot::Torso
    } else if slot == "Legs"@ {
        EquipmentSlot::Legs
    } else if slot == "Feet"@ {
        EquipmentSlot::Feet
    } else if slot == "Hands"@ {
        EquipmentSlot::Hands
    } else {
        EquipmentSlot::Melee
    }
}

/// Whether `slot` is the name of an equipment slot.
pub open spec fn is_slot_name(slot: Seq<char>) -> bool {
    slot == "Shield"@ || slot == "Head"@ || slot == "Torso"@ || slot == "Legs"@ || slot == "Feet"@
        || slot == "Hands"@ || slot == "Melee"@
}

/// A name that is the name of no slot is taken for the melee slot.
pub proof fn lemma_unknown_slot_is_melee(slot: Seq<char>)
    requires
        !is_slot_name(slot),
    ensures
        slot_of(slot) == EquipmentSlot::Melee,
{
}

/// Whether `slot` is the name of an equipment slot. A name that is none is
/// taken for the melee slot, of which a caller may want to warn.
pub fn is_known_slot(slot: &str) -> (r: bool)
    ensures
        r == is_slot_name(slot@),
{
    str_eq(slot, "Shield") || str_eq(slot, "Head") || str_eq(slot, "Torso") || str_eq(slot, "Legs")
        || str_eq(slot, "Feet") || str_eq(slot, "Hands") || str_eq(slot, "Melee")
}

/// The equipment slot that a slot name stands for.
pub fn string_to_slot(slot: &str) -> (r: EquipmentSlot)
    ensures
        r == slot_of(slot@),
{
    if str_eq(slot, "Shield") {
        EquipmentSlot::Shield
    } else if str_eq(slot, "Head") {
        EquipmentSlot::Head
    } else if str_eq(slot, "Torso") {
        EquipmentSlot::Torso
    } else if str_eq(slot, "Legs") {
        EquipmentSlot::Legs
    } else if str_eq(slot, "Feet") {
        EquipmentSlot::Feet
    } else if str_eq(slot, "Hands") {
        EquipmentSlot::Hands
    } else {
        EquipmentSlot::Melee
    }
}

/// The slot in which the item `tag` is equipped: the melee slot for a
/// weapon, else the slot that its wearable block names. An item that is
/// neither cannot be equipped, and a tag that names no item cannot either.
pub open spec fn equip_slot_of(raws: Raws, tag: Seq<char>) -> Result<EquipmentSlot, SpawnError> {
    match item_index_of(raws, tag) {
        None => Err(SpawnError::MissingDefinition),
        Some(i) => {
            let item = raws.items@[i];
            if item.weapon is Some {
                Ok(EquipmentSlot::Melee)
            } else {
                match item.wearable {
                    Some(wearable) => Ok(slot_of(wearable.slot@)),
                    None => Err(SpawnError::MissingEquipSlot),
                }
            }
        },
    }
}

/// The slot in which the item `tag` is equipped.
pub fn find_slot_for_equippable_item(tag: &str, raws: &RawMaster) -> (r: Result<
    EquipmentSlot,
    SpawnError,
>)
    ensures
        r == equip_slot_of(raws.definitions(), tag@),
{
    let item_index = match raws.find_item(tag) {
        Some(i) => i,
        None => {
            return Err(SpawnError::MissingDefinition);
        },
    };
    let item = &raws.raws.items[item_index];
    if item.weapon.is_some() {
        return Ok(EquipmentSlot::Melee);
    }
    match &item.wearable {
        Some(wearable) => Ok(string_to_slot(wearable.slot.as_str())),
        None => Err(SpawnError::MissingEquipSlot),
    }
}

/// The look of an entity that is drawn with `glyph` in the colours `fg`
/// and `bg`. There is none where either colour is missing.
pub open spec fn look_of_parts(glyph: u16, fg: Option<Color>, bg: Option<Color>, order: i32) -> Result<
    ComponentView,
    SpawnError,
> {
    match (fg, bg) {
        (Some(fg), Some(bg)) => Ok(ComponentView::Renderable { glyph, fg, bg, render_order: order }),
        _ => Err(SpawnError::InvalidColor),
    }
}

/// The look that a definition's renderable block gives an entity: the
/// glyph of the first character of the block's glyph text, the block's two
/// colour codes as colours, and its drawing order. A block without such a
/// character gives none, and neither does one with a colour code that
/// denotes no colour.
pub open spec fn renderable_of(renderable: Renderable) -> Result<ComponentView, SpawnError> {
    if renderable.glyph@.len() == 0 {
        Err(SpawnError::MissingGlyph)
    } else {
        look_of_parts(
            cp437_of(renderable.glyph@[0]),
            color_of(renderable.fg@),
            color_of(renderable.bg@),
            renderable.order,
        )
    }
}

/// The look of an entity that is drawn with `glyph` in the colours `fg`
/// and `bg`.
pub fn renderable_from_parts(glyph: u16, fg: Option<Color>, bg: Option<Color>, order: i32) -> (r: Result<
    Component,
    SpawnError,
>)
    ensures
        match r {
            Ok(c) => look_of_parts(glyph, fg, bg, order) == Ok::<ComponentView, SpawnError>(c@),
            Err(e) => look_of_parts(glyph, fg, bg, order) == Err::<ComponentView, SpawnError>(e),
        },
{
    match (fg, bg) {
        (Some(fg), Some(bg)) => Ok(Component::Renderable { glyph, fg, bg, render_order: order }),
        _ => Err(SpawnError::InvalidColor),
    }
}

/// The look that a renderable block gives an entity.
pub fn get_renderable_component(renderable: &Renderable) -> (r: Result<Component, SpawnError>)
    ensures
        match r {
            Ok(c) => renderable_of(*renderable) == Ok::<ComponentView, SpawnError>(c@),
            Err(e) => renderable_of(*renderable) == Err::<ComponentView, SpawnError>(e),
        },
{
    if renderable.glyph.as_str().unicode_len() == 0 {
        return Err(SpawnError::MissingGlyph);
    }
    let glyph = to_cp437(renderable.glyph.as_str().get_char(0));
    let fg = parse_hex_color(renderable.fg.as_str());
    let bg = parse_hex_color(renderable.bg.as_str());
    renderable_from_parts(glyph, fg, bg, renderable.order)
}

/// A loot table as a weighted table: each drop with its name and weight.
pub open spec fn drops_view(drops: Seq<LootDrop>) -> Seq<(Seq<char>, int)> {
    drops.map_values(|d: LootDrop| (d.name@, d.weight as int))
}

/// The weighted table of the loot table `table`, or nothing where the
/// catalog has no loot table of that name.
pub fn get_loot_table(raws: &RawMaster, table: &str) -> (r: Option<WeightedTable>)
    ensures
        match r {
            Some(rt) => loot_index_of(raws.definitions(), table@) matches Some(i) && rt@
                == drops_view(raws.definitions().loot_tables@[i].drops@),
            None => loot_index_of(raws.definitions(), table@) is None,
        },
{
    let index = match raws.find_loot_table(table) {
        Some(i) => i,
        None => {
            return None;
        },
    };
    let drops = &raws.raws.loot_tables[index].drops;
    let mut rt = WeightedTable::new();
    let mut i: usize = 0;
    while i < drops.len()
        invariant
            i <= drops.len(),
            rt@ == drops_view(drops@.take(i as int)),
        decreases drops.len() - i,
    {
        rt.add(drops[i].name.clone(), drops[i].weight as i64);
        i = i + 1;
        assert(rt@ =~= drops_view(drops@.take(i as int)));
    }
    assert(drops@.take(i as int) =~= drops@);
    Some(rt)
}

/// Draws an item from the loot table `table`, each drop with a chance in
/// proportion to its weight. Nothing comes out where the catalog has no such
/// table, or where no drop of the table has a weight above zero.
pub fn get_item_drop(raws: &RawMaster, table: &str, rng: &mut RandomNumberGenerator) -> (r: Option<
    String,
>)
    ensures
        match loot_index_of(raws.definitions(), table@) {
            None => r is None,
            Some(i) => {
                let drops = drops_view(raws.definitions().loot_tables@[i].drops@);
                &&& r is Some <==> cumulative(drops, drops.len() as int) > 0
                &&& r matches Some(name) ==> exists|j: int|
                    0 <= j < drops.len() && drops[j].1 > 0 && name@ == drops[j].0
            },
        },
{
    match get_loot_table(raws, table) {
        Some(rt) => rt.roll(rng),
        None => None,
    }
}

/// Whether `name` is one of `list`.
pub open spec fn listed(list: Seq<String>, name: Seq<char>) -> bool {
    exists|i: int| 0 <= i < list.len() && (#[trigger] list[i])@ == name
}

fn is_listed(list: &[String], name: &str) -> (r: bool)
    ensures
        r == listed(list@, name@),
{
    let mut i: usize = 0;
    while i < list.len()
        invariant
            i <= list.len(),
            forall|j: int| 0 <= j < i ==> (#[trigger] list@[j])@ != name@,
        decreases list.len() - i,
    {
        if str_eq(list[i].as_str(), name) {
            return true;
        }
        i = i + 1;
    }
    false
}

/// What a vendor of `categories` offers of an item: its name and its base
/// value, where the item has a vendor category that is one of `categories`
/// and has a base value; else nothing.
pub open spec fn vendor_offer(categories: Seq<String>) -> spec_fn(Item) -> Option<(Seq<char>, Real)> {
    |item: Item|
        match (item.vendor_category, item.base_value) {
            (Some(cat), Some(value)) => if listed(categories, cat@) {
                Some((item.name@, value))
            } else {
                None
            },
            _ => None,
        }
}

/// Names with prices, as mathematical values.
pub open spec fn offers_view(offers: Seq<(String, Real)>) -> Seq<(Seq<char>, Real)> {
    offers.map_values(|o: (String, Real)| (o.0@, o.1))
}

/// What a vendor of `categories` sells: each item of one of these
/// categories that has a base value, in the catalog's order, at that value.
pub fn get_vendor_items(categories: &[String], raws: &RawMaster) -> (result: Vec<(String, Real)>)
    ensures
        offers_view(result@) == filter_map(raws.definitions().items@, vendor_offer(categories@)),
{
    let items = &raws.raws.items;
    let mut result: Vec<(String, Real)> = Vec::new();
    let mut i: usize = 0;
    while i < items.len()
        invariant
            i <= items.len(),
            offers_view(result@) == filter_map(items@.take(i as int), vendor_offer(categories@)),
        decreases items.len() - i,
    {
        let item = &items[i];
        let ghost before = offers_view(result@);
        proof {
            lemma_filter_map_step(items@, vendor_offer(categories@), i as int);
        }
        if let Some(cat) = &item.vendor_category {
            if let Some(value) = item.base_value {
                if is_listed(categories, cat.as_str()) {
                    result.push((item.name.clone(), value));
                    assert(offers_view(result@) =~= before.push((item.name@, value)));
                }
            }
        }
        i = i + 1;
    }
    assert(items@.take(i as int) =~= items@);
    result
}

/// The name of an item if it is a magic item of the naming category
/// `naming`, else nothing.
pub open spec fn named_as(naming: Seq<char>) -> spec_fn(Item) -> Option<Seq<char>> {
    |item: Item|
        match item.magic {
            Some(magic) => if magic.naming@ == naming {
                Some(item.name@)
            } else {
                None
            },
            None => None,
        }
}

fn tags_named(raws: &RawMaster, naming: &str) -> (result: Vec<String>)
    ensures
        texts_view(result@) == filter_map(raws.definitions().items@, named_as(naming@)),
{
    let items = &raws.raws.items;
    let mut result: Vec<String> = Vec::new();
    let mut i: usize = 0;
    while i < items.len()
        invariant
            i <= items.len(),
            texts_view(result@) == filter_map(items@.take(i as int), named_as(naming@)),
        decreases items.len() - i,
    {
        let item = &items[i];
        let ghost before = texts_view(result@);
        proof {
            lemma_filter_map_step(items@, named_as(naming@), i as int);
        }
        if let Some(magic) = &item.magic {
            if str_eq(magic.naming.as_str(), naming) {
                result.push(item.name.clone());
                assert(texts_view(result@) =~= before.push(item.name@));
            }
        }
        i = i + 1;
    }
    assert(items@.take(i as int) =~= items@);
    result
}

/// The names of the magic items that are named as scrolls.
pub fn get_scroll_tags(raws: &RawMaster) -> (result: Vec<String>)
    ensures
        texts_view(result@) == filter_map(raws.definitions().items@, named_as("scroll"@)),
{
    tags_named(raws, "scroll")
}

/// The names of the magic items that are named as potions.
pub fn get_potion_tags(raws: &RawMaster) -> (result: Vec<String>)
    ensures
        texts_view(result@) == filter_map(raws.definitions().items@, named_as("potion"@)),
{
    tags_named(raws, "potion")
}

/// Whether `tag` names an item with a magic block.
pub fn is_tag_magic(raws: &RawMaster, tag: &str) -> (r: bool)
    ensures
        r == match item_index_of(raws.definitions(), tag@) {
            Some(i) => raws.definitions().items@[i].magic is Some,
            None => false,
        },
{
    match raws.find_item(tag) {
        Some(i) => raws.raws.items[i].magic.is_some(),
        None => false,
    }
}

/// The first entity of `ecs` that is a spell of the name `name`.
pub fn find_spell_entity(ecs: &World, name: &str) -> (r: Option<Entity>)
    ensures
        match r {
            Some(e) => e.id < ecs@.len() && is_spell_named(ecs@[e.id as int], name@) && forall|j: int|
                0 <= j < e.id ==> !is_spell_named(#[trigger] ecs@[j], name@),
            None => forall|j: int| 0 <= j < ecs@.len() ==> !is_spell_named(#[trigger] ecs@[j], name@),
        },
{
    let mut i: usize = 0;
    while i < ecs.entities.len()
        invariant
            i <= ecs.entities.len(),
            forall|j: int| 0 <= j < i ==> !is_spell_named(#[trigger] ecs@[j], name@),
        decreases ecs.entities.len() - i,
    {
        let cs = &ecs.entities[i];
        if holds_spell_template(cs) {
            if let Some(sname) = entity_name(cs) {
                if str_eq(name, sname.as_str()) {
                    return Some(Entity { id: i });
                }
            }
        }
        i = i + 1;
    }
    None
}

/// The name that a name storage holds for `entity`: that of the last row
/// written for it.
pub open spec fn stored_name(names: Seq<(Entity, String)>, entity: Entity) -> Option<Seq<char>>
    decreases names.len(),
{
    if names.len() == 0 {
        None
    } else if names.last().0 == entity {
        Some(names.last().1@)
    } else {
        stored_name(names.drop_last(), entity)
    }
}

/// Whether `entity` has a spell template, by a storage that lists the
/// entities that have one, and the name `name`, by a name storage.
pub open spec fn is_stored_spell(
    names: Seq<(Entity, String)>,
    spell_templates: Seq<Entity>,
    entity: Entity,
    name: Seq<char>,
) -> bool {
    spell_templates.contains(entity) && stored_name(names, entity) == Some(name)
}

fn storage_name(names: &Vec<(Entity, String)>, entity: Entity) -> (r: Option<&String>)
    ensures
        match r {
            Some(name) => stored_name(names@, entity) == Some(name@),
            None => stored_name(names@, entity) is None,
        },
{
    let mut i: usize = names.len();
    assert(names@.take(i as int) =~= names@);
    while i > 0
        invariant
            i <= names.len(),
            stored_name(names@, entity) == stored_name(names@.take(i as int), entity),
        decreases i,
    {
        let ghost prefix = names@.take(i as int);
        i = i - 1;
        assert(prefix.last() == names@[i as int]);
        assert(prefix.drop_last() =~= names@.take(i as int));
        if names[i].0.id == entity.id {
            return Some(&names[i].1);
        }
    }
    None
}

fn storage_holds(storage: &Vec<Entity>, entity: Entity) -> (r: bool)
    ensures
        r == storage@.contains(entity),
{
    let mut i: usize = 0;
    while i < storage.len()
        invariant
            i <= storage.len(),
            forall|j: int| 0 <= j < i ==> storage@[j] != entity,
        decreases storage.len() - i,
    {
        if storage[i].id == entity.id {
            return true;
        }
        i = i + 1;
    }
    false
}

/// The first of `entities` that has a spell template and the name `name`,
/// by the two storages.
pub fn find_spell_entity_by_name(
    name: &str,
    names: &Vec<(Entity, String)>,
    spell_templates: &Vec<Entity>,
    entities: &Vec<Entity>,
) -> (r: Option<Entity>)
    ensures
        match r {
            Some(e) => exists|i: int|
                0 <= i < entities@.len() && #[trigger] entities@[i] == e && is_stored_spell(
                    names@,
                    spell_templates@,
                    e,
                    name@,
                ) && forall|j: int|
                    0 <= j < i ==> !is_stored_spell(names@, spell_templates@, #[trigger] entities@[j], name@),
            None => forall|j: int|
                0 <= j < entities@.len() ==> !is_stored_spell(
                    names@,
                    spell_templates@,
                    #[trigger] entities@[j],
                    name@,
                ),
        },
{
    let mut i: usize = 0;
    while i < entities.len()
        invariant
            i <= entities.len(),
            forall|j: int|
                0 <= j < i ==> !is_stored_spell(names@, spell_templates@, #[trigger] entities@[j], name@),
        decreases entities.len() - i,
    {
        let entity = entities[i];
        if storage_holds(spell_templates, entity) {
            if let Some(sname) = storage_name(names, entity) {
                if str_eq(name, sname.as_str()) {
                    return Some(entity);
                }
            }
        }
        i = i + 1;
    }
    None
}

} // verus!
