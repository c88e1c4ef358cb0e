//! The entities of a game and the session's knowledge of magic items.

use vstd::prelude::*;
use rltk::RandomNumberGenerator;
use crate::components::{components_view, Component, ComponentView, Entity};
use crate::name_map::NameMap;
use crate::text::str_eq;

verus! {

/// What a play session knows of magic items: which true names the player has
/// identified, and the name under which each scroll and each potion goes
/// until then.
#[derive(Clone, Debug)]
pub struct MasterDungeonMap {
    pub identified_items: Vec<String>,
    pub scroll_mappings: NameMap<String>,
    pub potion_mappings: NameMap<String>,
}

impl MasterDungeonMap {
    /// Whether `name` is among the identified true names.
    pub open spec fn identified(&self, name: Seq<char>) -> bool {
        exists|i: int| 0 <= i < self.identified_items@.len() && (#[trigger] self.identified_items@[i])@ == name
    }

    /// A session in which nothing is identified and nothing has another name.
    pub fn new() -> (dm: MasterDungeonMap)
        ensures
            dm.identified_items@.len() == 0,
            dm.scroll_mappings.bindings().len() == 0,
            dm.potion_mappings.bindings().len() == 0,
    {
        MasterDungeonMap {
            identified_items: Vec::new(),
            scroll_mappings: NameMap::new(),
            potion_mappings: NameMap::new(),
        }
    }

    /// Whether `name` is among the identified true names.
    pub fn is_identified(&self, name: &str) -> (r: bool)
        ensures
            r == self.identified(name@),
    {
        let mut i: usize = 0;
        while i < self.identified_items.len()
            invariant
                i <= self.identified_items.len(),
                forall|j: int| 0 <= j < i ==> (#[trigger] self.identified_items@[j])@ != name@,
            decreases self.identified_items.len() - i,
        {
            if str_eq(self.identified_items[i].as_str(), name) {
                return true;
            }
            i = i + 1;
        }
        false
    }
}

/// The entities that exist, each as the list of components attached to it,
/// in the order in which they were attached; with the session's knowledge of
/// magic items and its source of random numbers.
///
/// Where a kind of component is attached twice, the later one counts.
pub struct World {
    pub entities: Vec<Vec<Component>>,
    pub dm: MasterDungeonMap,
    pub rng: RandomNumberGenerator,
}

/// The views of a list of entities, position by position.
pub open spec fn entities_view(entities: Seq<Vec<Component>>) -> Seq<Seq<ComponentView>> {
    entities.map_values(|cs: Vec<Component>| components_view(cs@))
}

impl View for World {
    type V = Seq<Seq<ComponentView>>;

    open spec fn view(&self) -> Seq<Seq<ComponentView>> {
        entities_view(self.entities@)
    }
}

impl World {
    /// A world without entities.
    pub fn new(dm: MasterDungeonMap, rng: RandomNumberGenerator) -> (w: World)
        ensures
            w@ == Seq::<Seq<ComponentView>>::empty(),
            w.dm == dm,
    {
        let w = World { entities: Vec::new(), dm, rng };
        assert(w@ =~= Seq::<Seq<ComponentView>>::empty());
        w
    }

    /// How many entities exist.
    pub fn len(&self) -> (n: usize)
        ensures
            n == self@.len(),
    {
        self.entities.len()
    }

    /// Adds `entities`, in their order, behind the entities already there.
    pub fn add_all(&mut self, entities: Vec<Vec<Component>>)
        ensures
            final(self)@ == old(self)@ + entities_view(entities@),
            final(self).dm == old(self).dm,
    {
        let mut rest = entities;
        self.entities.append(&mut rest);
        assert(self@ =~= old(self)@ + entities_view(entities@));
    }

    /// The components of `entity`, or nothing where no such entity exists.
    pub fn components(&self, entity: Entity) -> (r: Option<&Vec<Component>>)
        ensures
            r is Some <==> entity.id < self@.len(),
            r matches Some(cs) ==> components_view(cs@) == self@[entity.id as int],
    {
        if entity.id < self.entities.len() {
            Some(&self.entities[entity.id])
        } else {
            None
        }
    }
}

/// An entity under construction: the components attached so far.
pub struct EntityBuilder {
    pub components: Vec<Component>,
}

impl View for EntityBuilder {
    type V = Seq<ComponentView>;

    open spec fn view(&self) -> Seq<ComponentView> {
        components_view(self.components@)
    }
}

impl EntityBuilder {
    /// An entity without components.
    pub fn new() -> (eb: EntityBuilder)
        ensures
            eb@ == Seq::<ComponentView>::empty(),
    {
        let eb = EntityBuilder { components: Vec::new() };
        assert(eb@ =~= Seq::<ComponentView>::empty());
        eb
    }

    /// Marks the entity as one that is written to a saved game.
    pub fn marked(self) -> (eb: EntityBuilder)
        ensures
            eb@ == self@.push(ComponentView::SerializeMe),
    {
        self.with(Component::SerializeMe)
    }

    /// Attaches `c` behind the components already there.
    pub fn with(self, c: Component) -> (eb: EntityBuilder)
        ensures
            eb@ == self@.push(c@),
    {
        let mut eb = self;
        eb.components.push(c);
        assert(eb@ =~= self@.push(c@));
        eb
    }

    /// Puts the entity behind the entities of `list`.
    pub fn build_into(self, list: &mut Vec<Vec<Component>>)
        ensures
            entities_view(final(list)@) == entities_view(old(list)@).push(self@),
    {
        list.push(self.components);
        assert(entities_view(list@) =~= entities_view(old(list)@).push(self@));
    }

    /// Adds the entity to `ecs` and returns its handle.
    pub fn build(self, ecs: &mut World) -> (e: Entity)
        ensures
            e.id == old(ecs)@.len(),
            final(ecs)@ == old(ecs)@.push(self@),
            final(ecs).dm == old(ecs).dm,
    {
        let e = Entity { id: ecs.entities.len() };
        ecs.entities.push(self.components);
        assert(ecs@ =~= old(ecs)@.push(self@));
        e
    }
}

/// Whether a spell template is among the components.
pub open spec fn has_spell_template(cs: Seq<ComponentView>) -> bool {
    exists|i: int| 0 <= i < cs.len() && #[trigger] cs[i] is SpellTemplate
}

/// The name that the components give an entity: that of the name component
/// attached last, or none where no name is attached.
pub open spec fn name_of(cs: Seq<ComponentView>) -> Option<Seq<char>>
    decreases cs.len(),
{
    if cs.len() == 0 {
        None
    } else {
        match cs.last() {
            ComponentView::Name { name } => Some(name),
            _ => name_of(cs.drop_last()),
        }
    }
}

/// Whether the components make up a spell of the name `name`.
pub open spec fn is_spell_named(cs: Seq<ComponentView>, name: Seq<char>) -> bool {
    has_spell_template(cs) && name_of(cs) == Some(name)
}

/// Whether a spell template is among the components.
pub fn holds_spell_template(cs: &Vec<Component>) -> (r: bool)
    ensures
        r == has_spell_template(components_view(cs@)),
{
    let mut i: usize = 0;
    while i < cs.len()
        invariant
            i <= cs.len(),
            forall|j: int| 0 <= j < i ==> !(#[trigger] components_view(cs@)[j] is SpellTemplate),
        decreases cs.len() - i,
    {
        assert(components_view(cs@)[i as int] == cs@[i as int]@);
        if let Component::SpellTemplate { .. } = &cs[i] {
            return true;
        }
        i = i + 1;
    }
    false
}

/// The name that the components give an entity.
pub fn entity_name(cs: &Vec<Component>) -> (r: Option<&String>)
    ensures
        match r {
            Some(name) => name_of(components_view(cs@)) == Some(name@),
            None => name_of(components_view(cs@)) is None,
        },
{
    let ghost v = components_view(cs@);
    let mut i: usize = cs.len();
    assert(v.take(i as int) =~= v);
    while i > 0
        invariant
            i <= cs.len(),
            v == components_view(cs@),
            name_of(v) == name_of(v.take(i as int)),
        decreases i,
    {
        let ghost prefix = v.take(i as int);
        i = i - 1;
        assert(prefix.last() == cs@[i as int]@);
        assert(prefix.drop_last() =~= v.take(i as int));
        if let Component::Name { name } = &cs[i] {
            return Some(name);
        }
    }
    None
}

/// The name under which an item is shown. An item without a name is shown
/// as a nameless item. An item that is not magic, or whose own name is
/// identified, is shown under its own name. Any other item is shown under
/// its obfuscated name, or as an unidentified magic item where it has none.
pub open spec fn shown_name_of(
    name: Option<Seq<char>>,
    magic: bool,
    identified: bool,
    obfuscated: Option<Seq<char>>,
) -> Seq<char> {
    match name {
        None => "Nameless item (bug)"@,
        Some(own) => if !magic || identified {
            own
        } else {
            match obfuscated {
                Some(other) => other,
                None => "Unidentified magic item"@,
            }
        },
    }
}

/// The name under which an item is shown to the player.
pub fn obfuscate_name(name: Option<&String>, magic: bool, obfuscated: Option<&String>, dm: &MasterDungeonMap) -> (r: String)
    ensures
        r@ == shown_name_of(
            match name {
                Some(n) => Some(n@),
                None => None,
            },
            magic,
            name matches Some(n) && dm.identified(n@),
            match obfuscated {
                Some(o) => Some(o@),
                None => None,
            },
        ),
{
    match name {
        None => "Nameless item (bug)".to_owned(),
        Some(own) => {
            if !magic || dm.is_identified(own.as_str()) {
                own.clone()
            } else {
                match obfuscated {
                    Some(other) => other.clone(),
                    None => "Unidentified magic item".to_owned(),
                }
            }
        },
    }
}

} // verus!
