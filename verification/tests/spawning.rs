use rltk::RandomNumberGenerator;
use rawmaster::color::Color;
use rawmaster::components::{
    Attribute, Component, Entity, EquipmentSlot, MagicItemClass, Movement, NaturalAttack, Pool,
    SpecialAbility, WeaponAttribute,
};
use rawmaster::raws::rawmaster::effects::{
    apply_effects, effect_component, is_known_effect, unknown_effect_tags,
};
use rawmaster::raws::rawmaster::item::{item_components, spawn_named_item};
use rawmaster::raws::rawmaster::mob::{
    gold_dice, mob_components, mob_entities, spawn_named_mob, unknown_skill_names,
};
use rawmaster::raws::rawmaster::prop::spawn_named_prop;
use rawmaster::raws::rawmaster::spawn::{
    spawn_base_entity, spawn_named_entity, spawn_position, SpawnError, SpawnType,
};
use rawmaster::raws::rawmaster::spell::{spawn_all_spells, spawn_named_spell};
use rawmaster::raws::rawmaster::{find_spell_entity, find_spell_entity_by_name, RawMaster};
use rawmaster::raws::structs::{
    Consumable, EntryTrigger, Item, ItemAttributeBonus, MagicItem, Mob, MobAbility, MobAttack,
    MobAttributes, MobLight, MobNatural, Prop, Real, Renderable, Spell, Weapon, Wearable,
};
use rawmaster::raws::Raws;
use rawmaster::world::{entity_name, obfuscate_name, EntityBuilder, MasterDungeonMap, World};

fn num(v: f32) -> Real {
    Real::from_bits(v.to_bits())
}

fn rgb(r: u8, g: u8, b: u8) -> Color {
    let channel = |byte: u8| Real::from_bits((byte as f32 / 255.0).to_bits());
    Color { r: channel(r), g: channel(g), b: channel(b) }
}

fn item(name: &str) -> Item {
    Item {
        name: name.to_string(),
        renderable: None,
        consumable: None,
        weapon: None,
        wearable: None,
        initiative_penalty: None,
        weight_lbs: None,
        base_value: None,
        vendor_category: None,
        magic: None,
        attributes: None,
    }
}

fn mob(name: &str) -> Mob {
    Mob {
        name: name.to_string(),
        renderable: None,
        blocks_tile: false,
        vision_range: 8,
        movement: "static".to_string(),
        quips: None,
        attributes: MobAttributes { might: None, fitness: None, quickness: None, intelligence: None },
        skills: None,
        level: None,
        equipped: None,
        natural: None,
        loot_table: None,
        light: None,
        faction: None,
        gold: None,
        vendor: None,
        abilities: None,
        on_death: None,
    }
}

fn prop(name: &str) -> Prop {
    Prop {
        name: name.to_string(),
        renderable: None,
        hidden: None,
        blocks_visibility: None,
        door_open: None,
        entry_trigger: None,
        light: None,
    }
}

fn weapon(damage: &str) -> Weapon {
    Weapon {
        range: "melee".to_string(),
        attribute: "Might".to_string(),
        base_damage: damage.to_string(),
        hit_bonus: 0,
        proc_chance: None,
        proc_target: None,
        proc_effects: None,
    }
}

fn wearable(slot: &str) -> Wearable {
    Wearable { armor_class: num(1.5), slot: slot.to_string() }
}

fn magic(class: &str, naming: &str) -> MagicItem {
    MagicItem { class: class.to_string(), naming: naming.to_string(), cursed: None }
}

fn effects(list: &[(&str, &str)]) -> Vec<(String, String)> {
    list.iter().map(|(t, v)| (t.to_string(), v.to_string())).collect()
}

fn look(glyph: &str) -> Renderable {
    Renderable {
        glyph: glyph.to_string(),
        fg: "#FFFFFF".to_string(),
        bg: "#000000".to_string(),
        order: 1,
        x_size: None,
        y_size: None,
    }
}

fn catalog(items: Vec<Item>, mobs: Vec<Mob>, props: Vec<Prop>, spells: Vec<Spell>) -> RawMaster {
    let mut rm = RawMaster::empty();
    rm.load(Raws {
        items,
        mobs,
        props,
        spawn_table: vec![],
        loot_tables: vec![],
        faction_table: vec![],
        spells,
        weapon_traits: vec![],
    });
    rm
}

fn world() -> World {
    World::new(MasterDungeonMap::new(), RandomNumberGenerator::seeded(99))
}

fn at(x: i32, y: i32) -> SpawnType {
    SpawnType::AtPosition { x, y }
}

fn name(n: &str) -> Component {
    Component::Name { name: n.to_string() }
}

fn plain_item_stats() -> Component {
    Component::Item { initiative_penalty: num(0.0), weight_lbs: num(0.0), base_value: num(0.0) }
}

#[test]
fn effect_vocabulary() {
    let one = |tag: &str, value: &str| effect_component(tag, value);
    assert_eq!(one("area_of_effect", "3"), Ok(Some(Component::AreaOfEffect { radius: 3 })));
    assert_eq!(one("confusion", "4"), Ok(Some(Component::Confusion)));
    assert_eq!(one("confusion", ""), Ok(Some(Component::Confusion)));
    assert_eq!(one("damage", "20"), Ok(Some(Component::InflictsDamage { damage: 20 })));
    assert_eq!(one("damage_over_time", "2"), Ok(Some(Component::DamageOverTime { damage: 2 })));
    assert_eq!(one("duration", "5"), Ok(Some(Component::Duration { turns: 5 })));
    assert_eq!(one("food", ""), Ok(Some(Component::ProvidesFood)));
    assert_eq!(one("identify", ""), Ok(Some(Component::ProvidesIdentification)));
    assert_eq!(one("magic_mapping", ""), Ok(Some(Component::MagicMapper)));
    assert_eq!(
        one("particle", "*;#FFA500;200.0"),
        Ok(Some(Component::SpawnParticleBurst {
            glyph: 42,
            color: rgb(255, 165, 0),
            lifetime_ms: "200.0".to_string(),
        }))
    );
    assert_eq!(
        one("particle_line", "▓;#00FFFF;400.0"),
        Ok(Some(Component::SpawnParticleLine {
            glyph: 178,
            color: rgb(0, 255, 255),
            lifetime_ms: "400.0".to_string(),
        }))
    );
    assert_eq!(one("provides_healing", "8"), Ok(Some(Component::ProvidesHealing { heal_amount: 8 })));
    assert_eq!(one("provides_mana", "-1"), Ok(Some(Component::ProvidesMana { mana_amount: -1 })));
    assert_eq!(one("ranged", "6"), Ok(Some(Component::Ranged { range: 6 })));
    assert_eq!(one("remove_curse", ""), Ok(Some(Component::ProvidesRemoveCurse)));
    assert_eq!(one("single_activation", "1"), Ok(Some(Component::SingleActivation)));
    assert_eq!(one("slow", "2.0"), Ok(Some(Component::Slow { initiative_penalty: "2.0".to_string() })));
    assert_eq!(one("target_self", ""), Ok(Some(Component::AlwaysTargetsSelf)));
    assert_eq!(one("teach_spell", "Zap"), Ok(Some(Component::TeachesSpell { spell: "Zap".to_string() })));
    assert_eq!(one("town_portal", ""), Ok(Some(Component::TownPortal)));
}

#[test]
fn particle_descriptors() {
    let burst = |d: &str| effect_component("particle", d);
    assert_eq!(
        burst("ab;#000000;1;more;fields"),
        Ok(Some(Component::SpawnParticleBurst { glyph: 97, color: rgb(0, 0, 0), lifetime_ms: "1".to_string() }))
    );
    assert_eq!(
        burst("☼;#ffffff;.5e2"),
        Ok(Some(Component::SpawnParticleBurst {
            glyph: 15,
            color: rgb(255, 255, 255),
            lifetime_ms: ".5e2".to_string(),
        }))
    );
    for bad in [
        "", "*", "*;", "*;#FFA500", "*;#FFA500;", ";#FFA500;200.0", "*;orange;200.0", "*;#FFA500;long",
        "*;#FFA500;;200.0", "*#FFA500;200.0", "*;;200.0", ";;", "*;#FFA500 ;200.0",
    ] {
        assert_eq!(burst(bad), Err(SpawnError::MalformedValue), "{:?}", bad);
        assert_eq!(effect_component("particle_line", bad), Err(SpawnError::MalformedValue), "{:?}", bad);
    }
}

#[test]
fn unknown_effect_is_skipped() {
    assert_eq!(effect_component("levitate", "3"), Ok(None));
    assert_eq!(effect_component("Damage", "3"), Ok(None));
    assert_eq!(effect_component("", ""), Ok(None));
    let eb = apply_effects(&effects(&[("levitate", "x"), ("damage", "2"), ("glow", "")]), EntityBuilder::new())
        .unwrap();
    assert_eq!(eb.components, vec![Component::InflictsDamage { damage: 2 }]);
}

#[test]
fn malformed_effect_number_is_an_error() {
    for tag in [
        "area_of_effect", "damage", "damage_over_time", "duration", "provides_healing", "provides_mana",
        "ranged",
    ] {
        assert_eq!(effect_component(tag, "many"), Err(SpawnError::MalformedValue), "{}", tag);
        assert_eq!(effect_component(tag, ""), Err(SpawnError::MalformedValue), "{}", tag);
        assert_eq!(effect_component(tag, "1.5"), Err(SpawnError::MalformedValue), "{}", tag);
    }
    assert_eq!(effect_component("slow", "fast"), Err(SpawnError::MalformedValue));
    assert_eq!(effect_component("slow", ""), Err(SpawnError::MalformedValue));
    assert_eq!(effect_component("slow", "2"), Ok(Some(Component::Slow { initiative_penalty: "2".to_string() })));
    let r = apply_effects(&effects(&[("food", ""), ("damage", "x"), ("ranged", "y")]), EntityBuilder::new());
    assert_eq!(r.err(), Some(SpawnError::MalformedValue));
}

#[test]
fn effects_are_applied_in_order() {
    let start = EntityBuilder::new().with(Component::Hidden);
    let eb = apply_effects(
        &effects(&[("ranged", "6"), ("damage", "20"), ("area_of_effect", "3"), ("confusion", ""), ("duration", "4")]),
        start,
    )
    .unwrap();
    assert_eq!(
        eb.components,
        vec![
            Component::Hidden,
            Component::Ranged { range: 6 },
            Component::InflictsDamage { damage: 20 },
            Component::AreaOfEffect { radius: 3 },
            Component::Confusion,
            Component::Duration { turns: 4 },
        ]
    );
}

#[test]
fn placement_components() {
    let mut sword = item("Sword");
    sword.weapon = Some(weapon("1d6"));
    let rm = catalog(vec![sword, item("Rock")], vec![], vec![], vec![]);
    let owner = Entity { id: 4 };
    let placed = |pos: SpawnType, tag: &str| spawn_position(pos, EntityBuilder::new(), tag, &rm).map(|eb| eb.components);
    assert_eq!(placed(at(3, -2), "Rock"), Ok(vec![Component::Position { x: 3, y: -2 }]));
    assert_eq!(placed(at(3, -2), "Nothing"), Ok(vec![Component::Position { x: 3, y: -2 }]));
    assert_eq!(placed(SpawnType::Carried { by: owner }, "Rock"), Ok(vec![Component::InBackpack { owner }]));
    assert_eq!(
        placed(SpawnType::Equipped { by: owner }, "Sword"),
        Ok(vec![Component::Equipped { owner, slot: EquipmentSlot::Melee }])
    );
    assert_eq!(placed(SpawnType::Equipped { by: owner }, "Rock"), Err(SpawnError::MissingEquipSlot));
    assert_eq!(placed(SpawnType::Equipped { by: owner }, "Nothing"), Err(SpawnError::MissingDefinition));
}

#[test]
fn base_entity_of_a_definition() {
    let mut big = prop("Statue");
    big.renderable = Some(Renderable { x_size: Some(2), ..look("Ω") });
    let mut tall = prop("Pillar");
    tall.renderable = Some(Renderable { y_size: Some(3), ..look("|") });
    let mut small = prop("Pebble");
    small.renderable = Some(look("."));
    let rm = catalog(vec![], vec![], vec![big, tall, small, prop("Ghost")], vec![]);
    let base = |key: &str| {
        spawn_base_entity(&rm, &rm.raws().props, rm.prop_index(), key, at(1, 2)).map(|(eb, p)| (eb.components, p.name.clone()))
    };
    let white = rgb(255, 255, 255);
    let black = rgb(0, 0, 0);
    assert_eq!(
        base("Statue"),
        Ok((
            vec![
                Component::SerializeMe,
                Component::Position { x: 1, y: 2 },
                Component::Renderable { glyph: 234, fg: white, bg: black, render_order: 1 },
                Component::TileSize { x: 2, y: 1 },
                name("Statue"),
            ],
            "Statue".to_string()
        ))
    );
    assert_eq!(base("Pillar").unwrap().0[3], Component::TileSize { x: 1, y: 3 });
    assert_eq!(
        base("Pebble").unwrap().0,
        vec![
            Component::SerializeMe,
            Component::Position { x: 1, y: 2 },
            Component::Renderable { glyph: 46, fg: white, bg: black, render_order: 1 },
            name("Pebble"),
        ]
    );
    assert_eq!(
        base("Ghost").unwrap().0,
        vec![Component::SerializeMe, Component::Position { x: 1, y: 2 }, name("Ghost")]
    );
    assert_eq!(base("Nothing").err(), Some(SpawnError::MissingDefinition));
    assert_eq!(
        spawn_base_entity(&rm, &rm.raws().props, rm.item_index(), "Statue", at(0, 0)).err(),
        Some(SpawnError::MissingDefinition)
    );
}

#[test]
fn plain_item() {
    let rm = catalog(vec![item("Rock")], vec![], vec![], vec![]);
    let mut ecs = world();
    let e = spawn_named_item(&rm, &mut ecs, "Rock", at(5, 6)).unwrap();
    assert_eq!(e, Entity { id: 0 });
    assert_eq!(ecs.len(), 1);
    assert_eq!(
        ecs.entities[0],
        vec![Component::SerializeMe, Component::Position { x: 5, y: 6 }, name("Rock"), plain_item_stats()]
    );
    assert_eq!(ecs.components(e), Some(&ecs.entities[0]));
    assert_eq!(ecs.components(Entity { id: 1 }), None);
}

#[test]
fn item_physical_attributes() {
    let mut anvil = item("Anvil");
    anvil.initiative_penalty = Some(num(2.0));
    anvil.weight_lbs = Some(num(80.0));
    anvil.base_value = Some(num(12.5));
    let rm = catalog(vec![anvil], vec![], vec![], vec![]);
    let eb = item_components(&rm, &MasterDungeonMap::new(), "Anvil", at(0, 0)).unwrap();
    assert_eq!(
        eb.components[3],
        Component::Item { initiative_penalty: num(2.0), weight_lbs: num(80.0), base_value: num(12.5) }
    );
}

#[test]
fn consumable_charges_start_full() {
    let mut wand = item("Wand");
    wand.consumable = Some(Consumable { effects: effects(&[("ranged", "6"), ("damage", "5")]), charges: Some(3) });
    let mut ration = item("Ration");
    ration.consumable = Some(Consumable { effects: effects(&[("food", "")]), charges: None });
    let rm = catalog(vec![wand, ration], vec![], vec![], vec![]);
    let mut ecs = world();
    let e = spawn_named_item(&rm, &mut ecs, "Wand", at(0, 0)).unwrap();
    assert_eq!(
        ecs.entities[e.id][4..].to_vec(),
        vec![
            Component::Consumable { max_charges: 3, charges: 3 },
            Component::Ranged { range: 6 },
            Component::InflictsDamage { damage: 5 },
        ]
    );
    let e = spawn_named_item(&rm, &mut ecs, "Ration", at(0, 0)).unwrap();
    assert_eq!(
        ecs.entities[e.id][4..].to_vec(),
        vec![Component::Consumable { max_charges: 1, charges: 1 }, Component::ProvidesFood]
    );
}

#[test]
fn weapon_block() {
    let mut bow = item("Bow");
    bow.weapon = Some(Weapon {
        range: "4".to_string(),
        attribute: "Quickness".to_string(),
        base_damage: "2d6+1".to_string(),
        hit_bonus: 2,
        proc_chance: Some(num(0.25)),
        proc_target: Some("Target".to_string()),
        proc_effects: Some(effects(&[("damage_over_time", "2")])),
    });
    let mut club = item("Club");
    club.weapon = Some(Weapon { attribute: "Brawn".to_string(), ..weapon("1d4-1") });
    let rm = catalog(vec![bow, club], vec![], vec![], vec![]);
    let dm = MasterDungeonMap::new();
    assert_eq!(
        item_components(&rm, &dm, "Bow", at(0, 0)).unwrap().components[4..].to_vec(),
        vec![
            Component::Equippable { slot: EquipmentSlot::Melee },
            Component::Weapon {
                range: Some(4),
                attribute: WeaponAttribute::Quickness,
                damage_n_dice: 2,
                damage_die_type: 6,
                damage_bonus: 1,
                hit_bonus: 2,
                proc_chance: Some(num(0.25)),
                proc_target: Some("Target".to_string()),
            },
            Component::DamageOverTime { damage: 2 },
        ]
    );
    assert_eq!(
        item_components(&rm, &dm, "Club", at(0, 0)).unwrap().components[4..].to_vec(),
        vec![
            Component::Equippable { slot: EquipmentSlot::Melee },
            Component::Weapon {
                range: None,
                attribute: WeaponAttribute::Might,
                damage_n_dice: 1,
                damage_die_type: 4,
                damage_bonus: -1,
                hit_bonus: 0,
                proc_chance: None,
                proc_target: None,
            },
        ]
    );
}

#[test]
fn weapon_and_wearable_give_two_slot_markers() {
    let mut shield = item("Spiked Shield");
    shield.weapon = Some(weapon("1d4"));
    shield.wearable = Some(wearable("Shield"));
    let rm = catalog(vec![shield], vec![], vec![], vec![]);
    let cs = item_components(&rm, &MasterDungeonMap::new(), "Spiked Shield", at(0, 0)).unwrap().components;
    let markers: Vec<&Component> = cs.iter().filter(|c| matches!(c, Component::Equippable { .. })).collect();
    assert_eq!(
        markers,
        vec![
            &Component::Equippable { slot: EquipmentSlot::Melee },
            &Component::Equippable { slot: EquipmentSlot::Shield },
        ]
    );
    assert_eq!(*cs.last().unwrap(), Component::Wearable { slot: EquipmentSlot::Shield, armor_class: num(1.5) });
}

#[test]
fn malformed_weapon_is_an_error() {
    let mut bad_dice = item("Bad Dice");
    bad_dice.weapon = Some(weapon("lots"));
    let mut bad_range = item("Bad Range");
    bad_range.weapon = Some(Weapon { range: "far".to_string(), ..weapon("1d4") });
    let mut bad_proc = item("Bad Proc");
    bad_proc.weapon = Some(Weapon { proc_effects: Some(effects(&[("damage", "x")])), ..weapon("1d4") });
    let mut bad_consumable = item("Bad Consumable");
    bad_consumable.consumable = Some(Consumable { effects: effects(&[("ranged", "")]), charges: None });
    let rm = catalog(vec![bad_dice, bad_range, bad_proc, bad_consumable], vec![], vec![], vec![]);
    let mut ecs = world();
    for key in ["Bad Dice", "Bad Range", "Bad Proc", "Bad Consumable"] {
        assert_eq!(spawn_named_item(&rm, &mut ecs, key, at(0, 0)), Err(SpawnError::MalformedValue), "{}", key);
    }
    assert_eq!(ecs.len(), 0);
}

#[test]
fn missing_item_is_an_error() {
    let rm = catalog(vec![item("Rock")], vec![mob("Rat")], vec![], vec![]);
    let mut ecs = world();
    assert_eq!(spawn_named_item(&rm, &mut ecs, "Nothing", at(0, 0)), Err(SpawnError::MissingDefinition));
    assert_eq!(spawn_named_item(&rm, &mut ecs, "Rat", at(0, 0)), Err(SpawnError::MissingDefinition));
    assert_eq!(ecs.len(), 0);
}

#[test]
fn bad_look_is_an_error() {
    let mut faceless = item("Faceless");
    faceless.renderable = Some(look(""));
    let mut garish = item("Garish");
    garish.renderable = Some(Renderable { fg: "pink".to_string(), ..look("g") });
    let mut lamp = prop("Lamp");
    lamp.light = Some(MobLight { range: 4, color: "bright".to_string() });
    let mut glow = mob("Glow Worm");
    glow.light = Some(MobLight { range: 4, color: "#12".to_string() });
    let rm = catalog(vec![faceless, garish], vec![glow], vec![lamp], vec![]);
    let mut ecs = world();
    assert_eq!(spawn_named_entity(&rm, &mut ecs, "Faceless", at(0, 0)), Err(SpawnError::MissingGlyph));
    assert_eq!(spawn_named_entity(&rm, &mut ecs, "Garish", at(0, 0)), Err(SpawnError::InvalidColor));
    assert_eq!(spawn_named_entity(&rm, &mut ecs, "Lamp", at(0, 0)), Err(SpawnError::InvalidColor));
    assert_eq!(spawn_named_entity(&rm, &mut ecs, "Glow Worm", at(0, 0)), Err(SpawnError::InvalidColor));
    assert_eq!(ecs.len(), 0);
}

#[test]
fn magic_class_and_curse() {
    let mut ring = item("Ring");
    ring.magic = Some(MagicItem { cursed: Some(true), ..magic("legendary", "Unidentified Ring") });
    let mut amulet = item("Amulet");
    amulet.magic = Some(MagicItem { cursed: Some(false), ..magic("rare", "Unidentified Amulet") });
    let mut charm = item("Charm");
    charm.magic = Some(magic("epic", "Unidentified Charm"));
    charm.attributes = Some(ItemAttributeBonus { might: Some(1), fitness: None, quickness: Some(-1), intelligence: None });
    let rm = catalog(vec![ring, amulet, charm], vec![], vec![], vec![]);
    let dm = MasterDungeonMap::new();
    assert_eq!(
        item_components(&rm, &dm, "Ring", at(0, 0)).unwrap().components[4..].to_vec(),
        vec![
            Component::MagicItem { class: MagicItemClass::Legendary },
            Component::ObfuscatedName { name: "Unidentified Ring".to_string() },
            Component::CursedItem,
        ]
    );
    assert_eq!(
        item_components(&rm, &dm, "Amulet", at(0, 0)).unwrap().components[4..].to_vec(),
        vec![
            Component::MagicItem { class: MagicItemClass::Rare },
            Component::ObfuscatedName { name: "Unidentified Amulet".to_string() },
        ]
    );
    assert_eq!(
        item_components(&rm, &dm, "Charm", at(0, 0)).unwrap().components[4..].to_vec(),
        vec![
            Component::MagicItem { class: MagicItemClass::Common },
            Component::ObfuscatedName { name: "Unidentified Charm".to_string() },
            Component::AttributeBonus { might: Some(1), fitness: None, quickness: Some(-1), intelligence: None },
        ]
    );
}

#[test]
fn scroll_is_obfuscated_until_identified() {
    let mut scroll = item("Scroll of Identify");
    scroll.magic = Some(magic("common", "scroll"));
    let rm = catalog(vec![scroll], vec![], vec![], vec![]);
    let mut ecs = world();
    ecs.dm.scroll_mappings.insert("Scroll of Identify".to_string(), "Scroll of Oxbar Zyf".to_string());
    ecs.dm.potion_mappings.insert("Scroll of Identify".to_string(), "Bubbling Potion".to_string());
    let e = spawn_named_item(&rm, &mut ecs, "Scroll of Identify", at(0, 0)).unwrap();
    let cs = &ecs.entities[e.id];
    assert!(cs.contains(&Component::ObfuscatedName { name: "Scroll of Oxbar Zyf".to_string() }));
    assert!(!cs.contains(&Component::ObfuscatedName { name: "Scroll of Identify".to_string() }));
    assert!(cs.contains(&name("Scroll of Identify")));

    ecs.dm.identified_items.push("Scroll of Identify".to_string());
    let e = spawn_named_item(&rm, &mut ecs, "Scroll of Identify", at(0, 0)).unwrap();
    let cs = &ecs.entities[e.id];
    assert!(!cs.iter().any(|c| matches!(c, Component::ObfuscatedName { .. })));
    assert!(cs.contains(&name("Scroll of Identify")));
    assert_eq!(entity_name(cs).map(|s| s.as_str()), Some("Scroll of Identify"));
}

#[test]
fn potion_uses_the_potion_names() {
    let mut potion = item("Healing Potion");
    potion.magic = Some(magic("common", "potion"));
    let rm = catalog(vec![potion], vec![], vec![], vec![]);
    let mut dm = MasterDungeonMap::new();
    dm.scroll_mappings.insert("Healing Potion".to_string(), "Scroll of Wrong".to_string());
    dm.potion_mappings.insert("Healing Potion".to_string(), "Fizzy Red Potion".to_string());
    let cs = item_components(&rm, &dm, "Healing Potion", at(0, 0)).unwrap().components;
    assert!(cs.contains(&Component::ObfuscatedName { name: "Fizzy Red Potion".to_string() }));
    assert!(dm.is_identified("Healing Potion") == false);
}

#[test]
fn unmapped_scroll_or_potion_is_an_error() {
    let mut scroll = item("Scroll of Mapping");
    scroll.magic = Some(magic("common", "scroll"));
    let mut potion = item("Healing Potion");
    potion.magic = Some(magic("common", "potion"));
    let rm = catalog(vec![scroll, potion], vec![], vec![], vec![]);
    let mut dm = MasterDungeonMap::new();
    assert_eq!(
        item_components(&rm, &dm, "Scroll of Mapping", at(0, 0)).err(),
        Some(SpawnError::MissingObfuscatedName)
    );
    assert_eq!(
        item_components(&rm, &dm, "Healing Potion", at(0, 0)).err(),
        Some(SpawnError::MissingObfuscatedName)
    );
    dm.identified_items.push("Healing Potion".to_string());
    assert!(item_components(&rm, &dm, "Healing Potion", at(0, 0)).is_ok());
}

#[test]
fn equipping_an_item_without_slot_is_an_error() {
    let mut helm = item("Helm");
    helm.wearable = Some(wearable("Head"));
    let rm = catalog(vec![item("Rock"), helm], vec![], vec![], vec![]);
    let mut ecs = world();
    let by = Entity { id: 0 };
    assert_eq!(
        spawn_named_item(&rm, &mut ecs, "Rock", SpawnType::Equipped { by }),
        Err(SpawnError::MissingEquipSlot)
    );
    assert_eq!(
        spawn_named_entity(&rm, &mut ecs, "Rock", SpawnType::Equipped { by }),
        Err(SpawnError::MissingEquipSlot)
    );
    assert_eq!(ecs.len(), 0);
    let e = spawn_named_entity(&rm, &mut ecs, "Helm", SpawnType::Equipped { by }).unwrap().unwrap();
    assert_eq!(ecs.entities[e.id][1], Component::Equipped { owner: by, slot: EquipmentSlot::Head });
}

#[test]
fn mob_with_defaults() {
    let rm = catalog(vec![], vec![mob("Rat")], vec![], vec![]);
    let mut ecs = world();
    let e = spawn_named_mob(&rm, &mut ecs, "Rat", at(2, 3)).unwrap();
    let baseline = Attribute { base: 11, modifiers: 0, bonus: 0 };
    assert_eq!(
        ecs.entities[e.id],
        vec![
            Component::SerializeMe,
            Component::Position { x: 2, y: 3 },
            name("Rat"),
            Component::MoveMode { mode: Movement::Static },
            Component::Viewshed { range: 8, dirty: true },
            Component::Attributes { might: baseline, fitness: baseline, quickness: baseline, intelligence: baseline },
            Component::Pools {
                level: 1,
                xp: 0,
                hit_points: Pool { max: 9, current: 9 },
                mana: Pool { max: 4, current: 4 },
                total_weight: num(0.0),
                total_initiative_penalty: num(0.0),
                gold: 0,
                god_mode: false,
            },
            Component::Skills { melee: 1, defense: 1, magic: 1 },
            Component::Initiative { current: 2 },
            Component::Faction { name: "Mindless".to_string() },
            Component::EquipmentChanged,
        ]
    );
    assert_eq!(ecs.len(), 1);
}

#[test]
fn mob_with_everything() {
    let mut orc = mob("Orc Chief");
    orc.renderable = Some(look("o"));
    orc.blocks_tile = true;
    orc.vision_range = 5;
    orc.movement = "random_waypoint".to_string();
    orc.quips = Some(vec!["Grr".to_string(), "Arg".to_string()]);
    orc.attributes = MobAttributes { might: Some(16), fitness: Some(14), quickness: None, intelligence: Some(7) };
    orc.skills = Some(vec![
        ("Melee".to_string(), 3),
        ("Juggling".to_string(), 9),
        ("Magic".to_string(), -1),
        ("Melee".to_string(), 4),
    ]);
    orc.level = Some(3);
    orc.natural = Some(MobNatural {
        armor_class: Some(12),
        attacks: Some(vec![
            MobAttack { name: "bite".to_string(), hit_bonus: 1, damage: "1d6+2".to_string() },
            MobAttack { name: "claw".to_string(), hit_bonus: 0, damage: "2d4".to_string() },
        ]),
    });
    orc.loot_table = Some("Orcs".to_string());
    orc.light = Some(MobLight { range: 3, color: "#FFAA00".to_string() });
    orc.faction = Some("Orcs".to_string());
    orc.vendor = Some(vec!["weapon".to_string()]);
    let ability = |spell: &str| MobAbility { spell: spell.to_string(), chance: num(0.2), range: num(6.0), min_range: num(2.0) };
    orc.abilities = Some(vec![ability("Roar")]);
    orc.on_death = Some(vec![ability("Explode"), ability("Curse")]);
    let rm = catalog(vec![], vec![orc], vec![], vec![]);
    let cs = mob_components(&rm, "Orc Chief", SpawnType::Carried { by: Entity { id: 7 } }, 12).unwrap().components;
    let special = |spell: &str| SpecialAbility { spell: spell.to_string(), chance: num(0.2), range: num(6.0), min_range: num(2.0) };
    assert_eq!(
        cs,
        vec![
            Component::SerializeMe,
            Component::InBackpack { owner: Entity { id: 7 } },
            Component::Renderable {
                glyph: 111,
                fg: rgb(255, 255, 255),
                bg: rgb(0, 0, 0),
                render_order: 1,
            },
            name("Orc Chief"),
            Component::MoveMode { mode: Movement::RandomWaypoint },
            Component::BlocksTile,
            Component::Viewshed { range: 5, dirty: true },
            Component::Quips { available: vec!["Grr".to_string(), "Arg".to_string()] },
            Component::NaturalAttackDefense {
                armor_class: Some(12),
                attacks: vec![
                    NaturalAttack { name: "bite".to_string(), hit_bonus: 1, damage_n_dice: 1, damage_die_type: 6, damage_bonus: 2 },
                    NaturalAttack { name: "claw".to_string(), hit_bonus: 0, damage_n_dice: 2, damage_die_type: 4, damage_bonus: 0 },
                ],
            },
            Component::Attributes {
                might: Attribute { base: 16, modifiers: 0, bonus: 3 },
                fitness: Attribute { base: 14, modifiers: 0, bonus: 2 },
                quickness: Attribute { base: 11, modifiers: 0, bonus: 0 },
                intelligence: Attribute { base: 7, modifiers: 0, bonus: -1 },
            },
            Component::Pools {
                level: 3,
                xp: 0,
                hit_points: Pool { max: 31, current: 31 },
                mana: Pool { max: 9, current: 9 },
                total_weight: num(0.0),
                total_initiative_penalty: num(0.0),
                gold: 12,
                god_mode: false,
            },
            Component::Skills { melee: 4, defense: 1, magic: -1 },
            Component::LootTable { table: "Orcs".to_string() },
            Component::LightSource { range: 3, color: rgb(255, 170, 0) },
            Component::Initiative { current: 2 },
            Component::Faction { name: "Orcs".to_string() },
            Component::EquipmentChanged,
            Component::Vendor { categories: vec!["weapon".to_string()] },
            Component::SpecialAbilities { abilities: vec![special("Roar")] },
            Component::OnDeath { abilities: vec![special("Explode"), special("Curse")] },
        ]
    );
}

#[test]
fn mob_movement_modes() {
    let moving = |movement: &str| {
        let mut m = mob("M");
        m.movement = movement.to_string();
        let rm = catalog(vec![], vec![m], vec![], vec![]);
        mob_components(&rm, "M", at(0, 0), 0).unwrap().components[3].clone()
    };
    assert_eq!(moving("random"), Component::MoveMode { mode: Movement::Random });
    assert_eq!(moving("random_waypoint"), Component::MoveMode { mode: Movement::RandomWaypoint });
    assert_eq!(moving("static"), Component::MoveMode { mode: Movement::Static });
    assert_eq!(moving("flying"), Component::MoveMode { mode: Movement::Static });
}

#[test]
fn mob_natural_defense_without_attacks() {
    let mut slug = mob("Slug");
    slug.natural = Some(MobNatural { armor_class: None, attacks: None });
    let rm = catalog(vec![], vec![slug], vec![], vec![]);
    let cs = mob_components(&rm, "Slug", at(0, 0), 0).unwrap().components;
    assert_eq!(cs[5], Component::NaturalAttackDefense { armor_class: None, attacks: vec![] });
}

#[test]
fn mob_errors() {
    let mut bad_attack = mob("Bad Attack");
    bad_attack.natural = Some(MobNatural {
        armor_class: None,
        attacks: Some(vec![MobAttack {
            name: "bite".to_string(),
            hit_bonus: 0,
            damage: "hard".to_string(),
        }]),
    });
    let mut bad_gold = mob("Bad Gold");
    bad_gold.gold = Some("a few".to_string());
    let mut sideless = mob("Sideless");
    sideless.gold = Some("3d0".to_string());
    let mut rich = mob("Too Rich");
    rich.gold = Some("65536d65536".to_string());
    let mut richer = mob("Richer");
    richer.gold = Some("1d2147483646+5".to_string());
    let mut giant = mob("Giant");
    giant.level = Some(i32::MAX);
    let mut sage = mob("Sage");
    sage.level = Some(1_000_000);
    sage.attributes.intelligence = Some(i32::MAX);
    let rm = catalog(vec![], vec![bad_attack, bad_gold, sideless, rich, richer, giant, sage], vec![], vec![]);
    let mut ecs = world();
    for key in ["Bad Attack", "Bad Gold", "Sideless", "Too Rich", "Richer"] {
        assert_eq!(spawn_named_mob(&rm, &mut ecs, key, at(0, 0)), Err(SpawnError::MalformedValue), "{}", key);
    }
    for key in ["Giant", "Sage"] {
        assert_eq!(spawn_named_mob(&rm, &mut ecs, key, at(0, 0)), Err(SpawnError::StatOverflow), "{}", key);
    }
    assert_eq!(spawn_named_mob(&rm, &mut ecs, "Nobody", at(0, 0)), Err(SpawnError::MissingDefinition));
    assert_eq!(ecs.len(), 0);
}

#[test]
fn gold_dice_of_a_mob() {
    assert_eq!(gold_dice(&None), Ok(None));
    assert_eq!(gold_dice(&Some("2d6+1".to_string())), Ok(Some((2, 6, 1))));
    assert_eq!(gold_dice(&Some("0d6".to_string())), Ok(Some((0, 6, 0))));
    assert_eq!(gold_dice(&Some("1d2147483646".to_string())), Ok(Some((1, 2147483646, 0))));
    assert_eq!(gold_dice(&Some("1d2147483647".to_string())), Err(SpawnError::MalformedValue));
    assert_eq!(gold_dice(&Some("2d0".to_string())), Err(SpawnError::MalformedValue));
    assert_eq!(gold_dice(&Some("2".to_string())), Err(SpawnError::MalformedValue));
}

fn gold_of(cs: &[Component]) -> i32 {
    for c in cs {
        if let Component::Pools { gold, .. } = c {
            return *gold;
        }
    }
    panic!("no pools");
}

#[test]
fn mob_gold_is_rolled_within_the_dice() {
    let mut miser = mob("Miser");
    miser.gold = Some("2d6+10".to_string());
    let mut pauper = mob("Pauper");
    pauper.gold = Some("3d1-3".to_string());
    let rm = catalog(vec![], vec![miser, pauper], vec![], vec![]);
    let mut ecs = world();
    let mut seen = std::collections::BTreeSet::new();
    for _ in 0..200 {
        let e = spawn_named_mob(&rm, &mut ecs, "Miser", at(0, 0)).unwrap();
        let gold = gold_of(&ecs.entities[e.id]);
        assert!((12..=22).contains(&gold), "{}", gold);
        seen.insert(gold);
    }
    assert!(seen.len() > 3, "{:?}", seen);
    let e = spawn_named_mob(&rm, &mut ecs, "Pauper", at(0, 0)).unwrap();
    assert_eq!(gold_of(&ecs.entities[e.id]), 0);
}

#[test]
fn mob_spawns_its_equipment() {
    let mut sword = item("Sword");
    sword.weapon = Some(weapon("1d8"));
    let mut helm = item("Helm");
    helm.wearable = Some(wearable("Head"));
    let mut guard = mob("Guard");
    guard.equipped = Some(vec!["Sword".to_string(), "Helm".to_string()]);
    let rm = catalog(vec![sword, helm], vec![guard], vec![], vec![]);
    let mut ecs = world();
    spawn_named_item(&rm, &mut ecs, "Helm", at(9, 9)).unwrap();
    let e = spawn_named_entity(&rm, &mut ecs, "Guard", at(1, 1)).unwrap().unwrap();
    assert_eq!(e, Entity { id: 1 });
    assert_eq!(ecs.len(), 4);
    assert_eq!(entity_name(&ecs.entities[1]).unwrap(), "Guard");
    assert_eq!(entity_name(&ecs.entities[2]).unwrap(), "Sword");
    assert_eq!(entity_name(&ecs.entities[3]).unwrap(), "Helm");
    assert_eq!(ecs.entities[2][1], Component::Equipped { owner: e, slot: EquipmentSlot::Melee });
    assert_eq!(ecs.entities[3][1], Component::Equipped { owner: e, slot: EquipmentSlot::Head });
    assert_eq!(ecs.entities[1][1], Component::Position { x: 1, y: 1 });
}

#[test]
fn mob_with_unequippable_equipment_is_not_spawned() {
    let mut sword = item("Sword");
    sword.weapon = Some(weapon("1d8"));
    let mut juggler = mob("Juggler");
    juggler.equipped = Some(vec!["Sword".to_string(), "Rock".to_string()]);
    let mut rider = mob("Rider");
    rider.equipped = Some(vec!["Horse".to_string()]);
    let mut carpenter = mob("Carpenter");
    carpenter.equipped = Some(vec!["Table".to_string()]);
    let mut fumbler = mob("Fumbler");
    fumbler.equipped = Some(vec!["Broken".to_string()]);
    let mut broken = item("Broken");
    broken.weapon = Some(weapon("?"));
    let rm = catalog(
        vec![sword, item("Rock"), broken],
        vec![juggler, rider, mob("Horse"), carpenter, fumbler],
        vec![prop("Table")],
        vec![],
    );
    let mut ecs = world();
    assert_eq!(spawn_named_mob(&rm, &mut ecs, "Juggler", at(0, 0)), Err(SpawnError::MissingEquipSlot));
    assert_eq!(spawn_named_entity(&rm, &mut ecs, "Juggler", at(0, 0)), Err(SpawnError::MissingEquipSlot));
    assert_eq!(spawn_named_mob(&rm, &mut ecs, "Rider", at(0, 0)), Err(SpawnError::MissingDefinition));
    assert_eq!(spawn_named_mob(&rm, &mut ecs, "Carpenter", at(0, 0)), Err(SpawnError::MissingDefinition));
    assert_eq!(spawn_named_mob(&rm, &mut ecs, "Fumbler", at(0, 0)), Err(SpawnError::MalformedValue));
    assert_eq!(ecs.len(), 0);
    assert_eq!(
        mob_entities(&rm, &ecs.dm, "Juggler", at(0, 0), 0, Entity { id: 0 }).err(),
        Some(SpawnError::MissingEquipSlot)
    );
}

#[test]
fn mob_with_unknown_equipment_is_not_spawned() {
    let mut club = item("Club");
    club.weapon = Some(weapon("1d4"));
    let mut thug = mob("Thug");
    thug.equipped = Some(vec!["Nonexistent Club".to_string()]);
    let mut bruiser = mob("Bruiser");
    bruiser.equipped = Some(vec!["Club".to_string(), "Nonexistent Club".to_string()]);
    let rm = catalog(vec![club], vec![thug, bruiser], vec![], vec![]);
    let mut ecs = world();
    assert_eq!(spawn_named_mob(&rm, &mut ecs, "Thug", at(0, 0)), Err(SpawnError::MissingDefinition));
    assert_eq!(spawn_named_entity(&rm, &mut ecs, "Thug", at(0, 0)), Err(SpawnError::MissingDefinition));
    assert_eq!(spawn_named_mob(&rm, &mut ecs, "Bruiser", at(0, 0)), Err(SpawnError::MissingDefinition));
    assert_eq!(
        mob_entities(&rm, &ecs.dm, "Thug", at(0, 0), 0, Entity { id: 0 }).err(),
        Some(SpawnError::MissingDefinition)
    );
    assert_eq!(ecs.len(), 0);
}

#[test]
fn mob_cannot_be_equipped() {
    let rm = catalog(vec![], vec![mob("Rat")], vec![prop("Door")], vec![]);
    let mut ecs = world();
    let by = Entity { id: 0 };
    assert_eq!(
        spawn_named_entity(&rm, &mut ecs, "Rat", SpawnType::Equipped { by }),
        Err(SpawnError::MissingDefinition)
    );
    assert_eq!(
        spawn_named_entity(&rm, &mut ecs, "Door", SpawnType::Equipped { by }),
        Err(SpawnError::MissingDefinition)
    );
    assert_eq!(spawn_named_entity(&rm, &mut ecs, "Nothing", SpawnType::Equipped { by }), Ok(None));
    assert_eq!(ecs.len(), 0);
}

#[test]
fn prop_blocks() {
    let mut door = prop("Door");
    door.hidden = Some(false);
    door.blocks_visibility = Some(true);
    door.door_open = Some(false);
    let mut trap = prop("Bear Trap");
    trap.hidden = Some(true);
    trap.entry_trigger = Some(EntryTrigger { effects: effects(&[("damage", "6"), ("single_activation", "1")]) });
    let mut lamp = prop("Lamp");
    lamp.light = Some(MobLight { range: 5, color: "#FFFF88".to_string() });
    let rm = catalog(vec![], vec![], vec![door, trap, lamp], vec![]);
    let mut ecs = world();
    let e = spawn_named_entity(&rm, &mut ecs, "Door", at(0, 0)).unwrap().unwrap();
    assert_eq!(ecs.entities[e.id][3..].to_vec(), vec![Component::BlocksVisibility, Component::Door { open: false }]);
    let e = spawn_named_entity(&rm, &mut ecs, "Bear Trap", at(0, 0)).unwrap().unwrap();
    assert_eq!(
        ecs.entities[e.id][3..].to_vec(),
        vec![
            Component::Hidden,
            Component::EntryTrigger,
            Component::InflictsDamage { damage: 6 },
            Component::SingleActivation,
        ]
    );
    let e = spawn_named_entity(&rm, &mut ecs, "Lamp", at(0, 0)).unwrap().unwrap();
    assert_eq!(
        ecs.entities[e.id][3..].to_vec(),
        vec![
            Component::LightSource { range: 5, color: rgb(255, 255, 136) },
            Component::Viewshed { range: 5, dirty: true },
        ]
    );
}

#[test]
fn prop_is_finished_from_a_started_entity() {
    let mut trap = prop("Trap");
    trap.entry_trigger = Some(EntryTrigger { effects: effects(&[("damage", "lots")]) });
    let mut door = prop("Door");
    door.door_open = Some(true);
    let mut ecs = world();
    let started = EntityBuilder::new().with(Component::Hidden);
    assert_eq!(spawn_named_prop(started, &trap, &mut ecs), Err(SpawnError::MalformedValue));
    assert_eq!(ecs.len(), 0);
    let started = EntityBuilder::new().with(Component::Hidden);
    assert_eq!(spawn_named_prop(started, &door, &mut ecs), Ok(Entity { id: 0 }));
    assert_eq!(ecs.entities[0], vec![Component::Hidden, Component::Door { open: true }]);
}

#[test]
fn item_goes_before_mob_and_prop() {
    let mut mimic_item = item("Mimic");
    mimic_item.base_value = Some(num(3.0));
    let rm = catalog(vec![mimic_item], vec![mob("Mimic"), mob("Crate")], vec![prop("Mimic"), prop("Crate")], vec![]);
    let mut ecs = world();
    let e = spawn_named_entity(&rm, &mut ecs, "Mimic", at(0, 0)).unwrap().unwrap();
    assert!(ecs.entities[e.id].iter().any(|c| matches!(c, Component::Item { .. })));
    assert!(!ecs.entities[e.id].iter().any(|c| matches!(c, Component::Attributes { .. })));
    let e = spawn_named_entity(&rm, &mut ecs, "Crate", at(0, 0)).unwrap().unwrap();
    assert!(ecs.entities[e.id].iter().any(|c| matches!(c, Component::Attributes { .. })));
}

#[test]
fn unknown_key_spawns_nothing() {
    let rm = catalog(vec![item("Rock")], vec![], vec![], vec![]);
    let mut ecs = world();
    assert_eq!(spawn_named_entity(&rm, &mut ecs, "Nothing", at(0, 0)), Ok(None));
    assert_eq!(ecs.len(), 0);
}

fn spell(name: &str, mana_cost: i32, list: &[(&str, &str)]) -> Spell {
    Spell { name: name.to_string(), mana_cost, effects: effects(list) }
}

#[test]
fn spell_entity() {
    let rm = catalog(vec![], vec![], vec![], vec![spell("Zap", 2, &[("ranged", "6"), ("damage", "5")]), spell("Bad", 1, &[("damage", "")])]);
    let mut ecs = world();
    assert_eq!(spawn_named_spell(&rm, &mut ecs, "Zap"), Ok(Some(Entity { id: 0 })));
    assert_eq!(
        ecs.entities[0],
        vec![
            Component::SerializeMe,
            Component::SpellTemplate { mana_cost: 2 },
            name("Zap"),
            Component::Ranged { range: 6 },
            Component::InflictsDamage { damage: 5 },
        ]
    );
    assert_eq!(spawn_named_spell(&rm, &mut ecs, "Fizzle"), Ok(None));
    assert_eq!(spawn_named_spell(&rm, &mut ecs, "Bad"), Err(SpawnError::MalformedValue));
    assert_eq!(ecs.len(), 1);
}

#[test]
fn all_spells_are_spawned_in_order() {
    let rm = catalog(vec![], vec![], vec![], vec![spell("Zap", 2, &[]), spell("Web", 3, &[("slow", "2.0")]), spell("Zap", 9, &[])]);
    let mut ecs = world();
    assert_eq!(spawn_all_spells(&rm, &mut ecs), Ok(()));
    assert_eq!(ecs.len(), 3);
    assert_eq!(ecs.entities[0][1], Component::SpellTemplate { mana_cost: 9 });
    assert_eq!(ecs.entities[1][1], Component::SpellTemplate { mana_cost: 3 });
    assert_eq!(ecs.entities[2][1], Component::SpellTemplate { mana_cost: 9 });
    assert_eq!(find_spell_entity(&ecs, "Web"), Some(Entity { id: 1 }));
    assert_eq!(find_spell_entity(&ecs, "Zap"), Some(Entity { id: 0 }));
    assert_eq!(find_spell_entity(&ecs, "Fizzle"), None);
}

#[test]
fn all_spells_or_none() {
    let rm = catalog(vec![], vec![], vec![], vec![spell("Zap", 2, &[]), spell("Bad", 1, &[("ranged", "far")])]);
    let mut ecs = world();
    assert_eq!(spawn_all_spells(&rm, &mut ecs), Err(SpawnError::MalformedValue));
    assert_eq!(ecs.len(), 0);
}

#[test]
fn spell_entities_are_found_by_name() {
    let rm = catalog(vec![item("Zap")], vec![], vec![], vec![spell("Zap", 2, &[])]);
    let mut ecs = world();
    spawn_named_item(&rm, &mut ecs, "Zap", at(0, 0)).unwrap();
    assert_eq!(find_spell_entity(&ecs, "Zap"), None);
    spawn_named_spell(&rm, &mut ecs, "Zap").unwrap();
    assert_eq!(find_spell_entity(&ecs, "Zap"), Some(Entity { id: 1 }));
    assert_eq!(find_spell_entity(&ecs, "zap"), None);
    ecs.entities[1].push(name("Renamed"));
    assert_eq!(find_spell_entity(&ecs, "Zap"), None);
    assert_eq!(find_spell_entity(&ecs, "Renamed"), Some(Entity { id: 1 }));
}

#[test]
fn spell_entities_are_found_in_storages() {
    let e = |id: usize| Entity { id };
    let names = vec![
        (e(0), "Zap".to_string()),
        (e(1), "Zap".to_string()),
        (e(2), "Web".to_string()),
        (e(3), "Zap".to_string()),
        (e(3), "Zip".to_string()),
        (e(5), "Zap".to_string()),
    ];
    let spell_templates = vec![e(1), e(2), e(3), e(4), e(5)];
    let entities = vec![e(0), e(1), e(2), e(3), e(4), e(5)];
    assert_eq!(find_spell_entity_by_name("Zap", &names, &spell_templates, &entities), Some(e(1)));
    assert_eq!(find_spell_entity_by_name("Web", &names, &spell_templates, &entities), Some(e(2)));
    assert_eq!(find_spell_entity_by_name("Zip", &names, &spell_templates, &entities), Some(e(3)));
    assert_eq!(find_spell_entity_by_name("Zop", &names, &spell_templates, &entities), None);
    assert_eq!(find_spell_entity_by_name("Zap", &names, &vec![e(0)], &vec![e(1), e(5)]), None);
    assert_eq!(find_spell_entity_by_name("Zap", &names, &spell_templates, &vec![e(5), e(1)]), Some(e(5)));
    assert_eq!(find_spell_entity_by_name("Zap", &vec![], &spell_templates, &entities), None);
}

#[test]
fn shown_name_of_an_item() {
    let mut dm = MasterDungeonMap::new();
    let own = "Scroll of Identify".to_string();
    let other = "Scroll of Oxbar Zyf".to_string();
    assert_eq!(obfuscate_name(None, true, Some(&other), &dm), "Nameless item (bug)");
    assert_eq!(obfuscate_name(Some(&own), false, Some(&other), &dm), "Scroll of Identify");
    assert_eq!(obfuscate_name(Some(&own), true, Some(&other), &dm), "Scroll of Oxbar Zyf");
    assert_eq!(obfuscate_name(Some(&own), true, None, &dm), "Unidentified magic item");
    dm.identified_items.push(own.clone());
    assert_eq!(obfuscate_name(Some(&own), true, Some(&other), &dm), "Scroll of Identify");
    assert_eq!(obfuscate_name(Some(&own), true, None, &dm), "Scroll of Identify");
}

#[test]
fn unknown_names_are_handed_back() {
    let list = effects(&[("levitate", "x"), ("damage", "2"), ("glow", ""), ("Damage", "1"), ("levitate", "")]);
    assert_eq!(unknown_effect_tags(&list), vec!["levitate", "glow", "Damage", "levitate"]);
    assert!(unknown_effect_tags(&effects(&[("food", ""), ("slow", "bad")])).is_empty());
    assert!(unknown_effect_tags(&vec![]).is_empty());
    for tag in [
        "area_of_effect", "confusion", "damage", "damage_over_time", "duration", "food", "identify",
        "magic_mapping", "particle", "particle_line", "provides_healing", "provides_mana", "ranged",
        "remove_curse", "single_activation", "slow", "target_self", "teach_spell", "town_portal",
    ] {
        assert!(is_known_effect(tag), "{}", tag);
    }
    assert!(!is_known_effect("levitate"));
    assert!(!is_known_effect(""));
    let skills = vec![
        ("Melee".to_string(), 3),
        ("Juggling".to_string(), 9),
        ("magic".to_string(), 2),
        ("Defense".to_string(), 2),
        ("Magic".to_string(), 2),
    ];
    assert_eq!(unknown_skill_names(&skills), vec!["Juggling", "magic"]);
    assert!(unknown_skill_names(&vec![]).is_empty());
}
