//! Making the entity of a mob, and those of its starting equipment.

use vstd::prelude::*;
use vstd::string::*;
use crate::color::{color_of, parse_hex_color, Color};
use crate::components::{
    texts_view, Attribute, Component, ComponentView, Entity, Movement, NaturalAttack,
    NaturalAttackView, Pool, SpecialAbility, SpecialAbilityView,
};
use crate::dice::{dice_of, parse_dice_string};
use crate::gamesystem::{
    attr_bonus, attr_bonus_of, fits_i32, mana_at_level, mana_at_level_of, npc_hp, npc_hp_of,
};
use crate::name_map::lemma_lookup_position;
use crate::raws::Raws;
use crate::raws::rawmaster::{mob_index_of, RawMaster};
use crate::raws::rawmaster::item::item_components;
use crate::raws::rawmaster::laws::lemma_equipment_error_stays;
use crate::raws::rawmaster::spawn::{
    and_then, base_of, builds, entity_of, spawn_base_entity, SpawnError, SpawnType,
};
use crate::raws::structs::{
    names_of, Mob, MobAbility, MobAttack, MobAttributes, MobLight, MobNatural, Real,
};
use crate::sequence::{filter_map, lemma_filter_map_step};
use crate::text::str_eq;
use crate::toolkit::roll_dice;
use crate::world::{entities_view, EntityBuilder, MasterDungeonMap, World};
use rltk::RandomNumberGenerator;

verus! {

/// How a mob moves: at random or between waypoints where it says so, else
/// not at all.
pub open spec fn movement_of(movement: Seq<char>) -> Movement {
    if movement == "random"@ {
        Movement::Random
    } else if movement == "random_waypoint"@ {
        Movement::RandomWaypoint
    } else {
        Movement::Static
    }
}

/// How a mob starts out on the map: its way of moving, whether it blocks
/// its tile, and its sight, which has yet to be worked out.
pub open spec fn presence_of(mob: Mob) -> Seq<ComponentView> {
    seq![ComponentView::MoveMode { mode: movement_of(mob.movement@) }] + (if mob.blocks_tile {
        seq![ComponentView::BlocksTile]
    } else {
        Seq::empty()
    }) + seq![ComponentView::Viewshed { range: mob.vision_range, dirty: true }]
}

/// The lines that a mob may say, where it has any.
pub open spec fn quips_of(quips: Option<Vec<String>>) -> Seq<ComponentView> {
    match quips {
        Some(q) => seq![ComponentView::Quips { available: texts_view(q@) }],
        None => Seq::empty(),
    }
}

/// A natural attack with its damage dice, or nothing where the damage is
/// not written as a dice expression.
pub open spec fn natural_attack_of(attack: MobAttack) -> Option<
    NaturalAttackView,
> {
    match dice_of(attack.damage@) {
        Some(dice) => Some(
            NaturalAttackView {
                name: attack.name@,
                hit_bonus: attack.hit_bonus,
                damage_n_dice: dice.0 as i32,
                damage_die_type: dice.1 as i32,
                damage_bonus: dice.2 as i32,
            },
        ),
        None => None,
    }
}

/// The natural attacks of a list, in its order. The first attack whose
/// damage is malformed makes the whole list an error.
pub open spec fn natural_attacks_of(attacks: Seq<MobAttack>) -> Result<
    Seq<NaturalAttackView>,
    SpawnError,
>
    decreases attacks.len(),
{
    if attacks.len() == 0 {
        Ok(Seq::empty())
    } else {
        match natural_attacks_of(attacks.drop_last()) {
            Err(e) => Err(e),
            Ok(before) => match natural_attack_of(attacks.last()) {
                Some(a) => Ok(before.push(a)),
                None => Err(SpawnError::MalformedValue),
            },
        }
    }
}

/// What a natural block attaches: the armour class and the natural attacks.
pub open spec fn natural_of(natural: Option<MobNatural>) -> Result<Seq<ComponentView>, SpawnError> {
    match natural {
        None => Ok(Seq::empty()),
        Some(na) => match na.attacks {
            None => Ok(
                seq![
                    ComponentView::NaturalAttackDefense {
                        armor_class: na.armor_class,
                        attacks: Seq::empty(),
                    },
                ],
            ),
            Some(list) => match natural_attacks_of(list@) {
                Err(e) => Err(e),
                Ok(attacks) => Ok(
                    seq![ComponentView::NaturalAttackDefense { armor_class: na.armor_class, attacks }],
                ),
            },
        },
    }
}

/// The value that every attribute has unless the definition gives another.
pub open spec fn baseline() -> i32 {
    11
}

/// The value, or the baseline where there is none.
pub open spec fn or_baseline(value: Option<i32>) -> i32 {
    match value {
        Some(v) => v,
        None => baseline(),
    }
}

/// An attribute of a new mob: the definition's value or the baseline,
/// unmodified, with the bonus that belongs to that value.
pub open spec fn attribute_of(value: Option<i32>) -> Attribute {
    Attribute {
        base: or_baseline(value),
        modifiers: 0,
        bonus: attr_bonus_of(or_baseline(value) as int) as i32,
    }
}

/// The four attributes of a new mob.
pub open spec fn attributes_of(a: MobAttributes) -> Seq<ComponentView> {
    seq![
        ComponentView::Attributes {
            might: attribute_of(a.might),
            fitness: attribute_of(a.fitness),
            quickness: attribute_of(a.quickness),
            intelligence: attribute_of(a.intelligence),
        },
    ]
}

/// The level of a new mob: one unless the definition gives another.
pub open spec fn level_of(mob: Mob) -> i32 {
    match mob.level {
        Some(l) => l,
        None => 1,
    }
}

/// The dice that are rolled for a mob's gold: none without a gold
/// expression. An expression that is no dice expression is an error, and so
/// is one that cannot be rolled: dice without sides, or dice whose highest
/// roll with the bonus leaves 32 bits.
pub open spec fn gold_dice_of(gold: Option<String>) -> Result<Option<(int, int, int)>, SpawnError> {
    match gold {
        None => Ok(None),
        Some(text) => match dice_of(text@) {
            None => Err(SpawnError::MalformedValue),
            Some(dice) => if 1 <= dice.1 < i32::MAX && dice.0 * dice.1 <= i32::MAX && dice.0 * dice.1
                + dice.2 <= i32::MAX {
                Ok(Some(dice))
            } else {
                Err(SpawnError::MalformedValue)
            },
        },
    }
}

/// Whether `gold` is an amount that a mob of the gold expression `text` may
/// carry: zero without an expression, else a roll of the dice, which lies
/// between one and the number of sides for each die, with the bonus.
pub open spec fn gold_allowed(text: Option<String>, gold: int) -> bool {
    match gold_dice_of(text) {
        Ok(None) => gold == 0,
        Ok(Some(dice)) => dice.0 + dice.2 <= gold <= dice.0 * dice.1 + dice.2,
        Err(_) => true,
    }
}

/// The pools of a new mob that carries `gold`: its level without
/// experience, hit points and mana as its fitness, intelligence and level
/// give them, both full, and no load.
pub open spec fn pools_of(mob: Mob, gold: i32) -> Result<Seq<ComponentView>, SpawnError> {
    let level = level_of(mob);
    let hp = npc_hp_of(or_baseline(mob.attributes.fitness) as int, level as int);
    let mana = mana_at_level_of(or_baseline(mob.attributes.intelligence) as int, level as int);
    if !fits_i32(hp) || !fits_i32(mana) {
        Err(SpawnError::StatOverflow)
    } else {
        match gold_dice_of(mob.gold) {
            Err(e) => Err(e),
            Ok(_) => Ok(
                seq![
                    ComponentView::Pools {
                        level,
                        xp: 0,
                        hit_points: Pool { max: hp as i32, current: hp as i32 },
                        mana: Pool { max: mana as i32, current: mana as i32 },
                        total_weight: Real { bits: 0 },
                        total_initiative_penalty: Real { bits: 0 },
                        gold,
                        god_mode: false,
                    },
                ],
            ),
        }
    }
}

/// The ranks in melee, defense and magic after the overrides of `skills`
/// are applied in their order to ranks of one. A name that is none of the
/// three skills changes nothing.
pub open spec fn skill_ranks(skills: Seq<(String, i32)>) -> (i32, i32, i32)
    decreases skills.len(),
{
    if skills.len() == 0 {
        (1, 1, 1)
    } else {
        let before = skill_ranks(skills.drop_last());
        let (name, rank) = skills.last();
        if name@ == "Melee"@ {
            (rank, before.1, before.2)
        } else if name@ == "Defense"@ {
            (before.0, rank, before.2)
        } else if name@ == "Magic"@ {
            (before.0, before.1, rank)
        } else {
            before
        }
    }
}

/// Whether `name` names one of the three skills.
pub open spec fn is_skill_name(name: Seq<char>) -> bool {
    name == "Melee"@ || name == "Defense"@ || name == "Magic"@
}

/// An override under a name that is none of the three skills changes no
/// rank.
pub proof fn lemma_unknown_skill_changes_nothing(skills: Seq<(String, i32)>)
    requires
        skills.len() > 0,
        !is_skill_name(skills.last().0@),
    ensures
        skill_ranks(skills) == skill_ranks(skills.drop_last()),
{
}

/// The name of an override where it names none of the three skills, else
/// nothing.
pub open spec fn unknown_skill() -> spec_fn((String, i32)) -> Option<Seq<char>> {
    |skill: (String, i32)|
        if is_skill_name(skill.0@) {
            None
        } else {
            Some(skill.0@)
        }
}

/// The names of `skills` that name none of the three skills, in their
/// order: the overrides that change nothing, for whoever wants to warn of
/// them.
pub fn unknown_skill_names(skills: &Vec<(String, i32)>) -> (result: Vec<String>)
    ensures
        texts_view(result@) == filter_map(skills@, unknown_skill()),
{
    let mut result: Vec<String> = Vec::new();
    let mut i: usize = 0;
    while i < skills.len()
        invariant
            i <= skills.len(),
            texts_view(result@) == filter_map(skills@.take(i as int), unknown_skill()),
        decreases skills.len() - i,
    {
        let ghost before = texts_view(result@);
        let name = skills[i].0.as_str();
        proof {
            lemma_filter_map_step(skills@, unknown_skill(), i as int);
        }
        if !(str_eq(name, "Melee") || str_eq(name, "Defense") || str_eq(name, "Magic")) {
            result.push(skills[i].0.clone());
            assert(texts_view(result@) =~= before.push(skills@[i as int].0@));
        }
        i = i + 1;
    }
    assert(skills@.take(i as int) =~= skills@);
    result
}

/// The skills of a new mob.
pub open spec fn skills_of(skills: Option<Vec<(String, i32)>>) -> Seq<ComponentView> {
    let ranks = match skills {
        Some(list) => skill_ranks(list@),
        None => (1i32, 1i32, 1i32),
    };
    seq![ComponentView::Skills { melee: ranks.0, defense: ranks.1, magic: ranks.2 }]
}

/// The loot table of a mob, where it names one.
pub open spec fn loot_of(loot_table: Option<String>) -> Seq<ComponentView> {
    match loot_table {
        Some(table) => seq![ComponentView::LootTable { table: table@ }],
        None => Seq::empty(),
    }
}

/// A light of `range` in `color`. There is none where the colour is
/// missing.
pub open spec fn light_source_of(range: i32, color: Option<Color>) -> Result<ComponentView, SpawnError> {
    match color {
        Some(color) => Ok(ComponentView::LightSource { range, color }),
        None => Err(SpawnError::InvalidColor),
    }
}

/// The light that a mob gives off, where it gives any.
pub open spec fn light_of(light: Option<MobLight>) -> Result<Seq<ComponentView>, SpawnError> {
    match light {
        None => Ok(Seq::empty()),
        Some(l) => match light_source_of(l.range, color_of(l.color@)) {
            Ok(source) => Ok(seq![source]),
            Err(e) => Err(e),
        },
    }
}

/// The faction of a mob whose definition names none.
pub open spec fn default_faction() -> Seq<char> {
    "Mindless"@
}

/// How a new mob stands in the turn order and among the factions: a fixed
/// first initiative, its faction or the default one, and the mark that its
/// equipment has yet to be accounted for.
pub open spec fn standing_of(faction: Option<String>) -> Seq<ComponentView> {
    seq![
        ComponentView::Initiative { current: 2 },
        ComponentView::Faction {
            name: match faction {
                Some(name) => name@,
                None => default_faction(),
            },
        },
        ComponentView::EquipmentChanged,
    ]
}

/// The categories that a mob sells, where it is a vendor.
pub open spec fn vendor_of(vendor: Option<Vec<String>>) -> Seq<ComponentView> {
    match vendor {
        Some(categories) => seq![ComponentView::Vendor { categories: texts_view(categories@) }],
        None => Seq::empty(),
    }
}

/// An ability of a definition as an ability of a creature.
pub open spec fn ability_of(ability: MobAbility) -> SpecialAbilityView {
    SpecialAbilityView {
        spell: ability.spell@,
        chance: ability.chance,
        range: ability.range,
        min_range: ability.min_range,
    }
}

/// The abilities of a list, in its order.
pub open spec fn abilities_view(abilities: Seq<MobAbility>) -> Seq<SpecialAbilityView> {
    abilities.map_values(|a: MobAbility| ability_of(a))
}

/// The abilities that a mob uses of its own accord, where it has any.
pub open spec fn abilities_of(abilities: Option<Vec<MobAbility>>) -> Seq<ComponentView> {
    match abilities {
        Some(list) => seq![ComponentView::SpecialAbilities { abilities: abilities_view(list@) }],
        None => Seq::empty(),
    }
}

/// The abilities that go off when a mob dies, where it has any.
pub open spec fn on_death_of(abilities: Option<Vec<MobAbility>>) -> Seq<ComponentView> {
    match abilities {
        Some(list) => seq![ComponentView::OnDeath { abilities: abilities_view(list@) }],
        None => Seq::empty(),
    }
}

/// The components of the entity that is made of the mob definition `mob`,
/// found under `key`, for the placement `pos`, where the mob carries `gold`.
pub open spec fn mob_of(raws: Raws, mob: Mob, key: Seq<char>, pos: SpawnType, gold: i32) -> Result<
    Seq<ComponentView>,
    SpawnError,
> {
    and_then(
        and_then(
            and_then(
                and_then(
                    and_then(
                        and_then(
                            and_then(
                                and_then(
                                    and_then(
                                        and_then(
                                            and_then(
                                                and_then(
                                                    base_of(raws, mob.name, mob.renderable, key, pos),
                                                    Ok(presence_of(mob)),
                                                ),
                                                Ok(quips_of(mob.quips)),
                                            ),
                                            natural_of(mob.natural),
                                        ),
                                        Ok(attributes_of(mob.attributes)),
                                    ),
                                    pools_of(mob, gold),
                                ),
                                Ok(skills_of(mob.skills)),
                            ),
                            Ok(loot_of(mob.loot_table)),
                        ),
                        light_of(mob.light),
                    ),
                    Ok(standing_of(mob.faction)),
                ),
                Ok(vendor_of(mob.vendor)),
            ),
            Ok(abilities_of(mob.abilities)),
        ),
        Ok(on_death_of(mob.on_death)),
    )
}

fn clone_texts(texts: &Vec<String>) -> (r: Vec<String>)
    ensures
        texts_view(r@) == texts_view(texts@),
{
    let mut r: Vec<String> = Vec::new();
    let mut i: usize = 0;
    while i < texts.len()
        invariant
            i <= texts.len(),
            texts_view(r@) == texts_view(texts@.take(i as int)),
        decreases texts.len() - i,
    {
        let ghost before = texts_view(r@);
        r.push(texts[i].clone());
        assert(texts_view(r@) =~= before.push(texts@[i as int]@));
        i = i + 1;
        assert(texts_view(texts@.take(i as int)) =~= before.push(texts@[i - 1]@));
    }
    assert(texts@.take(i as int) =~= texts@);
    r
}

fn attach_presence(mob: &Mob, eb: EntityBuilder) -> (r: EntityBuilder)
    ensures
        r@ == eb@ + presence_of(*mob),
{
    let mode = if str_eq(mob.movement.as_str(), "random") {
        Movement::Random
    } else if str_eq(mob.movement.as_str(), "random_waypoint") {
        Movement::RandomWaypoint
    } else {
        Movement::Static
    };
    let mut r = eb.with(Component::MoveMode { mode });
    if mob.blocks_tile {
        r = r.with(Component::BlocksTile);
    }
    r = r.with(Component::Viewshed { range: mob.vision_range, dirty: true });
    assert(r@ =~= eb@ + presence_of(*mob));
    r
}

fn attach_quips(quips: &Option<Vec<String>>, eb: EntityBuilder) -> (r: EntityBuilder)
    ensures
        r@ == eb@ + quips_of(*quips),
{
    let r = match quips {
        Some(q) => eb.with(Component::Quips { available: clone_texts(q) }),
        None => eb,
    };
    assert(r@ =~= eb@ + quips_of(*quips));
    r
}

/// An error among the first attacks is the error of the whole list.
proof fn lemma_natural_attacks_error(attacks: Seq<MobAttack>, i: int)
    requires
        0 <= i < attacks.len(),
        natural_attacks_of(attacks.take(i + 1)) is Err,
    ensures
        natural_attacks_of(attacks) == natural_attacks_of(attacks.take(i + 1)),
    decreases attacks.len() - i,
{
    if i + 1 == attacks.len() {
        assert(attacks.take(i + 1) =~= attacks);
    } else {
        assert(attacks.take(i + 2).drop_last() =~= attacks.take(i + 1));
        lemma_natural_attacks_error(attacks, i + 1);
    }
}

fn natural_attacks(attacks: &Vec<MobAttack>) -> (r: Result<
    Vec<NaturalAttack>,
    SpawnError,
>)
    ensures
        match natural_attacks_of(attacks@) {
            Ok(list) => r matches Ok(v) && v@.map_values(|a: NaturalAttack| a@) == list,
            Err(e) => r matches Err(x) && x == e,
        },
{
    let mut v: Vec<NaturalAttack> = Vec::new();
    let mut i: usize = 0;
    assert(v@.map_values(|a: NaturalAttack| a@) =~= Seq::<NaturalAttackView>::empty());
    while i < attacks.len()
        invariant
            i <= attacks.len(),
            natural_attacks_of(attacks@.take(i as int)) matches Ok(list) && v@.map_values(
                |a: NaturalAttack| a@,
            ) == list,
        decreases attacks.len() - i,
    {
        let nattack = &attacks[i];
        let ghost before = v@.map_values(|a: NaturalAttack| a@);
        proof {
            assert(attacks@.take(i + 1).last() == *nattack);
            assert(attacks@.take(i + 1).drop_last() =~= attacks@.take(i as int));
        }
        match parse_dice_string(nattack.damage.as_str()) {
            Some((n, d, b)) => {
                let attack = NaturalAttack {
                    name: nattack.name.clone(),
                    hit_bonus: nattack.hit_bonus,
                    damage_n_dice: n,
                    damage_die_type: d,
                    damage_bonus: b,
                };
                v.push(attack);
                assert(v@.map_values(|a: NaturalAttack| a@) =~= before.push(attack@));
            },
            None => {
                proof {
                    lemma_natural_attacks_error(attacks@, i as int);
                }
                return Err(SpawnError::MalformedValue);
            },
        }
        i = i + 1;
    }
    assert(attacks@.take(i as int) =~= attacks@);
    Ok(v)
}

fn attach_natural(natural: &Option<MobNatural>, eb: EntityBuilder) -> (r: Result<EntityBuilder, SpawnError>)
    ensures
        builds(r, and_then(Ok(eb@), natural_of(*natural))),
{
    match natural {
        None => {
            assert(eb@ =~= eb@ + Seq::<ComponentView>::empty());
            Ok(eb)
        },
        Some(na) => {
            let attacks = match &na.attacks {
                Some(list) => natural_attacks(list)?,
                None => Vec::new(),
            };
            assert(na.attacks is None ==> attacks@.map_values(|a: NaturalAttack| a@)
                =~= Seq::<NaturalAttackView>::empty());
            let done = eb.with(Component::NaturalAttackDefense { armor_class: na.armor_class, attacks });
            assert(done@ =~= eb@ + natural_of(Some(*na))->Ok_0);
            Ok(done)
        },
    }
}

fn attribute(value: Option<i32>) -> (r: Attribute)
    ensures
        r == attribute_of(value),
{
    let base = match value {
        Some(v) => v,
        None => 11,
    };
    Attribute { base, modifiers: 0, bonus: attr_bonus(base) }
}

fn attach_attributes(a: &MobAttributes, eb: EntityBuilder) -> (r: EntityBuilder)
    ensures
        r@ == eb@ + attributes_of(*a),
{
    let r = eb.with(
        Component::Attributes {
            might: attribute(a.might),
            fitness: attribute(a.fitness),
            quickness: attribute(a.quickness),
            intelligence: attribute(a.intelligence),
        },
    );
    assert(r@ =~= eb@ + attributes_of(*a));
    r
}

/// The dice that are rolled for a mob's gold.
pub fn gold_dice(gold: &Option<String>) -> (r: Result<Option<(i32, i32, i32)>, SpawnError>)
    ensures
        match gold_dice_of(*gold) {
            Ok(Some(dice)) => r matches Ok(Some(d)) && d.0 == dice.0 && d.1 == dice.1 && d.2 == dice.2,
            Ok(None) => r matches Ok(None),
            Err(e) => r matches Err(x) && x == e,
        },
{
    match gold {
        None => Ok(None),
        Some(text) => match parse_dice_string(text.as_str()) {
            None => Err(SpawnError::MalformedValue),
            Some((n, d, b)) => {
                if d < 1 || d == i32::MAX {
                    return Err(SpawnError::MalformedValue);
                }
                assert(0 <= n as int * d as int <= 0x7fff_ffff * 0x7fff_ffff) by (nonlinear_arith)
                    requires
                        0 <= n <= 0x7fff_ffff,
                        0 <= d <= 0x7fff_ffff,
                ;
                let highest: i64 = n as i64 * d as i64;
                if highest > i32::MAX as i64 || highest + b as i64 > i32::MAX as i64 {
                    return Err(SpawnError::MalformedValue);
                }
                Ok(Some((n, d, b)))
            },
        },
    }
}

/// Rolls the gold of a mob. Where the gold expression is an error the
/// amount is of no account.
fn roll_gold(gold: &Option<String>, rng: &mut RandomNumberGenerator) -> (amount: i32)
    ensures
        gold_allowed(*gold, amount as int),
{
    match gold_dice(gold) {
        Ok(Some((n, d, b))) => {
            proof {
                let dice = gold_dice_of(*gold)->Ok_0->0;
                assert(dice.0 >= 0);
            }
            let roll = roll_dice(rng, n, d);
            assert(n as int + b as int >= i32::MIN);
            roll + b
        },
        _ => 0,
    }
}

fn attach_pools(mob: &Mob, gold: i32, eb: EntityBuilder) -> (r: Result<EntityBuilder, SpawnError>)
    ensures
        builds(r, and_then(Ok(eb@), pools_of(*mob, gold))),
{
    let fitness = match mob.attributes.fitness {
        Some(v) => v,
        None => 11,
    };
    let intelligence = match mob.attributes.intelligence {
        Some(v) => v,
        None => 11,
    };
    let level = match mob.level {
        Some(l) => l,
        None => 1,
    };
    let hp = npc_hp(fitness, level);
    let mana = mana_at_level(intelligence, level);
    let (mob_hp, mob_mana) = match (hp, mana) {
        (Some(hp), Some(mana)) => (hp, mana),
        _ => {
            return Err(SpawnError::StatOverflow);
        },
    };
    let _ = gold_dice(&mob.gold)?;
    let zero = Real::zero();
    let done = eb.with(
        Component::Pools {
            level,
            xp: 0,
            hit_points: Pool { max: mob_hp, current: mob_hp },
            mana: Pool { max: mob_mana, current: mob_mana },
            total_weight: zero,
            total_initiative_penalty: zero,
            gold,
            god_mode: false,
        },
    );
    assert(done@ =~= eb@ + pools_of(*mob, gold)->Ok_0);
    Ok(done)
}

fn ranks(skills: &Vec<(String, i32)>) -> (r: (i32, i32, i32))
    ensures
        r == skill_ranks(skills@),
{
    let mut melee: i32 = 1;
    let mut defense: i32 = 1;
    let mut magic: i32 = 1;
    let mut i: usize = 0;
    assert(skills@.take(0) =~= Seq::<(String, i32)>::empty());
    while i < skills.len()
        invariant
            i <= skills.len(),
            (melee, defense, magic) == skill_ranks(skills@.take(i as int)),
        decreases skills.len() - i,
    {
        let sk = &skills[i];
        proof {
            assert(skills@.take(i + 1).last() == *sk);
            assert(skills@.take(i + 1).drop_last() =~= skills@.take(i as int));
        }
        if str_eq(sk.0.as_str(), "Melee") {
            melee = sk.1;
        } else if str_eq(sk.0.as_str(), "Defense") {
            defense = sk.1;
        } else if str_eq(sk.0.as_str(), "Magic") {
            magic = sk.1;
        }
        i = i + 1;
    }
    assert(skills@.take(i as int) =~= skills@);
    (melee, defense, magic)
}

fn attach_skills(skills: &Option<Vec<(String, i32)>>, eb: EntityBuilder) -> (r: EntityBuilder)
    ensures
        r@ == eb@ + skills_of(*skills),
{
    let (melee, defense, magic) = match skills {
        Some(list) => ranks(list),
        None => (1, 1, 1),
    };
    let r = eb.with(Component::Skills { melee, defense, magic });
    assert(r@ =~= eb@ + skills_of(*skills));
    r
}

fn attach_loot(loot_table: &Option<String>, eb: EntityBuilder) -> (r: EntityBuilder)
    ensures
        r@ == eb@ + loot_of(*loot_table),
{
    let r = match loot_table {
        Some(loot) => eb.with(Component::LootTable { table: loot.clone() }),
        None => eb,
    };
    assert(r@ =~= eb@ + loot_of(*loot_table));
    r
}

/// A light of `range` in `color`.
pub fn light_source(range: i32, color: Option<Color>) -> (r: Result<Component, SpawnError>)
    ensures
        match light_source_of(range, color) {
            Ok(c) => r matches Ok(x) && x@ == c,
            Err(e) => r matches Err(x) && x == e,
        },
{
    match color {
        Some(color) => Ok(Component::LightSource { range, color }),
        None => Err(SpawnError::InvalidColor),
    }
}

fn attach_light(light: &Option<MobLight>, eb: EntityBuilder) -> (r: Result<EntityBuilder, SpawnError>)
    ensures
        builds(r, and_then(Ok(eb@), light_of(*light))),
{
    match light {
        None => {
            assert(eb@ =~= eb@ + Seq::<ComponentView>::empty());
            Ok(eb)
        },
        Some(light) => {
            let source = light_source(light.range, parse_hex_color(light.color.as_str()))?;
            let done = eb.with(source);
            assert(done@ =~= eb@ + light_of(Some(*light))->Ok_0);
            Ok(done)
        },
    }
}

fn attach_standing(faction: &Option<String>, eb: EntityBuilder) -> (r: EntityBuilder)
    ensures
        r@ == eb@ + standing_of(*faction),
{
    let name = match faction {
        Some(faction) => faction.clone(),
        None => "Mindless".to_owned(),
    };
    let r = eb.with(Component::Initiative { current: 2 }).with(Component::Faction { name }).with(
        Component::EquipmentChanged,
    );
    assert(r@ =~= eb@ + standing_of(*faction));
    r
}

fn attach_vendor(vendor: &Option<Vec<String>>, eb: EntityBuilder) -> (r: EntityBuilder)
    ensures
        r@ == eb@ + vendor_of(*vendor),
{
    let r = match vendor {
        Some(categories) => eb.with(Component::Vendor { categories: clone_texts(categories) }),
        None => eb,
    };
    assert(r@ =~= eb@ + vendor_of(*vendor));
    r
}

fn special_abilities(list: &Vec<MobAbility>) -> (r: Vec<SpecialAbility>)
    ensures
        r@.map_values(|a: SpecialAbility| a@) == abilities_view(list@),
{
    let mut r: Vec<SpecialAbility> = Vec::new();
    let mut i: usize = 0;
    while i < list.len()
        invariant
            i <= list.len(),
            r@.map_values(|a: SpecialAbility| a@) == abilities_view(list@.take(i as int)),
        decreases list.len() - i,
    {
        let ability = &list[i];
        let ghost before = r@.map_values(|a: SpecialAbility| a@);
        r.push(
            SpecialAbility {
                chance: ability.chance,
                spell: ability.spell.clone(),
                range: ability.range,
                min_range: ability.min_range,
            },
        );
        assert(r@.map_values(|a: SpecialAbility| a@) =~= before.push(ability_of(*ability)));
        i = i + 1;
        assert(abilities_view(list@.take(i as int)) =~= before.push(ability_of(*ability)));
    }
    assert(list@.take(i as int) =~= list@);
    r
}

fn attach_abilities(mob: &Mob, eb: EntityBuilder) -> (r: EntityBuilder)
    ensures
        r@ == eb@ + abilities_of(mob.abilities) + on_death_of(mob.on_death),
{
    let able = match &mob.abilities {
        Some(list) => eb.with(Component::SpecialAbilities { abilities: special_abilities(list) }),
        None => eb,
    };
    let r = match &mob.on_death {
        Some(list) => able.with(Component::OnDeath { abilities: special_abilities(list) }),
        None => able,
    };
    assert(r@ =~= eb@ + abilities_of(mob.abilities) + on_death_of(mob.on_death));
    r
}

/// The components of the mob that `key` names. A key that names no mob is
/// an error.
pub open spec fn mob_entity_of(raws: Raws, key: Seq<char>, pos: SpawnType, gold: i32) -> Result<
    Seq<ComponentView>,
    SpawnError,
> {
    match mob_index_of(raws, key) {
        Some(i) => mob_of(raws, raws.mobs@[i], key, pos, gold),
        None => Err(SpawnError::MissingDefinition),
    }
}

/// The entity of the mob that `key` names, carrying `gold`, ready to be
/// built.
pub fn mob_components(raws: &RawMaster, key: &str, pos: SpawnType, gold: i32) -> (r: Result<
    EntityBuilder,
    SpawnError,
>)
    ensures
        builds(r, mob_entity_of(raws.definitions(), key@, pos, gold)),
{
    let indexes = raws.mob_index();
    proof {
        lemma_lookup_position(indexes.bindings(), names_of(raws.definitions().mobs@), key@);
    }
    let (eb, mob) = spawn_base_entity(raws, &raws.raws().mobs, indexes, key, pos)?;
    let eb = attach_presence(mob, eb);
    let eb = attach_quips(&mob.quips, eb);
    let eb = attach_natural(&mob.natural, eb)?;
    let eb = attach_attributes(&mob.attributes, eb);
    let eb = attach_pools(mob, gold, eb)?;
    let eb = attach_skills(&mob.skills, eb);
    let eb = attach_loot(&mob.loot_table, eb);
    let eb = attach_light(&mob.light, eb)?;
    let eb = attach_standing(&mob.faction, eb);
    let eb = attach_vendor(&mob.vendor, eb);
    let eb = attach_abilities(mob, eb);
    Ok(eb)
}

/// The entity that a key of a mob's starting equipment makes: the entity
/// that the key names when it is spawned by itself, equipped by `owner`. A
/// key that names nothing is an error, for a mob cannot go without a piece
/// of its equipment.
pub open spec fn equipped_entity_of(raws: Raws, dm: MasterDungeonMap, tag: Seq<char>, owner: Entity) -> Result<
    Seq<ComponentView>,
    SpawnError,
> {
    match entity_of(raws, dm, tag, SpawnType::Equipped { by: owner }, 0) {
        Err(e) => Err(e),
        Ok(Some(cs)) => Ok(cs),
        Ok(None) => Err(SpawnError::MissingDefinition),
    }
}

/// The entities that the starting equipment `tags` of a mob makes: for each
/// tag, in order, the entity that the tag makes, equipped by `owner`. The
/// first tag of which no entity can be made makes the whole an error.
pub open spec fn equipment_of(raws: Raws, dm: MasterDungeonMap, tags: Seq<String>, owner: Entity) -> Result<
    Seq<Seq<ComponentView>>,
    SpawnError,
>
    decreases tags.len(),
{
    if tags.len() == 0 {
        Ok(Seq::empty())
    } else {
        match equipment_of(raws, dm, tags.drop_last(), owner) {
            Err(e) => Err(e),
            Ok(before) => match equipped_entity_of(raws, dm, tags.last()@, owner) {
                Err(e) => Err(e),
                Ok(cs) => Ok(before.push(cs)),
            },
        }
    }
}

/// The keys of the starting equipment of a mob.
pub open spec fn equipped_tags(mob: Mob) -> Seq<String> {
    match mob.equipped {
        Some(tags) => tags@,
        None => Seq::empty(),
    }
}

/// The entities that spawning the mob `key` makes: the mob, carrying
/// `gold`, and behind it its starting equipment, equipped by the mob, which
/// is the entity number `next`.
pub open spec fn mob_spawn_of(
    raws: Raws,
    dm: MasterDungeonMap,
    key: Seq<char>,
    pos: SpawnType,
    gold: i32,
    next: usize,
) -> Result<Seq<Seq<ComponentView>>, SpawnError> {
    match mob_entity_of(raws, key, pos, gold) {
        Err(e) => Err(e),
        Ok(mob) => match equipment_of(
            raws,
            dm,
            equipped_tags(raws.mobs@[mob_index_of(raws, key)->0]),
            Entity { id: next },
        ) {
            Err(e) => Err(e),
            Ok(equipment) => Ok(seq![mob] + equipment),
        },
    }
}

/// The amounts of gold that the mob `key` may carry.
pub open spec fn mob_gold_allowed(raws: Raws, key: Seq<char>, gold: int) -> bool {
    match mob_index_of(raws, key) {
        Some(i) => gold_allowed(raws.mobs@[i].gold, gold),
        None => gold == 0,
    }
}

/// The entity that a key of a mob's starting equipment makes, ready to be
/// built.
pub fn equipment_components(raws: &RawMaster, dm: &MasterDungeonMap, tag: &str, owner: Entity) -> (r: Result<
    EntityBuilder,
    SpawnError,
>)
    ensures
        builds(r, equipped_entity_of(raws.definitions(), *dm, tag@, owner)),
{
    let pos = SpawnType::Equipped { by: owner };
    if raws.find_item(tag).is_some() {
        item_components(raws, dm, tag, pos)
    } else {
        Err(SpawnError::MissingDefinition)
    }
}

/// The entities that spawning the mob `key` makes where the mob carries
/// `gold` and becomes the entity `owner`.
#[verifier::loop_isolation(false)]
pub fn mob_entities(
    raws: &RawMaster,
    dm: &MasterDungeonMap,
    key: &str,
    pos: SpawnType,
    gold: i32,
    owner: Entity,
) -> (r: Result<Vec<Vec<Component>>, SpawnError>)
    ensures
        match mob_spawn_of(raws.definitions(), *dm, key@, pos, gold, owner.id) {
            Ok(entities) => r matches Ok(list) && entities_view(list@) == entities,
            Err(e) => r matches Err(x) && x == e,
        },
{
    let mob = mob_components(raws, key, pos, gold)?;
    let index = match raws.find_mob(key) {
        Some(i) => i,
        None => {
            return Err(SpawnError::MissingDefinition);
        },
    };
    let mob_template = &raws.raws().mobs[index];
    let mut list: Vec<Vec<Component>> = Vec::new();
    assert(entities_view(list@) =~= Seq::<Seq<ComponentView>>::empty());
    mob.build_into(&mut list);
    assert(entities_view(list@) =~= seq![mob@]);
    if let Some(wielding) = &mob_template.equipped {
        let mut i: usize = 0;
        assert(entities_view(list@) =~= seq![mob@] + Seq::<Seq<ComponentView>>::empty());
        while i < wielding.len()
            invariant
                i <= wielding.len(),
                equipment_of(raws.definitions(), *dm, wielding@.take(i as int), owner) matches Ok(
                    equipment,
                ) && entities_view(list@) == seq![mob@] + equipment,
            decreases wielding.len() - i,
        {
            let tag = &wielding[i];
            proof {
                assert(wielding@.take(i + 1).last() == *tag);
                assert(wielding@.take(i + 1).drop_last() =~= wielding@.take(i as int));
            }
            let ghost before = equipment_of(raws.definitions(), *dm, wielding@.take(i as int), owner)->Ok_0;
            match equipment_components(raws, dm, tag.as_str(), owner) {
                Ok(eb) => {
                    eb.build_into(&mut list);
                    assert(entities_view(list@) =~= seq![mob@] + before.push(eb@));
                },
                Err(e) => {
                    proof {
                        lemma_equipment_error_stays(raws.definitions(), *dm, wielding@, owner, i as int);
                    }
                    return Err(e);
                },
            }
            i = i + 1;
        }
        assert(wielding@.take(i as int) =~= wielding@);
    } else {
        assert(entities_view(list@) =~= seq![mob@] + Seq::<Seq<ComponentView>>::empty());
    }
    Ok(list)
}

/// Makes the entity of the mob that `key` names, and behind it an entity
/// for each piece of its starting equipment, equipped by the mob, and adds
/// them to `ecs`. The mob's gold is rolled. Where any of these entities
/// cannot be made, `ecs` stays as it is.
pub fn spawn_named_mob(raws: &RawMaster, ecs: &mut World, key: &str, pos: SpawnType) -> (r: Result<
    Entity,
    SpawnError,
>)
    ensures
        final(ecs).dm == old(ecs).dm,
        exists|gold: i32| #[trigger]
            mob_gold_allowed(raws.definitions(), key@, gold as int) && match mob_spawn_of(
                raws.definitions(),
                old(ecs).dm,
                key@,
                pos,
                gold,
                old(ecs)@.len() as usize,
            ) {
                Ok(entities) => r matches Ok(e) && e.id == old(ecs)@.len() && final(ecs)@ == old(ecs)@
                    + entities,
                Err(err) => r matches Err(x) && x == err && final(ecs)@ == old(ecs)@,
            },
{
    let gold = match raws.find_mob(key) {
        Some(i) => roll_gold(&raws.raws().mobs[i].gold, &mut ecs.rng),
        None => 0,
    };
    assert(mob_gold_allowed(raws.definitions(), key@, gold as int));
    let new_mob = Entity { id: ecs.entities.len() };
    let list = mob_entities(raws, &ecs.dm, key, pos, gold, new_mob)?;
    ecs.add_all(list);
    Ok(new_mob)
}

/// Every gold expression allows some amount.
pub proof fn lemma_gold_exists(raws: Raws, key: Seq<char>)
    ensures
        exists|gold: i32| #[trigger] mob_gold_allowed(raws, key, gold as int),
{
    match mob_index_of(raws, key) {
        Some(i) => {
            match gold_dice_of(raws.mobs@[i].gold) {
                Ok(Some(dice)) => {
                    let text = raws.mobs@[i].gold->0;
                    assert(dice_of(text@) == Some(dice));
                    assert(dice.0 >= 0 && dice.2 >= i32::MIN);
                    assert(dice.0 * dice.1 >= dice.0) by (nonlinear_arith)
                        requires
                            dice.0 >= 0,
                            dice.1 >= 1,
                    ;
                    let g: i32 = (dice.0 + dice.2) as i32;
                    assert(mob_gold_allowed(raws, key, g as int));
                },
                _ => {
                    assert(mob_gold_allowed(raws, key, 0i32 as int));
                },
            }
        },
        None => {
            assert(mob_gold_allowed(raws, key, 0i32 as int));
        },
    }
}

} // verus!
