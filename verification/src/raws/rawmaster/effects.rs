//! The effects of consumables, weapon procs, traps and spells.

use vstd::prelude::*;
use vstd::string::*;
use crate::color::{color_of, parse_hex_color, Color};
use crate::components::{texts_view, Component, ComponentView};
use crate::raws::rawmaster::spawn::{builds, SpawnError};
use crate::sequence::{filter_map, lemma_filter_map_step};
use crate::text::{chars_of, int_of, is_float, is_float_text, parse_i32, str_eq};
use crate::toolkit::{cp437_of, to_cp437};
use crate::world::EntityBuilder;

verus! {

/// What an effect that carries a number attaches: the component that
/// `make` builds of the number. A value that is not written as a number is
/// an error.
pub open spec fn number_effect(value: Seq<char>, make: spec_fn(i32) -> ComponentView) -> Result<
    Option<ComponentView>,
    SpawnError,
> {
    match int_of(value) {
        Some(n) => Ok(Some(make(n as i32))),
        None => Err(SpawnError::MalformedValue),
    }
}

/// How long the field is with which `s` starts: how many characters stand
/// before the first `;`.
pub open spec fn field_len(s: Seq<char>) -> nat
    decreases s.len(),
{
    if s.len() > 0 && s[0] != ';' {
        1 + field_len(s.drop_first())
    } else {
        0
    }
}

/// The first three fields of a particle descriptor, which are separated by
/// `;`: the glyph, the colour and the lifetime. There are none where the
/// descriptor has fewer than three fields or its first field is empty.
pub open spec fn particle_fields(descriptor: Seq<char>) -> Option<(Seq<char>, Seq<char>, Seq<char>)> {
    let glyph = field_len(descriptor) as int;
    if glyph == 0 || glyph >= descriptor.len() {
        None
    } else {
        let rest = descriptor.skip(glyph + 1);
        let color = field_len(rest) as int;
        if color >= rest.len() {
            None
        } else {
            let tail = rest.skip(color + 1);
            Some((descriptor.take(glyph), rest.take(color), tail.take(field_len(tail) as int)))
        }
    }
}

/// The particle that is drawn with `glyph` in `color` for `lifetime`, as a
/// burst or along a line. There is none where the colour is missing or
/// the lifetime is not written as a number with a fraction.
pub open spec fn particle_of(glyph: u16, color: Option<Color>, lifetime: Seq<char>, line: bool) -> Result<
    Option<ComponentView>,
    SpawnError,
> {
    match color {
        Some(color) => if !is_float_text(lifetime) {
            Err(SpawnError::MalformedValue)
        } else if line {
            Ok(Some(ComponentView::SpawnParticleLine { glyph, color, lifetime_ms: lifetime }))
        } else {
            Ok(Some(ComponentView::SpawnParticleBurst { glyph, color, lifetime_ms: lifetime }))
        },
        None => Err(SpawnError::MalformedValue),
    }
}

/// What a particle effect attaches: the particle that its descriptor
/// describes by the glyph of the first character of its first field, the
/// colour code in its second field and the lifetime in its third.
pub open spec fn particle_effect(descriptor: Seq<char>, line: bool) -> Result<
    Option<ComponentView>,
    SpawnError,
> {
    match particle_fields(descriptor) {
        None => Err(SpawnError::MalformedValue),
        Some(fields) => particle_of(cp437_of(fields.0[0]), color_of(fields.1), fields.2, line),
    }
}

/// What one effect attaches to an entity. The tags form a closed
/// vocabulary; a tag outside it attaches nothing. A flag attaches its
/// marker whatever its value says. A spell name is attached as it is
/// written, and so are an initiative penalty and the lifetime of a
/// particle, which have to be written as numbers with a fraction.
pub open spec fn effect_of(tag: Seq<char>, value: Seq<char>) -> Result<Option<ComponentView>, SpawnError> {
    if tag == "area_of_effect"@ {
        number_effect(value, |n: i32| ComponentView::AreaOfEffect { radius: n })
    } else if tag == "confusion"@ {
        Ok(Some(ComponentView::Confusion))
    } else if tag == "damage"@ {
        number_effect(value, |n: i32| ComponentView::InflictsDamage { damage: n })
    } else if tag == "damage_over_time"@ {
        number_effect(value, |n: i32| ComponentView::DamageOverTime { damage: n })
    } else if tag == "duration"@ {
        number_effect(value, |n: i32| ComponentView::Duration { turns: n })
    } else if tag == "food"@ {
        Ok(Some(ComponentView::ProvidesFood))
    } else if tag == "identify"@ {
        Ok(Some(ComponentView::ProvidesIdentification))
    } else if tag == "magic_mapping"@ {
        Ok(Some(ComponentView::MagicMapper))
    } else if tag == "particle"@ {
        particle_effect(value, false)
    } else if tag == "particle_line"@ {
        particle_effect(value, true)
    } else if tag == "provides_healing"@ {
        number_effect(value, |n: i32| ComponentView::ProvidesHealing { heal_amount: n })
    } else if tag == "provides_mana"@ {
        number_effect(value, |n: i32| ComponentView::ProvidesMana { mana_amount: n })
    } else if tag == "ranged"@ {
        number_effect(value, |n: i32| ComponentView::Ranged { range: n })
    } else if tag == "remove_curse"@ {
        Ok(Some(ComponentView::ProvidesRemoveCurse))
    } else if tag == "single_activation"@ {
        Ok(Some(ComponentView::SingleActivation))
    } else if tag == "slow"@ {
        if is_float_text(value) {
            Ok(Some(ComponentView::Slow { initiative_penalty: value }))
        } else {
            Err(SpawnError::MalformedValue)
        }
    } else if tag == "target_self"@ {
        Ok(Some(ComponentView::AlwaysTargetsSelf))
    } else if tag == "teach_spell"@ {
        Ok(Some(ComponentView::TeachesSpell { spell: value }))
    } else if tag == "town_portal"@ {
        Ok(Some(ComponentView::TownPortal))
    } else {
        Ok(None)
    }
}

/// What a list of effects attaches: what each effect attaches, in the order
/// of the list. The first effect that is an error makes the whole list one.
pub open spec fn effects_of(effects: Seq<(String, String)>) -> Result<Seq<ComponentView>, SpawnError>
    decreases effects.len(),
{
    if effects.len() == 0 {
        Ok(Seq::empty())
    } else {
        match effects_of(effects.drop_last()) {
            Err(e) => Err(e),
            Ok(before) => match effect_of(effects.last().0@, effects.last().1@) {
                Err(e) => Err(e),
                Ok(Some(c)) => Ok(before.push(c)),
                Ok(None) => Ok(before),
            },
        }
    }
}

proof fn lemma_field_len(s: Seq<char>, k: int)
    requires
        0 <= k <= s.len(),
        forall|i: int| 0 <= i < k ==> #[trigger] s[i] != ';',
        k == s.len() || s[k] == ';',
    ensures
        field_len(s) == k,
    decreases k,
{
    if k > 0 {
        let t = s.drop_first();
        assert forall|i: int| 0 <= i < k - 1 implies #[trigger] t[i] != ';' by {
            assert(t[i] == s[i + 1]);
        }
        lemma_field_len(t, k - 1);
    }
}

/// The first position at or after `from` that holds a `;`.
fn scan_field(v: &Vec<char>, from: usize) -> (to: usize)
    requires
        from <= v.len(),
    ensures
        from <= to <= v.len(),
        to - from == field_len(v@.skip(from as int)),
{
    let ghost s = v@.skip(from as int);
    let mut i: usize = from;
    while i < v.len() && v[i] != ';'
        invariant
            from <= i <= v.len(),
            s == v@.skip(from as int),
            forall|j: int| 0 <= j < i - from ==> #[trigger] s[j] != ';',
        decreases v.len() - i,
    {
        i = i + 1;
    }
    proof {
        lemma_field_len(s, i - from);
    }
    i
}

/// The particle that is drawn with `glyph` in `color` for `lifetime`.
pub fn particle_from_parts(glyph: u16, color: Option<Color>, lifetime: &str, line: bool) -> (r: Result<
    Option<Component>,
    SpawnError,
>)
    ensures
        match particle_of(glyph, color, lifetime@, line) {
            Ok(Some(c)) => r matches Ok(Some(x)) && x@ == c,
            Ok(None) => r matches Ok(None),
            Err(e) => r matches Err(x) && x == e,
        },
{
    match color {
        Some(color) => {
            if !is_float(lifetime) {
                Err(SpawnError::MalformedValue)
            } else if line {
                Ok(Some(Component::SpawnParticleLine { glyph, color, lifetime_ms: lifetime.to_owned() }))
            } else {
                Ok(Some(Component::SpawnParticleBurst { glyph, color, lifetime_ms: lifetime.to_owned() }))
            }
        },
        None => Err(SpawnError::MalformedValue),
    }
}

/// The particle that a descriptor describes.
pub fn parse_particle(descriptor: &str, line: bool) -> (r: Result<Option<Component>, SpawnError>)
    ensures
        match particle_effect(descriptor@, line) {
            Ok(Some(c)) => r matches Ok(Some(x)) && x@ == c,
            Ok(None) => r matches Ok(None),
            Err(e) => r matches Err(x) && x == e,
        },
{
    let v = chars_of(descriptor);
    let ghost d = v@;
    assert(d.skip(0) =~= d);
    let glyph_end = scan_field(&v, 0);
    if glyph_end == 0 || glyph_end >= v.len() {
        return Err(SpawnError::MalformedValue);
    }
    let color_start = glyph_end + 1;
    let color_end = scan_field(&v, color_start);
    if color_end >= v.len() {
        return Err(SpawnError::MalformedValue);
    }
    let life_start = color_end + 1;
    let life_end = scan_field(&v, life_start);
    proof {
        let rest = d.skip(color_start as int);
        let tail = rest.skip(color_end - color_start + 1);
        assert(tail =~= d.skip(life_start as int));
        assert(d.take(glyph_end as int)[0] == d[0]);
        assert(rest.take(color_end - color_start) =~= d.subrange(color_start as int, color_end as int));
        assert(tail.take(life_end - life_start) =~= d.subrange(life_start as int, life_end as int));
    }
    let glyph = to_cp437(v[0]);
    let color = parse_hex_color(descriptor.substring_char(color_start, color_end));
    particle_from_parts(glyph, color, descriptor.substring_char(life_start, life_end), line)
}

/// Whether `tag` belongs to the vocabulary of effects.
pub open spec fn is_effect_tag(tag: Seq<char>) -> bool {
    tag == "area_of_effect"@ || tag == "confusion"@ || tag == "damage"@
        || tag == "damage_over_time"@ || tag == "duration"@ || tag == "food"@
        || tag == "identify"@ || tag == "magic_mapping"@ || tag == "particle"@
        || tag == "particle_line"@ || tag == "provides_healing"@ || tag == "provides_mana"@
        || tag == "ranged"@ || tag == "remove_curse"@ || tag == "single_activation"@
        || tag == "slow"@ || tag == "target_self"@ || tag == "teach_spell"@
        || tag == "town_portal"@
}

/// An effect attaches nothing, and is no error, exactly where its tag is
/// outside the vocabulary.
pub proof fn lemma_unknown_tag_attaches_nothing(tag: Seq<char>, value: Seq<char>)
    ensures
        !is_effect_tag(tag) <==> effect_of(tag, value) == Ok::<Option<ComponentView>, SpawnError>(None),
{
}

/// The tag of an effect where it is outside the vocabulary, else nothing.
pub open spec fn unknown_tag() -> spec_fn((String, String)) -> Option<Seq<char>> {
    |effect: (String, String)|
        if is_effect_tag(effect.0@) {
            None
        } else {
            Some(effect.0@)
        }
}

/// Whether `tag` belongs to the vocabulary of effects.
pub fn is_known_effect(tag: &str) -> (r: bool)
    ensures
        r == is_effect_tag(tag@),
{
    str_eq(tag, "area_of_effect") || str_eq(tag, "confusion") || str_eq(tag, "damage")
        || str_eq(tag, "damage_over_time") || str_eq(tag, "duration") || str_eq(tag, "food")
        || str_eq(tag, "identify") || str_eq(tag, "magic_mapping") || str_eq(tag, "particle")
        || str_eq(tag, "particle_line") || str_eq(tag, "provides_healing")
        || str_eq(tag, "provides_mana") || str_eq(tag, "ranged") || str_eq(tag, "remove_curse")
        || str_eq(tag, "single_activation") || str_eq(tag, "slow") || str_eq(tag, "target_self")
        || str_eq(tag, "teach_spell") || str_eq(tag, "town_portal")
}

/// The tags of `effects` that are outside the vocabulary, in their order:
/// the effects that attach nothing, for whoever wants to warn of them.
pub fn unknown_effect_tags(effects: &Vec<(String, String)>) -> (result: Vec<String>)
    ensures
        texts_view(result@) == filter_map(effects@, unknown_tag()),
{
    let mut result: Vec<String> = Vec::new();
    let mut i: usize = 0;
    while i < effects.len()
        invariant
            i <= effects.len(),
            texts_view(result@) == filter_map(effects@.take(i as int), unknown_tag()),
        decreases effects.len() - i,
    {
        let ghost before = texts_view(result@);
        proof {
            lemma_filter_map_step(effects@, unknown_tag(), i as int);
        }
        if !is_known_effect(effects[i].0.as_str()) {
            result.push(effects[i].0.clone());
            assert(texts_view(result@) =~= before.push(effects@[i as int].0@));
        }
        i = i + 1;
    }
    assert(effects@.take(i as int) =~= effects@);
    result
}

/// The component that one effect attaches.
pub fn effect_component(tag: &str, value: &str) -> (r: Result<Option<Component>, SpawnError>)
    ensures
        match effect_of(tag@, value@) {
            Ok(Some(c)) => r matches Ok(Some(x)) && x@ == c,
            Ok(None) => r matches Ok(None),
            Err(e) => r matches Err(x) && x == e,
        },
{
    if str_eq(tag, "area_of_effect") {
        match parse_i32(value) {
            Some(radius) => Ok(Some(Component::AreaOfEffect { radius })),
            None => Err(SpawnError::MalformedValue),
        }
    } else if str_eq(tag, "confusion") {
        Ok(Some(Component::Confusion))
    } else if str_eq(tag, "damage") {
        match parse_i32(value) {
            Some(damage) => Ok(Some(Component::InflictsDamage { damage })),
            None => Err(SpawnError::MalformedValue),
        }
    } else if str_eq(tag, "damage_over_time") {
        match parse_i32(value) {
            Some(damage) => Ok(Some(Component::DamageOverTime { damage })),
            None => Err(SpawnError::MalformedValue),
        }
    } else if str_eq(tag, "duration") {
        match parse_i32(value) {
            Some(turns) => Ok(Some(Component::Duration { turns })),
            None => Err(SpawnError::MalformedValue),
        }
    } else if str_eq(tag, "food") {
        Ok(Some(Component::ProvidesFood))
    } else if str_eq(tag, "identify") {
        Ok(Some(Component::ProvidesIdentification))
    } else if str_eq(tag, "magic_mapping") {
        Ok(Some(Component::MagicMapper))
    } else if str_eq(tag, "particle") {
        parse_particle(value, false)
    } else if str_eq(tag, "particle_line") {
        parse_particle(value, true)
    } else if str_eq(tag, "provides_healing") {
        match parse_i32(value) {
            Some(heal_amount) => Ok(Some(Component::ProvidesHealing { heal_amount })),
            None => Err(SpawnError::MalformedValue),
        }
    } else if str_eq(tag, "provides_mana") {
        match parse_i32(value) {
            Some(mana_amount) => Ok(Some(Component::ProvidesMana { mana_amount })),
            None => Err(SpawnError::MalformedValue),
        }
    } else if str_eq(tag, "ranged") {
        match parse_i32(value) {
            Some(range) => Ok(Some(Component::Ranged { range })),
            None => Err(SpawnError::MalformedValue),
        }
    } else if str_eq(tag, "remove_curse") {
        Ok(Some(Component::ProvidesRemoveCurse))
    } else if str_eq(tag, "single_activation") {
        Ok(Some(Component::SingleActivation))
    } else if str_eq(tag, "slow") {
        if is_float(value) {
            Ok(Some(Component::Slow { initiative_penalty: value.to_owned() }))
        } else {
            Err(SpawnError::MalformedValue)
        }
    } else if str_eq(tag, "target_self") {
        Ok(Some(Component::AlwaysTargetsSelf))
    } else if str_eq(tag, "teach_spell") {
        Ok(Some(Component::TeachesSpell { spell: value.to_owned() }))
    } else if str_eq(tag, "town_portal") {
        Ok(Some(Component::TownPortal))
    } else {
        Ok(None)
    }
}

/// Attaches to `eb` what the effects of `effects` attach, in their order.
pub fn apply_effects(effects: &Vec<(String, String)>, eb: EntityBuilder) -> (r: Result<
    EntityBuilder,
    SpawnError,
>)
    ensures
        builds(
            r,
            match effects_of(effects@) {
                Ok(cs) => Ok(eb@ + cs),
                Err(e) => Err(e),
            },
        ),
{
    let ghost start = eb@;
    let mut eb = eb;
    let mut i: usize = 0;
    assert(eb@ =~= start + Seq::<ComponentView>::empty());
    while i < effects.len()
        invariant
            i <= effects.len(),
            effects_of(effects@.take(i as int)) matches Ok(cs) && eb@ == start + cs,
        decreases effects.len() - i,
    {
        let effect = &effects[i];
        proof {
            assert(effects@.take(i + 1).last() == *effect);
            assert(effects@.take(i + 1).drop_last() =~= effects@.take(i as int));
        }
        let ghost before = effects_of(effects@.take(i as int))->Ok_0;
        match effect_component(effect.0.as_str(), effect.1.as_str()) {
            Ok(Some(c)) => {
                eb = eb.with(c);
                assert(eb@ =~= start + before.push(c@));
            },
            Ok(None) => {},
            Err(e) => {
                proof {
                    lemma_effects_error(effects@, i as int);
                }
                return Err(e);
            },
        }
        i = i + 1;
    }
    assert(effects@.take(i as int) =~= effects@);
    Ok(eb)
}

/// An error among the first effects is the error of the whole list.
pub proof fn lemma_effects_error(effects: Seq<(String, String)>, i: int)
    requires
        0 <= i < effects.len(),
        effects_of(effects.take(i + 1)) is Err,
    ensures
        effects_of(effects) == effects_of(effects.take(i + 1)),
    decreases effects.len() - i,
{
    if i + 1 == effects.len() {
        assert(effects.take(i + 1) =~= effects);
    } else {
        assert(effects.take(i + 2).drop_last() =~= effects.take(i + 1));
        lemma_effects_error(effects, i + 1);
    }
}

/// What a list of effects attaches that may be missing.
pub open spec fn optional_effects_of(effects: Option<Vec<(String, String)>>) -> Result<
    Seq<ComponentView>,
    SpawnError,
> {
    match effects {
        Some(list) => effects_of(list@),
        None => Ok(Seq::empty()),
    }
}

} // verus!
