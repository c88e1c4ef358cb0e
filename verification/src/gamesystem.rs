//! The rules by which attributes give bonuses, hit points and mana.

use vstd::prelude::*;

verus! {

/// The bonus that an attribute of `value` gives: half of what it has above
/// ten, or minus half of what it lacks to ten, each half rounded toward zero.
pub open spec fn attr_bonus_of(value: int) -> int {
    if value >= 10 {
        (value - 10) / 2
    } else {
        -((10 - value) / 2)
    }
}

/// The hit points that a level brings: eight and the fitness bonus, but at
/// least one.
pub open spec fn hp_per_level_of(fitness: int) -> int {
    if 8 + attr_bonus_of(fitness) > 1 {
        8 + attr_bonus_of(fitness)
    } else {
        1
    }
}

/// The hit points of a creature: one, and for each level above zero what a
/// level brings.
pub open spec fn npc_hp_of(fitness: int, level: int) -> int {
    if level > 0 {
        1 + level * hp_per_level_of(fitness)
    } else {
        1
    }
}

/// The mana that a level brings: four and the intelligence bonus, but at
/// least one.
pub open spec fn mana_per_level_of(intelligence: int) -> int {
    if 4 + attr_bonus_of(intelligence) > 1 {
        4 + attr_bonus_of(intelligence)
    } else {
        1
    }
}

/// The mana of a creature: for each level what a level brings.
pub open spec fn mana_at_level_of(intelligence: int, level: int) -> int {
    mana_per_level_of(intelligence) * level
}

/// Whether `n` fits in 32 bits with a sign.
pub open spec fn fits_i32(n: int) -> bool {
    i32::MIN <= n <= i32::MAX
}

/// The bonus that an attribute of `value` gives.
pub fn attr_bonus(value: i32) -> (r: i32)
    ensures
        r == attr_bonus_of(value as int),
{
    if value >= 10 {
        (value - 10) / 2
    } else {
        let lack: i64 = 10 - value as i64;
        (0 - lack / 2) as i32
    }
}

/// The hit points of a creature, or nothing where they do not fit in 32 bits.
pub fn npc_hp(fitness: i32, level: i32) -> (r: Option<i32>)
    ensures
        r is Some <==> fits_i32(npc_hp_of(fitness as int, level as int)),
        r matches Some(hp) ==> hp == npc_hp_of(fitness as int, level as int),
{
    let bonus = attr_bonus(fitness) as i64;
    let per_level: i64 = if 8 + bonus > 1 {
        8 + bonus
    } else {
        1
    };
    if level <= 0 {
        return Some(1);
    }
    assert(level as int * per_level as int <= 0x7fff_ffff * 0x4000_0010) by (nonlinear_arith)
        requires
            0 < level <= 0x7fff_ffff,
            0 < per_level <= 0x4000_0010,
    ;
    assert(0 < level as int * per_level as int) by (nonlinear_arith)
        requires
            0 < level,
            0 < per_level,
    ;
    let total: i64 = 1 + level as i64 * per_level;
    if total <= 0x7fff_ffff {
        Some(total as i32)
    } else {
        None
    }
}

/// The mana of a creature, or nothing where it does not fit in 32 bits.
pub fn mana_at_level(intelligence: i32, level: i32) -> (r: Option<i32>)
    ensures
        r is Some <==> fits_i32(mana_at_level_of(intelligence as int, level as int)),
        r matches Some(mana) ==> mana == mana_at_level_of(intelligence as int, level as int),
{
    let bonus = attr_bonus(intelligence) as i64;
    let per_level: i64 = if 4 + bonus > 1 {
        4 + bonus
    } else {
        1
    };
    assert(-0x8000_0000 * 0x4000_0010 <= per_level as int * level as int <= 0x8000_0000
        * 0x4000_0010) by (nonlinear_arith)
        requires
            -0x8000_0000 <= level <= 0x7fff_ffff,
            0 < per_level <= 0x4000_0010,
    ;
    let total: i64 = per_level * level as i64;
    if -0x8000_0000 <= total && total <= 0x7fff_ffff {
        Some(total as i32)
    } else {
        None
    }
}

} // verus!
