//! Spells on one target: potions, heals, direct damage, and effects over time.
//!
//! Where the damage formula applies, its result comes in from outside: `spell` works it out
//! but for its floating-point steps.

use crate::arith::{magnitude_i16, max_of, min_of, or_i16, or_i32, tdiv};
use crate::cast::{dead, is_dead};
use crate::constants::{
    ATTRIBUTE_MAGIC_R, ATTRIBUTE_POISON, MORAL_AREA_ALL, MORAL_AREA_ENEMY, MORAL_AREA_FRIEND,
    MORAL_ENEMY, MORAL_FRIEND_EXCEPTME, MORAL_FRIEND_WITHME, MORAL_PARTY, MORAL_PARTY_ALL,
    MORAL_SELF, MORAL_SELF_AREA, NPC_BAND, USER_STATUS_DOT, USER_STATUS_POISON,
    ZONE_CHAOS_DUNGEON, ZONE_SNOW_BATTLE,
};
use crate::cooldown::elapsed;
use crate::instance::{same_cast, MagicInstance};
use crate::physical::{apply_percent, at_percent};
use crate::spell::{
    apply_magic_damage_reduction, plain_damage, reduced_damage, row_damage, use_magic_formula,
    uses_formula,
};
use crate::tables::{MagicRow, MagicType3Row};
use vstd::prelude::*;

verus! {

/// Milliseconds that lie between two potions.
pub const POTION_INTERVAL_MS: u64 = 2400;

/// Damage of a spell in the snow battle.
pub const SNOW_BATTLE_DAMAGE: i16 = 10;

/// Whether a spell is a potion that restores health or mana.
pub open spec fn potion(skill_id: u32, skill: MagicRow, row: MagicType3Row) -> bool {
    let direct = or_i32(row.direct_type, 0);
    &&& direct == 1 || direct == 2
    &&& or_i32(row.first_damage, 0) > 0
    &&& skill_id > 400000
    &&& or_i16(skill.type2, 0) == 0
    &&& or_i16(skill.moral, 0) == MORAL_SELF
    &&& or_i16(skill.item_group, 0) == 9
}

/// Whether a spell is a potion that restores health or mana.
pub fn is_potion(skill_id: u32, skill: &MagicRow, row: &MagicType3Row) -> (r: bool)
    ensures
        r == potion(skill_id, *skill, *row),
{
    let direct: i32 = row.direct_type.unwrap_or(0);
    (direct == 1 || direct == 2) && row.first_damage.unwrap_or(0) > 0 && skill_id > 400000
        && skill.type2.unwrap_or(0) == 0 && skill.moral.unwrap_or(0) == MORAL_SELF
        && skill.item_group.unwrap_or(0) == 9
}

/// What holds a spell up before it takes effect.
#[derive(Clone, Copy, Debug)]
pub struct Type3Gate {
    pub can_use_potions: bool,
    /// The class that the skill's item is for; 0 where it is for all or unknown.
    pub item_class: i32,
    /// Whether the target is a player with an effect over time.
    pub target_has_durational: bool,
    /// Whether a temple event runs, whether its players may fight, and whether the target is
    /// among them.
    pub event_active: bool,
    pub event_attackable: bool,
    pub target_in_event_zone: bool,
}

/// Whether a caster who may not use potions is stopped from using this one.
pub open spec fn potion_banned(skill: MagicRow, row: MagicType3Row, gate: Type3Gate) -> bool {
    &&& !gate.can_use_potions
    &&& or_i32(row.direct_type, 0) == 1
    &&& or_i32(row.first_damage, 0) > 0
    &&& or_i32(skill.use_item, 0) != 0
    &&& gate.item_class == 0
}

/// Whether a temple event keeps a second effect over time from a player.
pub open spec fn event_shields(target_id: i32, gate: Type3Gate) -> bool {
    0 <= target_id < NPC_BAND && gate.target_has_durational && gate.event_active
        && !gate.event_attackable && gate.target_in_event_zone
}

/// Where a spell goes.
#[derive(Clone, Copy, Debug, PartialEq, Eq, Structural)]
pub enum Type3Route {
    /// The caster is told that the spell failed.
    Failed,
    /// The caster heals themself.
    HealSelf,
    /// A friend is healed.
    HealFriend,
    /// One enemy is hit.
    Enemy,
    /// An area is hit or healed.
    Area,
    /// The effect is shown and nothing happens.
    Shown,
}

/// Where a spell goes by its moral.
pub open spec fn type3_route(moral: i16) -> Type3Route {
    if moral == MORAL_SELF || moral == MORAL_SELF_AREA {
        Type3Route::HealSelf
    } else if moral == MORAL_FRIEND_WITHME || moral == MORAL_FRIEND_EXCEPTME || moral
        == MORAL_PARTY || moral == MORAL_PARTY_ALL {
        Type3Route::HealFriend
    } else if moral == MORAL_ENEMY {
        Type3Route::Enemy
    } else if moral == MORAL_AREA_ENEMY || moral == MORAL_AREA_ALL || moral == MORAL_AREA_FRIEND {
        Type3Route::Area
    } else {
        Type3Route::Shown
    }
}

/// Whether the last potion was too short a time ago.
pub open spec fn potion_too_soon(
    skill_id: u32,
    skill: MagicRow,
    row: MagicType3Row,
    last_potion: u64,
    now: u64,
) -> bool {
    potion(skill_id, skill, row) && elapsed(now, last_potion) < POTION_INTERVAL_MS
}

/// Start a spell. A potion restarts the potion interval, even where it is then refused; the
/// second data word is set once the potion rules are passed.
pub fn begin_type3(
    m: &mut MagicInstance,
    skill: &MagicRow,
    row: &Option<MagicType3Row>,
    gate: &Type3Gate,
    last_potion: &mut u64,
    now: u64,
) -> (r: Type3Route)
    ensures
        same_cast(*final(m), *old(m)),
        match *row {
            None => r == Type3Route::Failed && final(m).data@ == old(m).data@
                && *final(last_potion) == *old(last_potion),
            Some(row) => {
                let early = potion_too_soon(
                    old(m).skill_id,
                    *skill,
                    row,
                    *old(last_potion),
                    now,
                );
                let refused = early || potion_banned(*skill, row, *gate);
                &&& r == (if refused || event_shields(old(m).target_id, *gate) {
                    Type3Route::Failed
                } else {
                    type3_route(or_i16(skill.moral, 0))
                })
                &&& final(m).data@ == (if refused {
                    old(m).data@
                } else {
                    old(m).data@.update(1, 1)
                })
                &&& *final(last_potion) == (if !early && potion(old(m).skill_id, *skill, row) {
                    now
                } else {
                    *old(last_potion)
                })
            },
        },
{
    let row: MagicType3Row = match row {
        Some(d) => *d,
        None => {
            return Type3Route::Failed;
        },
    };
    if is_potion(m.skill_id, skill, &row) {
        let since: u64 = if now >= *last_potion {
            now - *last_potion
        } else {
            0
        };
        if since < POTION_INTERVAL_MS {
            return Type3Route::Failed;
        }
        *last_potion = now;
    }
    if !gate.can_use_potions && row.direct_type.unwrap_or(0) == 1 && row.first_damage.unwrap_or(0)
        > 0 && skill.use_item.unwrap_or(0) != 0 && gate.item_class == 0 {
        return Type3Route::Failed;
    }
    m.data[1] = 1;
    if m.target_id >= 0 && (m.target_id as u32) < NPC_BAND && gate.target_has_durational
        && gate.event_active && !gate.event_attackable && gate.target_in_event_zone {
        return Type3Route::Failed;
    }
    let moral: i16 = skill.moral.unwrap_or(0);
    if moral == MORAL_SELF || moral == MORAL_SELF_AREA {
        Type3Route::HealSelf
    } else if moral == MORAL_FRIEND_WITHME || moral == MORAL_FRIEND_EXCEPTME || moral
        == MORAL_PARTY || moral == MORAL_PARTY_ALL {
        Type3Route::HealFriend
    } else if moral == MORAL_ENEMY {
        Type3Route::Enemy
    } else if moral == MORAL_AREA_ENEMY || moral == MORAL_AREA_ALL || moral == MORAL_AREA_FRIEND {
        Type3Route::Area
    } else {
        Type3Route::Shown
    }
}

// ---------------------------------------------------------------------------------------------
// Heals
// ---------------------------------------------------------------------------------------------

/// An effect over time: what each tick adds to health, and how often it ticks.
#[derive(Clone, Copy, Debug, PartialEq, Eq, Structural)]
pub struct Durational {
    pub hp_per_tick: i16,
    pub ticks: u8,
}

/// A player who is healed.
#[derive(Clone, Copy, Debug)]
pub struct HealTarget {
    pub hp: i16,
    pub max_hp: i16,
    pub mp: i16,
    pub max_mp: i16,
    pub undead: bool,
}

/// What a heal does.
#[derive(Clone, Copy, Debug, PartialEq, Eq, Structural)]
pub struct Heal {
    /// New health and mana, where they are set.
    pub hp: Option<i16>,
    pub mp: Option<i16>,
    pub dies: bool,
    pub over_time: Option<Durational>,
}

/// The amount of a heal: the low 16 bits of the first damage's magnitude.
pub open spec fn heal_amount(row: MagicType3Row) -> i16 {
    let first = or_i32(row.first_damage, 0);
    ((if first >= 0 {
        first as int
    } else {
        -first
    }) as u32) as i16
}

/// The amount of a heal.
pub fn get_heal_amount(row: &MagicType3Row) -> (r: i16)
    ensures
        r == heal_amount(*row),
{
    magnitude_i16(row.first_damage.unwrap_or(0))
}

/// Health after a heal. Healing hurts the undead.
pub open spec fn healed_hp(t: HealTarget, amount: i16) -> i16 {
    if t.undead {
        max_of(t.hp - amount, 0) as i16
    } else {
        min_of(t.hp + amount, t.max_hp as int) as i16
    }
}

/// Work out health after a heal.
pub fn heal_hp(t: &HealTarget, amount: i16) -> (r: i16)
    ensures
        r == healed_hp(*t, amount),
{
    if t.undead {
        (t.hp as i32 - amount as i32).max(0) as i16
    } else {
        (t.hp as i32 + amount as i32).min(t.max_hp as i32) as i16
    }
}

/// How often a heal over time ticks: every two seconds of its duration, at least once, in
/// eight bits.
pub open spec fn hot_ticks(duration: i32) -> u8 {
    max_of(tdiv(duration as int, 2), 1) as u8
}

/// Whether a heal over time has a number of ticks that its amount can be divided by.
pub open spec fn hot_fits(row: MagicType3Row) -> bool {
    or_i32(row.time_damage, 0) > 0 && or_i32(row.duration, 0) > 0 ==> hot_ticks(
        or_i32(row.duration, 0),
    ) != 0
}

/// The heal over time of a spell; for the undead it takes health away.
pub open spec fn heal_over_time(row: MagicType3Row, undead: bool) -> Option<Durational> {
    let total = or_i32(row.time_damage, 0);
    let duration = or_i32(row.duration, 0);
    if total > 0 && duration > 0 {
        let ticks = hot_ticks(duration);
        let each = min_of(tdiv(total as int, ticks as int), i16::MAX as int);
        Some(
            Durational {
                hp_per_tick: (if undead {
                    -each
                } else {
                    each
                }) as i16,
                ticks,
            },
        )
    } else {
        None
    }
}

/// Work out the heal over time of a spell.
pub fn plan_heal_over_time(row: &MagicType3Row, undead: bool) -> (r: Option<Durational>)
    requires
        hot_fits(*row),
    ensures
        r == heal_over_time(*row, undead),
{
    let total: i32 = row.time_damage.unwrap_or(0);
    let duration: i32 = row.duration.unwrap_or(0);
    if total <= 0 || duration <= 0 {
        return None;
    }
    let ticks: u8 = (duration / 2).max(1) as u8;
    proof {
        crate::arith::lemma_tdiv_shrinks(total as int, ticks as int);
    }
    let each: i32 = (total / ticks as i32).min(i16::MAX as i32);
    let per_tick: i16 = if undead {
        -(each as i16)
    } else {
        each as i16
    };
    Some(Durational { hp_per_tick: per_tick, ticks })
}

/// What a heal does to a player: health for direct types 0 and 1, mana of the living for
/// direct type 2, nothing directly for others.
pub open spec fn heal(row: MagicType3Row, t: HealTarget) -> Heal {
    let amount = heal_amount(row);
    let direct = or_i32(row.direct_type, 0);
    let hp = if amount > 0 && (direct == 1 || direct == 0) {
        Some(healed_hp(t, amount))
    } else {
        None
    };
    Heal {
        hp,
        mp: if amount > 0 && direct == 2 && t.hp > 0 {
            Some(min_of(t.mp + amount, t.max_mp as int) as i16)
        } else {
            None
        },
        dies: match hp {
            Some(x) => t.undead && x <= 0,
            None => false,
        },
        over_time: heal_over_time(row, t.undead),
    }
}

/// Heal a player, and note the amount in the cast.
pub fn apply_heal(m: &mut MagicInstance, row: &MagicType3Row, t: &HealTarget) -> (r: Heal)
    requires
        hot_fits(*row),
    ensures
        r == heal(*row, *t),
        same_cast(*final(m), *old(m)),
        final(m).data@ == old(m).data@.update(3, heal_amount(*row) as i32),
{
    let amount: i16 = get_heal_amount(row);
    let direct: i32 = row.direct_type.unwrap_or(0);
    let mut hp: Option<i16> = None;
    let mut mp: Option<i16> = None;
    let mut dies: bool = false;
    if amount > 0 {
        if direct == 1 || direct == 0 {
            let x: i16 = heal_hp(t, amount);
            hp = Some(x);
            dies = t.undead && x <= 0;
        } else if direct == 2 && t.hp > 0 {
            mp = Some((t.mp as i32 + amount as i32).min(t.max_mp as i32) as i16);
        }
    }
    m.data[3] = amount as i32;
    Heal { hp, mp, dies, over_time: plan_heal_over_time(row, t.undead) }
}

/// A caster and the friend whom they heal.
#[derive(Clone, Copy, Debug)]
pub struct FriendHealState {
    pub caster_is_monster: bool,
    pub caster_has_hot: bool,
    /// The target's state and health; `None` where the target is not there.
    pub target: Option<(u8, i16)>,
    pub target_has_hot: bool,
}

/// Whether a friend can be healed: they live, and heals over time do not pile up.
pub open spec fn friend_heal_ok(moral: i16, row: MagicType3Row, s: FriendHealState) -> bool {
    let over_time = or_i32(row.time_damage, 0) > 0;
    &&& moral == MORAL_PARTY_ALL && over_time ==> !s.caster_is_monster && !s.caster_has_hot
    &&& match s.target {
        Some((res, hp)) => !dead(res, hp),
        None => false,
    }
    &&& over_time && moral <= MORAL_PARTY ==> !s.target_has_hot
}

/// Check whether a friend can be healed.
pub fn check_friend_heal(moral: i16, row: &MagicType3Row, s: &FriendHealState) -> (r: bool)
    ensures
        r == friend_heal_ok(moral, *row, *s),
{
    let over_time: bool = row.time_damage.unwrap_or(0) > 0;
    if moral == MORAL_PARTY_ALL && over_time && (s.caster_is_monster || s.caster_has_hot) {
        return false;
    }
    match s.target {
        Some((res, hp)) => {
            if is_dead(res, hp) {
                return false;
            }
        },
        None => {
            return false;
        },
    }
    !(over_time && moral <= MORAL_PARTY && s.target_has_hot)
}

/// Whom a friendly spell is aimed at: the caster, where it has no target.
pub fn friend_target(target_id: i32, caster_sid: u16) -> (r: u16)
    ensures
        r == (if target_id < 0 {
            caster_sid
        } else {
            target_id as u16
        }),
{
    if target_id < 0 {
        caster_sid
    } else {
        target_id as u16
    }
}

// ---------------------------------------------------------------------------------------------
// Damage over time
// ---------------------------------------------------------------------------------------------

/// How often damage over time ticks: every two seconds, between once and 255 times, and twice
/// as often in the Chaos Dungeon.
pub open spec fn dot_ticks(duration: i32, zone_id: u16) -> int {
    let half = tdiv(duration as int, 2);
    let ticks = if half < 1 {
        1
    } else if half > 255 {
        255
    } else {
        half
    };
    if zone_id == ZONE_CHAOS_DUNGEON {
        min_of(ticks * 2, 255)
    } else {
        ticks
    }
}

/// What each tick takes of damage over time: an even share, and at least 1.
pub open spec fn dot_per_tick(total: i16, ticks: int) -> i16 {
    let size = if total >= 0 {
        total as int
    } else {
        -total
    };
    if size > i16::MAX {
        -1i16
    } else {
        (-max_of(tdiv(size, ticks), 1)) as i16
    }
}

/// Whether a spell's damage over time goes through the damage formula.
pub open spec fn dot_formula(row: MagicType3Row) -> bool {
    or_i32(row.time_damage, 0) < 0 && or_i32(row.attribute, 0) as u8 != ATTRIBUTE_MAGIC_R
}

/// Whether a spell's damage over time goes through the damage formula: unless it heals, or is
/// of pure magic.
pub fn uses_dot_formula(row: &MagicType3Row) -> (r: bool)
    ensures
        r == dot_formula(*row),
{
    row.time_damage.unwrap_or(0) < 0 && row.attribute.unwrap_or(0) as u8 != ATTRIBUTE_MAGIC_R
}

/// A spell's whole damage over time. `formula` is what the damage formula gives, and
/// `reduction` a player's magic damage percentage, which only the formula's result meets.
pub open spec fn dot_total(row: MagicType3Row, formula: i16, reduction: u8) -> i16 {
    if dot_formula(row) {
        reduced_damage(formula, reduction)
    } else {
        plain_damage(or_i32(row.time_damage, 0))
    }
}

/// The damage over time of a spell, if it does any.
pub open spec fn damage_over_time(
    row: MagicType3Row,
    zone_id: u16,
    formula: i16,
    reduction: u8,
) -> Option<Durational> {
    let duration = or_i32(row.duration, 0);
    if or_i32(row.time_damage, 0) != 0 && duration > 0 {
        let ticks = dot_ticks(duration, zone_id);
        Some(
            Durational {
                hp_per_tick: dot_per_tick(dot_total(row, formula, reduction), ticks),
                ticks: ticks as u8,
            },
        )
    } else {
        None
    }
}

/// Work out the damage over time of a spell. NPCs have no damage percentage: for them
/// `reduction` is 100.
pub fn plan_damage_over_time(
    row: &MagicType3Row,
    zone_id: u16,
    formula: i16,
    reduction: u8,
) -> (r: Option<Durational>)
    requires
        or_i32(row.time_damage, 0) > i32::MIN,
    ensures
        r == damage_over_time(*row, zone_id, formula, reduction),
{
    let time_damage: i32 = row.time_damage.unwrap_or(0);
    let duration: i32 = row.duration.unwrap_or(0);
    if time_damage == 0 || duration <= 0 {
        return None;
    }
    let half: i32 = duration / 2;
    let mut ticks: i32 = if half < 1 {
        1
    } else if half > 255 {
        255
    } else {
        half
    };
    if zone_id == ZONE_CHAOS_DUNGEON {
        ticks = (ticks * 2).min(255);
    }
    let total: i16 = if uses_dot_formula(row) {
        apply_magic_damage_reduction(formula, reduction)
    } else {
        row_damage(time_damage)
    };
    let size: i32 = if total >= 0 {
        total as i32
    } else {
        -(total as i32)
    };
    proof {
        crate::arith::lemma_tdiv_shrinks(size as int, ticks as int);
    }
    let each: i32 = if size > i16::MAX as i32 {
        1
    } else {
        (size / ticks).max(1)
    };
    Some(Durational { hp_per_tick: -(each as i16), ticks: ticks as u8 })
}

/// The status shown for harm over time.
pub open spec fn harm_status(attribute: u8) -> u8 {
    if attribute == ATTRIBUTE_POISON {
        USER_STATUS_POISON
    } else {
        USER_STATUS_DOT
    }
}

/// The status shown for harm over time: poison, or any other.
pub fn send_type3_inflict_status(attribute: u8) -> (r: u8)
    ensures
        r == harm_status(attribute),
{
    if attribute == ATTRIBUTE_POISON {
        USER_STATUS_POISON
    } else {
        USER_STATUS_DOT
    }
}

// ---------------------------------------------------------------------------------------------
// One enemy
// ---------------------------------------------------------------------------------------------

/// A player whom a spell is aimed at.
#[derive(Clone, Copy, Debug)]
pub struct SpellTarget {
    /// State and health; `None` where the player is not there.
    pub state: Option<(u8, i16)>,
    pub blinking: bool,
    pub blocks_magic: bool,
    pub in_range: bool,
    pub caster_present: bool,
    pub hostile: bool,
    /// The caster's zone, and whether the snow battle is on.
    pub caster_zone: u16,
    pub snow_battle: bool,
    /// Whether the target's combat stats are known.
    pub stats_known: bool,
}

/// How a spell at a player goes on.
#[derive(Clone, Copy, Debug, PartialEq, Eq, Structural)]
pub enum SpellGate {
    /// Someone has left; nothing happens.
    Lost,
    /// The caster is told that the spell failed.
    Failed,
    /// A snowball: a fixed amount of damage and nothing more.
    Snowball,
    Clear,
}

/// How a spell at a player goes on.
pub open spec fn spell_gate(t: SpellTarget) -> SpellGate {
    match t.state {
        None => SpellGate::Lost,
        Some((res, hp)) => if dead(res, hp) || t.blinking || t.blocks_magic || !t.in_range {
            SpellGate::Failed
        } else if !t.caster_present {
            SpellGate::Lost
        } else if !t.hostile {
            SpellGate::Failed
        } else if t.caster_zone == ZONE_SNOW_BATTLE && t.snow_battle {
            SpellGate::Snowball
        } else if !t.stats_known {
            SpellGate::Lost
        } else {
            SpellGate::Clear
        },
    }
}

/// Check a spell at a player.
pub fn check_spell(t: &SpellTarget) -> (r: SpellGate)
    ensures
        r == spell_gate(*t),
{
    match t.state {
        None => SpellGate::Lost,
        Some((res, hp)) => if is_dead(res, hp) || t.blinking || t.blocks_magic || !t.in_range {
            SpellGate::Failed
        } else if !t.caster_present {
            SpellGate::Lost
        } else if !t.hostile {
            SpellGate::Failed
        } else if t.caster_zone == ZONE_SNOW_BATTLE && t.snow_battle {
            SpellGate::Snowball
        } else if !t.stats_known {
            SpellGate::Lost
        } else {
            SpellGate::Clear
        },
    }
}

/// The direct effect of a spell on a player.
#[derive(Clone, Copy, Debug, PartialEq, Eq, Structural)]
pub enum DirectEffect {
    /// Mana changes, and the spell ends there. `shown` is the amount that the caster sees.
    Mana { mp: i16, shown: i32 },
    /// Damage that is already worked out.
    Damage { damage: i16 },
    /// Damage that the formula gives; the percentage applies to it.
    Formula,
}

/// Damage in percent of health: of the current health, or for 100 and more, of the part of the
/// maximum above 100 percent.
pub open spec fn percent_of_health(first_damage: i32, hp: i16, max_hp: i16) -> int {
    if first_damage < 100 {
        -tdiv(first_damage * hp, 100)
    } else {
        tdiv(max_hp * (first_damage - 100), 100)
    }
}

/// The direct effect of a spell on a player with `hp` of `max_hp` health and `mp` of `max_mp`
/// mana.
pub open spec fn direct_effect(
    skill_id: u32,
    row: MagicType3Row,
    hp: i16,
    max_hp: i16,
    mp: i16,
    max_mp: i16,
) -> DirectEffect {
    let first = or_i32(row.first_damage, 0);
    let direct = or_i32(row.direct_type, 0);
    if direct == 2 {
        let sum = mp + first;
        DirectEffect::Mana {
            mp: (if sum < 0 {
                0
            } else if sum > max_mp {
                max_mp as int
            } else {
                sum
            }) as i16,
            shown: (if first >= 0 {
                first as int
            } else {
                -first
            }) as i32,
        }
    } else if direct == 5 {
        DirectEffect::Damage { damage: percent_of_health(first, hp, max_hp) as i16 }
    } else if uses_formula(first, direct, skill_id) {
        DirectEffect::Formula
    } else {
        DirectEffect::Damage {
            damage: at_percent(plain_damage(first), or_i16(row.add_dmg_perc_to_user, 0) as int),
        }
    }
}

/// Work out the direct effect of a spell on a player. For a change of mana the amount is noted
/// in the cast.
pub fn plan_direct_effect(
    m: &mut MagicInstance,
    row: &MagicType3Row,
    hp: i16,
    max_hp: i16,
    mp: i16,
    max_mp: i16,
) -> (r: DirectEffect)
    requires
        or_i32(row.first_damage, 0) > i32::MIN,
        or_i32(row.direct_type, 0) == 2 ==> max_mp >= 0,
    ensures
        r == direct_effect(old(m).skill_id, *row, hp, max_hp, mp, max_mp),
        same_cast(*final(m), *old(m)),
        final(m).data@ == (if or_i32(row.direct_type, 0) == 2 {
            old(m).data@.update(3, or_i32(row.first_damage, 0))
        } else {
            old(m).data@
        }),
{
    let first: i32 = row.first_damage.unwrap_or(0);
    let direct: i32 = row.direct_type.unwrap_or(0);
    if direct == 2 {
        let sum: i64 = mp as i64 + first as i64;
        let new_mp: i16 = if sum < 0 {
            0
        } else if sum > max_mp as i64 {
            max_mp
        } else {
            sum as i16
        };
        m.data[3] = first;
        DirectEffect::Mana {
            mp: new_mp,
            shown: if first >= 0 {
                first
            } else {
                -first
            },
        }
    } else if direct == 5 {
        let damage: i64 = if first < 100 {
            assert(-0x8000_0000 * 32768 <= first * hp <= 0x8000_0000 * 32768) by (nonlinear_arith)
                requires
                    -0x8000_0000 <= first < 100,
                    -32768 <= hp <= 32767,
            ;
            let product: i64 = first as i64 * hp as i64;
            proof {
                crate::arith::lemma_tdiv_shrinks(product as int, 100);
            }
            -(product / 100)
        } else {
            let above: i64 = first as i64 - 100;
            assert(-0x8000_0000 * 32768 <= max_hp * above <= 0x8000_0000 * 32768)
                by (nonlinear_arith)
                requires
                    0 <= above <= 0x8000_0000,
                    -32768 <= max_hp <= 32767,
            ;
            let product: i64 = max_hp as i64 * above;
            product / 100
        };
        DirectEffect::Damage { damage: damage as i16 }
    } else if use_magic_formula(first, direct, m.skill_id) {
        DirectEffect::Formula
    } else {
        DirectEffect::Damage {
            damage: apply_percent(
                row_damage(first),
                row.add_dmg_perc_to_user.unwrap_or(0) as i32,
            ),
        }
    }
}

/// The direct damage of a spell to an NPC. `formula` is what the damage formula gives where it
/// applies.
pub open spec fn npc_spell(skill_id: u32, row: MagicType3Row, formula: i16) -> i16 {
    let first = or_i32(row.first_damage, 0);
    let base = if uses_formula(first, or_i32(row.direct_type, 0), skill_id) {
        formula
    } else {
        plain_damage(first)
    };
    at_percent(base, or_i16(row.add_dmg_perc_to_npc, 0) as int)
}

/// Work out the direct damage of a spell to an NPC or a bot.
pub fn npc_spell_damage(skill_id: u32, row: &MagicType3Row, formula: i16) -> (r: i16)
    requires
        or_i32(row.first_damage, 0) > i32::MIN,
    ensures
        r == npc_spell(skill_id, *row, formula),
{
    let first: i32 = row.first_damage.unwrap_or(0);
    let base: i16 = if use_magic_formula(first, row.direct_type.unwrap_or(0), skill_id) {
        formula
    } else {
        row_damage(first)
    };
    apply_percent(base, row.add_dmg_perc_to_npc.unwrap_or(0) as i32)
}

// ---------------------------------------------------------------------------------------------
// Laws
// ---------------------------------------------------------------------------------------------

/// A heal never takes the living above their maximum, never takes health from them, and never
/// kills them.
pub proof fn law_heals_heal_the_living(row: MagicType3Row, t: HealTarget)
    requires
        !t.undead,
        t.hp <= t.max_hp,
        heal(row, t).hp is Some,
    ensures
        t.hp <= heal(row, t).hp->0 <= t.max_hp,
        !heal(row, t).dies,
{
}

/// A heal never gives the undead health, and takes at most what they have.
pub proof fn law_heals_hurt_the_undead(row: MagicType3Row, t: HealTarget)
    requires
        t.undead,
        t.hp >= 0,
        heal(row, t).hp is Some,
    ensures
        0 <= heal(row, t).hp->0 <= t.hp,
        heal(row, t).dies == (heal(row, t).hp->0 == 0),
{
}

/// Two potions of one player lie at least the potion interval apart: right after one was
/// taken, another is refused.
pub proof fn law_potions_wait(
    skill_id: u32,
    skill: MagicRow,
    row: MagicType3Row,
    taken: u64,
    now: u64,
)
    requires
        potion(skill_id, skill, row),
    ensures
        potion_too_soon(skill_id, skill, row, taken, now) == (now < taken + POTION_INTERVAL_MS),
{
}

/// Damage over time always hurts: every tick takes health away, and there is at least one and
/// at most 255 of them.
pub proof fn law_damage_over_time_hurts(
    row: MagicType3Row,
    zone_id: u16,
    formula: i16,
    reduction: u8,
)
    requires
        damage_over_time(row, zone_id, formula, reduction) is Some,
    ensures
        damage_over_time(row, zone_id, formula, reduction)->0.hp_per_tick <= -1,
        1 <= damage_over_time(row, zone_id, formula, reduction)->0.ticks,
{
    let d = damage_over_time(row, zone_id, formula, reduction)->0;
    let ticks = dot_ticks(or_i32(row.duration, 0), zone_id);
    let total = dot_total(row, formula, reduction);
    let size = if total >= 0 {
        total as int
    } else {
        -total
    };
    crate::arith::lemma_tdiv_shrinks(size, ticks);
}

/// The Chaos Dungeon never shortens damage over time.
pub proof fn law_chaos_prolongs_damage(duration: i32, zone_id: u16)
    ensures
        dot_ticks(duration, zone_id) <= dot_ticks(duration, ZONE_CHAOS_DUNGEON) <= 255,
{
}

/// A heal over time for the undead is the same one turned around.
pub proof fn law_undead_heals_over_time(row: MagicType3Row)
    requires
        hot_fits(row),
        heal_over_time(row, false) is Some,
    ensures
        heal_over_time(row, true) is Some,
        heal_over_time(row, true)->0.hp_per_tick == -heal_over_time(row, false)->0.hp_per_tick,
        heal_over_time(row, true)->0.ticks == heal_over_time(row, false)->0.ticks,
        heal_over_time(row, false)->0.hp_per_tick >= 0,
{
    crate::arith::lemma_tdiv_shrinks(
        or_i32(row.time_damage, 0) as int,
        hot_ticks(or_i32(row.duration, 0)) as int,
    );
}

/// Whether someone is there and alive, by their posture and health: the posture 3 is that of
/// the dead.
pub open spec fn alive(state: Option<(u8, i16)>) -> bool {
    match state {
        Some((posture, hp)) => posture != 3 && hp > 0,
        None => false,
    }
}

/// A mana heal fills a living player's mana: it never takes any away, never goes above the
/// maximum, and gives the whole amount wherever there is room for it. It leaves health alone,
/// and a heal of health leaves mana alone.
pub proof fn law_mana_heals_fill_mana(row: MagicType3Row, t: HealTarget)
    requires
        0 < or_i32(row.first_damage, 0) <= 32767,
    ensures
        heal(row, t).mp is Some <==> row.direct_type == Some(2i32) && t.hp > 0,
        heal(row, t).hp is Some <==> row.direct_type is None || row.direct_type == Some(0i32)
            || row.direct_type == Some(1i32),
        heal(row, t).mp is Some && t.mp <= t.max_mp ==> {
            &&& t.mp <= heal(row, t).mp->0 <= t.max_mp
            &&& heal(row, t).mp->0 < t.max_mp ==> heal(row, t).mp->0 - t.mp == or_i32(
                row.first_damage,
                0,
            )
            &&& heal(row, t).mp->0 == t.max_mp ==> t.max_mp - t.mp <= or_i32(row.first_damage, 0)
        },
{
}

/// A heal of health gives the living the whole amount wherever there is room for it, and takes
/// the whole amount from the undead wherever they have it. The amount is the same whether the
/// row's number is positive or negative.
pub proof fn law_heals_give_their_amount(row: MagicType3Row, t: HealTarget)
    requires
        -32767 <= or_i32(row.first_damage, 0) <= 32767,
        0 <= t.hp <= t.max_hp,
    ensures
        ({
            let first = or_i32(row.first_damage, 0);
            let amount = if first >= 0 {
                first as int
            } else {
                -first
            };
            &&& heal_amount(row) == amount
            &&& heal(row, t).hp is Some && !t.undead ==> {
                &&& heal(row, t).hp->0 < t.max_hp ==> heal(row, t).hp->0 - t.hp == amount
                &&& heal(row, t).hp->0 == t.max_hp ==> t.max_hp - t.hp <= amount
            }
            &&& heal(row, t).hp is Some && t.undead ==> {
                &&& heal(row, t).hp->0 > 0 ==> t.hp - heal(row, t).hp->0 == amount
                &&& heal(row, t).hp->0 == 0 ==> t.hp <= amount
                &&& heal(row, t).dies == (t.hp <= amount)
            }
            &&& heal(row, t).dies ==> t.undead
            &&& amount == 0 ==> heal(row, t).hp is None && heal(row, t).mp is None
        }),
{
}

/// A heal over time comes with positive time damage and duration alone. It ticks once in two
/// seconds, at least once, and its ticks together give the whole amount but for what an even
/// share leaves over.
pub proof fn law_heals_over_time_are_shared_out(row: MagicType3Row, t: HealTarget)
    requires
        or_i32(row.duration, 0) <= 511,
    ensures
        heal(row, t).over_time == heal_over_time(row, t.undead),
        heal_over_time(row, false) is Some <==> or_i32(row.time_damage, 0) > 0 && or_i32(
            row.duration,
            0,
        ) > 0,
        heal_over_time(row, false) is Some ==> {
            let d = heal_over_time(row, false)->0;
            &&& or_i32(row.duration, 0) == 1 ==> d.ticks == 1
            &&& or_i32(row.duration, 0) > 1 ==> 2 * d.ticks <= or_i32(row.duration, 0) <= 2
                * d.ticks + 1
            &&& d.hp_per_tick < i16::MAX ==> {
                &&& d.hp_per_tick * d.ticks <= or_i32(row.time_damage, 0)
                &&& or_i32(row.time_damage, 0) < (d.hp_per_tick + 1) * d.ticks
            }
            &&& d.hp_per_tick == i16::MAX ==> or_i32(row.time_damage, 0) >= 32767 * d.ticks
        },
{
    if heal_over_time(row, false) is Some {
        let total = or_i32(row.time_damage, 0) as int;
        let n = hot_ticks(or_i32(row.duration, 0)) as int;
        vstd::arithmetic::div_mod::lemma_fundamental_div_mod(total, n);
        vstd::arithmetic::div_mod::lemma_mod_bound(total, n);
        crate::arith::lemma_tdiv_shrinks(total, n);
        let q = total / n;
        assert(n * q == q * n) by (nonlinear_arith);
        assert((q + 1) * n == q * n + n) by (nonlinear_arith);
        assert(q >= 32767 ==> q * n >= 32767 * n) by (nonlinear_arith)
            requires
                n >= 0,
        ;
    }
}

/// Damage over time comes with any time damage but 0 and a positive duration. It ticks once in
/// two seconds, between once and 255 times, in the Chaos Dungeon twice as often within the same
/// limit.
pub proof fn law_damage_over_time_ticks(
    row: MagicType3Row,
    zone_id: u16,
    formula: i16,
    reduction: u8,
)
    ensures
        ({
            let duration = or_i32(row.duration, 0);
            let r = damage_over_time(row, zone_id, formula, reduction);
            &&& r is Some <==> or_i32(row.time_damage, 0) != 0 && duration > 0
            &&& r is Some && zone_id != 85 ==> {
                &&& duration == 1 ==> r->0.ticks == 1
                &&& 2 <= duration <= 511 ==> 2 * r->0.ticks <= duration <= 2 * r->0.ticks + 1
                &&& duration > 511 ==> r->0.ticks == 255
            }
            &&& r is Some && zone_id == 85 ==> {
                &&& duration == 1 ==> r->0.ticks == 2
                &&& 2 <= duration <= 255 ==> r->0.ticks <= duration <= r->0.ticks + 1
                    && r->0.ticks % 2 == 0
                &&& duration > 255 ==> r->0.ticks == 255
            }
        }),
{
}

/// What damage over time takes in all: its ticks take even shares of the whole, rounded down,
/// and at least 1 each. The whole is what the formula gives at the target's percentage for
/// negative time damage that is not pure magic, the row's number turned around for pure magic,
/// and nothing for a positive number.
pub proof fn law_damage_over_time_is_shared_out(
    row: MagicType3Row,
    zone_id: u16,
    formula: i16,
    reduction: u8,
)
    requires
        -32767 <= or_i32(row.time_damage, 0),
        formula >= 0,
        0 <= or_i32(row.attribute, 0) <= 255,
    ensures
        damage_over_time(row, zone_id, formula, reduction) is Some ==> {
            let d = damage_over_time(row, zone_id, formula, reduction)->0;
            let time = or_i32(row.time_damage, 0);
            let whole = if time > 0 {
                0
            } else if row.attribute == Some(4i32) {
                -time
            } else if reduction >= 100 {
                formula as int
            } else {
                formula * reduction / 100
            };
            &&& whole < d.ticks ==> d.hp_per_tick == -1
            &&& whole >= d.ticks ==> {
                &&& -d.hp_per_tick * d.ticks <= whole
                &&& whole < (1 - d.hp_per_tick) * d.ticks
            }
        },
{
    if damage_over_time(row, zone_id, formula, reduction) is Some {
        let time = or_i32(row.time_damage, 0);
        let total = dot_total(row, formula, reduction);
        let n = dot_ticks(or_i32(row.duration, 0), zone_id);
        let d = damage_over_time(row, zone_id, formula, reduction)->0;
        assert(0 <= formula * reduction <= 32767 * 255) by (nonlinear_arith)
            requires
                0 <= formula <= 32767,
                0 <= reduction <= 255,
        ;
        crate::spell::law_reduction_never_adds(formula, reduction);
        crate::spell::law_reduction_takes_its_percentage(formula, reduction);
        let whole = if time > 0 {
            0
        } else if row.attribute == Some(4i32) {
            -time
        } else if reduction >= 100 {
            formula as int
        } else {
            formula * reduction / 100
        };
        assert(total == whole);
        vstd::arithmetic::div_mod::lemma_fundamental_div_mod(total as int, n);
        vstd::arithmetic::div_mod::lemma_mod_bound(total as int, n);
        crate::arith::lemma_tdiv_shrinks(total as int, n);
        let q = total as int / n;
        assert(n * q == q * n) by (nonlinear_arith);
        assert((q + 1) * n == q * n + n) by (nonlinear_arith);
        assert(total < n ==> q == 0) by (nonlinear_arith)
            requires
                q * n <= total,
                total >= 0,
                n > 0,
                q >= 0,
        ;
        assert(total >= n ==> q >= 1) by (nonlinear_arith)
            requires
                total < q * n + n,
                n > 0,
        ;
        assert(d.ticks == n);
        assert(total >= n ==> -d.hp_per_tick == q);
    }
}

/// A potion is a spell on oneself of group 9 alone in its row, numbered above 400000, that
/// gives health or mana. Nothing else waits for the potion interval of 2400 milliseconds.
pub proof fn law_potions_are_told_apart(
    skill_id: u32,
    skill: MagicRow,
    row: MagicType3Row,
    last: u64,
    now: u64,
)
    ensures
        potion_too_soon(skill_id, skill, row, last, now) ==> {
            &&& row.direct_type == Some(1i32) || row.direct_type == Some(2i32)
            &&& or_i32(row.first_damage, 0) > 0
            &&& skill_id > 400000
            &&& skill.type2 is None || skill.type2 == Some(0i16)
            &&& skill.moral == Some(1i16)
            &&& skill.item_group == Some(9i16)
            &&& now < last + 2400
        },
        (row.direct_type == Some(1i32) || row.direct_type == Some(2i32)) && or_i32(
            row.first_damage,
            0,
        ) > 0 && skill_id > 400000 && or_i16(skill.type2, 0) == 0 && skill.moral == Some(1i16)
            && skill.item_group == Some(9i16) && now < last + 2400 ==> potion_too_soon(
            skill_id,
            skill,
            row,
            last,
            now,
        ),
{
}

/// A caster who may use potions is never stopped by the ban; one who may not is stopped from
/// direct health of an item that is for every class, and from nothing else.
pub proof fn law_banned_potions(skill: MagicRow, row: MagicType3Row, gate: Type3Gate)
    ensures
        gate.can_use_potions ==> !potion_banned(skill, row, gate),
        potion_banned(skill, row, gate) ==> row.direct_type == Some(1i32) && or_i32(
            row.first_damage,
            0,
        ) > 0 && gate.item_class == 0 && skill.use_item is Some && skill.use_item != Some(0i32),
        !gate.can_use_potions && row.direct_type == Some(1i32) && or_i32(row.first_damage, 0) > 0
            && gate.item_class == 0 && or_i32(skill.use_item, 0) != 0 ==> potion_banned(
            skill,
            row,
            gate,
        ),
{
}

/// A temple event shields a player of its own from a second effect over time while its players
/// may not fight, and shields nobody else.
pub proof fn law_events_shield(target_id: i32, gate: Type3Gate)
    ensures
        event_shields(target_id, gate) <==> {
            &&& 0 <= target_id <= 9999
            &&& gate.target_has_durational
            &&& gate.event_active
            &&& gate.target_in_event_zone
            &&& !gate.event_attackable
        },
{
}

/// Each moral goes one way: 1 and 13 heal oneself, 2, 3, 4 and 6 a friend, 7 is for one enemy,
/// 10, 11 and 12 for an area, and any other does nothing.
pub proof fn law_morals_go_one_way(moral: i16)
    ensures
        type3_route(moral) is HealSelf <==> moral == 1 || moral == 13,
        type3_route(moral) is HealFriend <==> moral == 2 || moral == 3 || moral == 4 || moral == 6,
        type3_route(moral) is Enemy <==> moral == 7,
        type3_route(moral) is Area <==> 10 <= moral <= 12,
        !(type3_route(moral) is Failed),
{
}

/// Friends are healed who live and are there. A heal over time does not join another one on
/// its target, and a party-wide one is not for monsters or for casters who have one; a direct
/// heal is stopped by none of these.
pub proof fn law_friends_who_are_healed(moral: i16, row: MagicType3Row, s: FriendHealState)
    ensures
        friend_heal_ok(moral, row, s) ==> alive(s.target),
        alive(s.target) && or_i32(row.time_damage, 0)
            <= 0 ==> friend_heal_ok(moral, row, s),
        or_i32(row.time_damage, 0) > 0 && s.target_has_hot && moral <= 4 ==> !friend_heal_ok(
            moral,
            row,
            s,
        ),
        or_i32(row.time_damage, 0) > 0 && moral == 6 && (s.caster_is_monster || s.caster_has_hot)
            ==> !friend_heal_ok(moral, row, s),
        alive(s.target) && !s.target_has_hot
            && !s.caster_has_hot && !s.caster_is_monster ==> friend_heal_ok(moral, row, s),
{
}

/// A spell at a player is cleared only where everyone is there, the target lives, can be seen
/// and reached, is an enemy and does not block magic; a snowball flies only in its battle.
pub proof fn law_spells_at_players(t: SpellTarget)
    ensures
        spell_gate(t) is Clear || spell_gate(t) is Snowball ==> {
            &&& alive(t.state)
            &&& !t.blinking
            &&& !t.blocks_magic
            &&& t.in_range
            &&& t.caster_present
            &&& t.hostile
        },
        alive(t.state) && !t.blinking && !t.blocks_magic
            && t.in_range && t.caster_present && t.hostile ==> {
            &&& spell_gate(t) is Snowball <==> t.caster_zone == 69 && t.snow_battle
            &&& spell_gate(t) is Clear <==> t.stats_known && !(t.caster_zone == 69
                && t.snow_battle)
            &&& !(spell_gate(t) is Failed)
        },
        t.state is None ==> spell_gate(t) is Lost,
        t.state is Some && t.caster_present && t.stats_known ==> !(spell_gate(t) is Lost),
        t.state is Some && !alive(t.state) ==> spell_gate(t) is Failed,
{
}

/// Direct type 2 changes mana by the row's number, within 0 and the maximum, and shows its
/// size; it does no damage. Every other direct type does damage and leaves mana alone.
pub proof fn law_mana_is_changed_by_type_2(
    skill_id: u32,
    row: MagicType3Row,
    hp: i16,
    max_hp: i16,
    mp: i16,
    max_mp: i16,
)
    requires
        max_mp >= 0,
        or_i32(row.first_damage, 0) > i32::MIN,
    ensures
        ({
            let first = or_i32(row.first_damage, 0);
            match direct_effect(skill_id, row, hp, max_hp, mp, max_mp) {
                DirectEffect::Mana { mp: after, shown } => {
                    &&& row.direct_type == Some(2i32)
                    &&& 0 <= after <= max_mp
                    &&& 0 < after < max_mp ==> after - mp == first
                    &&& after == 0 ==> mp + first <= 0 || max_mp == 0
                    &&& after == max_mp ==> mp + first >= max_mp || max_mp == 0
                    &&& shown == first || shown == -first
                    &&& shown >= 0
                },
                _ => row.direct_type != Some(2i32),
            }
        }),
{
}

/// Direct type 5 takes a percentage of health: a negative number that many hundredths of the
/// current health, a number above 100 as many hundredths of the maximum as it is above.
pub proof fn law_type_5_takes_a_percentage(
    skill_id: u32,
    row: MagicType3Row,
    hp: i16,
    max_hp: i16,
    mp: i16,
    max_mp: i16,
)
    requires
        row.direct_type == Some(5i32),
        -100 <= or_i32(row.first_damage, 0) <= 200,
        hp >= 0,
        max_hp >= 0,
    ensures
        ({
            let first = or_i32(row.first_damage, 0);
            match direct_effect(skill_id, row, hp, max_hp, mp, max_mp) {
                DirectEffect::Damage { damage } => {
                    &&& first <= 0 ==> 100 * damage <= -first * hp < 100 * damage + 100
                    &&& 0 <= first < 100 ==> 100 * -damage <= first * hp < 100 * -damage + 100
                    &&& first >= 100 ==> 100 * damage <= (first - 100) * max_hp < 100 * damage
                        + 100
                },
                _ => false,
            }
        }),
{
    let first = or_i32(row.first_damage, 0) as int;
    assert(-first * hp == -(first * hp)) by (nonlinear_arith);
    assert((first - 100) * max_hp == max_hp * (first - 100)) by (nonlinear_arith);
    assert(first <= 0 ==> -32767 * 100 <= first * hp <= 0) by (nonlinear_arith)
        requires
            -100 <= first,
            0 <= hp <= 32767,
    ;
    assert(0 <= first < 100 ==> 0 <= first * hp <= 32767 * 100) by (nonlinear_arith)
        requires
            0 <= hp <= 32767,
    ;
    assert(first >= 100 ==> 0 <= max_hp * (first - 100) <= 32767 * 100) by (nonlinear_arith)
        requires
            first <= 200,
            0 <= max_hp <= 32767,
    ;
}

/// Other direct damage is the row's number turned around, at the row's percentage for players
/// or for NPCs, each side by its own column; a percentage of 0 or none changes nothing. What
/// goes through the formula takes the formula's result in place of the row's number.
pub proof fn law_direct_damage_takes_its_percentage(
    skill_id: u32,
    row: MagicType3Row,
    formula: i16,
    hp: i16,
    max_hp: i16,
    mp: i16,
    max_mp: i16,
)
    requires
        -32767 <= or_i32(row.first_damage, 0),
        or_i32(row.direct_type, 0) != 2,
        or_i32(row.direct_type, 0) != 5,
        formula >= 0,
        0 <= or_i16(row.add_dmg_perc_to_user, 0),
        0 <= or_i16(row.add_dmg_perc_to_npc, 0),
        -or_i32(row.first_damage, 0) * or_i16(row.add_dmg_perc_to_user, 0) <= 3276799,
        -or_i32(row.first_damage, 0) * or_i16(row.add_dmg_perc_to_npc, 0) <= 3276799,
        formula * or_i16(row.add_dmg_perc_to_npc, 0) <= 3276799,
    ensures
        ({
            let first = or_i32(row.first_damage, 0);
            let by_formula = first < 0 && (row.direct_type == Some(1i32) || row.direct_type
                == Some(8i32)) && skill_id < 400000;
            let own = if first < 0 {
                -first
            } else {
                0
            };
            let at_player = or_i16(row.add_dmg_perc_to_user, 0);
            let at_npc = or_i16(row.add_dmg_perc_to_npc, 0);
            let base = if by_formula {
                formula as int
            } else {
                own
            };
            let npc = npc_spell(skill_id, row, formula);
            &&& direct_effect(skill_id, row, hp, max_hp, mp, max_mp) is Formula <==> by_formula
            &&& match direct_effect(skill_id, row, hp, max_hp, mp, max_mp) {
                DirectEffect::Damage { damage } => {
                    &&& at_player == 0 ==> damage == own
                    &&& at_player != 0 ==> 100 * damage <= own * at_player < 100 * damage + 100
                },
                DirectEffect::Mana { .. } => false,
                DirectEffect::Formula => true,
            }
            &&& at_npc == 0 ==> npc == base
            &&& at_npc != 0 ==> 100 * npc <= base * at_npc < 100 * npc + 100
        }),
{
    let first = or_i32(row.first_damage, 0);
    let own = if first < 0 {
        -first
    } else {
        0
    };
    let a = or_i16(row.add_dmg_perc_to_user, 0) as int;
    let b = or_i16(row.add_dmg_perc_to_npc, 0) as int;
    assert(first >= 0 ==> own * a == 0 && own * b == 0);
    assert(0 <= own * a) by (nonlinear_arith)
        requires
            0 <= own,
            0 <= a,
    ;
    assert(0 <= own * b) by (nonlinear_arith)
        requires
            0 <= own,
            0 <= b,
    ;
    assert(0 <= formula * b) by (nonlinear_arith)
        requires
            0 <= formula,
            0 <= b,
    ;
}

/// Harm over time shows as status 2 for attribute 6, poison, and as 1 for every other.
pub proof fn law_how_harm_is_shown(attribute: u8)
    ensures
        attribute == 6 ==> harm_status(attribute) == 2,
        attribute != 6 ==> harm_status(attribute) == 1,
{
}

/// Empty columns of a spell's row, and of its skill, count as 0.
pub proof fn law_empty_columns_are_0_for_spells(
    skill_id: u32,
    skill: MagicRow,
    row: MagicType3Row,
    gate: Type3Gate,
    last: u64,
    now: u64,
    t: HealTarget,
    friend: FriendHealState,
    zone_id: u16,
    formula: i16,
    reduction: u8,
)
    ensures
        ({
            let s = crate::tables::filled_skill(skill);
            let f = crate::tables::filled_spell(row);
            let moral = or_i16(skill.moral, 0);
            &&& potion(skill_id, s, f) == potion(skill_id, skill, row)
            &&& potion_banned(s, f, gate) == potion_banned(skill, row, gate)
            &&& potion_too_soon(skill_id, s, f, last, now) == potion_too_soon(
                skill_id,
                skill,
                row,
                last,
                now,
            )
            &&& heal_amount(f) == heal_amount(row)
            &&& heal_over_time(f, t.undead) == heal_over_time(row, t.undead)
            &&& heal(f, t) == heal(row, t)
            &&& friend_heal_ok(moral, f, friend) == friend_heal_ok(moral, row, friend)
            &&& damage_over_time(f, zone_id, formula, reduction) == damage_over_time(
                row,
                zone_id,
                formula,
                reduction,
            )
            &&& direct_effect(skill_id, f, t.hp, t.max_hp, t.mp, t.max_mp) == direct_effect(
                skill_id,
                row,
                t.hp,
                t.max_hp,
                t.mp,
                t.max_mp,
            )
            &&& npc_spell(skill_id, f, formula) == npc_spell(skill_id, row, formula)
        }),
{
}

} // verus!
